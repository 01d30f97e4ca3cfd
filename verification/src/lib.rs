//! Connection setup and entry forms of a Willow peer: the channel model and
//! the byte-level handshake that two peers run when they connect, the rules
//! that map the streams of a connection onto the logical channels, and the
//! forms from which entries are authored.

pub mod proto;
pub mod net;
pub mod handshake;
pub mod form;
