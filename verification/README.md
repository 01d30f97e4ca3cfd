# iroh_willow

Connection setup and entry forms of a Willow peer, verified with Verus.

- `src/proto.rs`: the control channel and the logical channels, their
  one-byte wire ids, and the proofs that decoding an id gives back its
  channel and that every channel is listed once.
- `src/handshake.rs`: the initial transmission (the payload-size power and
  the hash of a nonce), how it is encoded and how the other peer's is read.
- `src/net.rs`: the assignment of a connection's streams to channels, the
  buffer configuration of each channel, and `PeerConn`, a connection with the
  node ids and role of its two ends.
- `src/form.rs`: the forms that select the authenticating user, the subspace
  and the timestamp of a new entry, and how a payload is settled.
- `app/`: serde copies of the forms, payload import through a blob store, and
  the async drivers that run the handshake and the channel setup over streams.
