//! Setting up the streams of a connection: which channel each stream carries,
//! and how each channel's buffers are configured.

use vstd::prelude::*;

use crate::proto::{Channel, LogicalChannel, channel_id, channel_of_id, all_channels};
use crate::handshake::Role;

verus! {

/// Declares iroh-base's `PublicKey`, the key that identifies a node, to
/// Verus as an opaque type: connections carry node ids through and never
/// look inside them.
#[verifier::external_type_specification]
#[verifier::external_body]
pub struct ExPublicKey(iroh_base::key::PublicKey);

/// A connection to a remote node, with the remote node's id, our own node's
/// id, and our role (whether we accepted or initiated the connection).
#[derive(Debug)]
pub struct PeerConn<C> {
    our_role: Role,
    remote_node_id: iroh_base::key::PublicKey,
    node_id: iroh_base::key::PublicKey,
    conn: C,
}

impl<C: Clone> Clone for PeerConn<C> {
    /// A copy of the connection handle with the same role and node ids.
    fn clone(&self) -> (r: Self)
        ensures
            r.spec_our_role() == self.spec_our_role(),
            r.spec_peer() == self.spec_peer(),
            r.spec_me() == self.spec_me(),
    {
        PeerConn {
            our_role: self.our_role,
            remote_node_id: self.remote_node_id,
            node_id: self.node_id,
            conn: self.conn.clone(),
        }
    }
}

impl<C> PeerConn<C> {
    /// Our role on the connection.
    pub closed spec fn spec_our_role(&self) -> Role {
        self.our_role
    }

    /// The remote node's id.
    pub closed spec fn spec_peer(&self) -> iroh_base::key::PublicKey {
        self.remote_node_id
    }

    /// Our own node's id.
    pub closed spec fn spec_me(&self) -> iroh_base::key::PublicKey {
        self.node_id
    }

    /// The connection itself.
    pub closed spec fn spec_conn(&self) -> C {
        self.conn
    }

    /// Wraps a connection on which we have role `our_role`, whose remote
    /// node is `peer`, from our node `me`.
    pub fn new(conn: C, our_role: Role, me: iroh_base::key::PublicKey, peer: iroh_base::key::PublicKey) -> (r: Self)
        ensures
            r.spec_our_role() == our_role,
            r.spec_me() == me,
            r.spec_peer() == peer,
            r.spec_conn() == conn,
    {
        PeerConn { our_role, remote_node_id: peer, node_id: me, conn }
    }

    /// The remote node's id.
    pub fn peer(&self) -> (r: iroh_base::key::PublicKey)
        ensures
            r == self.spec_peer(),
    {
        self.remote_node_id
    }

    /// Our own node's id.
    pub fn me(&self) -> (r: iroh_base::key::PublicKey)
        ensures
            r == self.spec_me(),
    {
        self.node_id
    }

    /// Our role on the connection.
    pub fn our_role(&self) -> (r: Role)
        ensures
            r == self.spec_our_role(),
    {
        self.our_role
    }

    /// The connection itself.
    pub fn conn(&self) -> (r: &C)
        ensures
            *r == self.spec_conn(),
    {
        &self.conn
    }
}

/// Capacity in bytes of the buffers of each channel.
pub const CHANNEL_CAP: usize = 65536;

/// The protocol name that connections of this protocol negotiate: the ASCII
/// bytes of `iroh-willow/0`.
pub const ALPN: [u8; 13] = [105, 114, 111, 104, 45, 119, 105, 108, 108, 111, 119, 47, 48];

/// A channel for which no stream was opened.
#[derive(Debug, Clone, Copy, PartialEq, Eq, Structural)]
pub struct MissingChannel(pub Channel);

/// How much a channel's sender may send before the peer grants more.
#[derive(Debug, Clone, Copy, PartialEq, Eq, Structural)]
pub enum Guarantees {
    /// No limit: the control channel.
    Unlimited,
    /// At most this many bytes beyond what was granted.
    Limited(u64),
}

/// The buffer configuration of a channel.
#[derive(Debug, Clone, Copy, PartialEq, Eq, Structural)]
pub struct ChannelConfig {
    pub cap: usize,
    pub guarantees: Guarantees,
}

/// The guarantees a channel starts with: unlimited on the control channel,
/// none on every logical channel.
pub open spec fn spec_guarantees(ch: Channel) -> Guarantees {
    match ch {
        Channel::Control => Guarantees::Unlimited,
        Channel::Logical(_) => Guarantees::Limited(0),
    }
}

/// The configuration of the buffers of a channel's stream.
pub fn prepare_channel(ch: Channel) -> (r: ChannelConfig)
    ensures
        r.cap == CHANNEL_CAP,
        r.guarantees == spec_guarantees(ch),
{
    let guarantees = match ch {
        Channel::Control => Guarantees::Unlimited,
        Channel::Logical(_) => Guarantees::Limited(0),
    };
    ChannelConfig { cap: CHANNEL_CAP, guarantees }
}

/// `i` is the first position of `c` in `s`.
pub open spec fn is_first_index(s: Seq<Channel>, c: Channel, i: int) -> bool {
    &&& 0 <= i < s.len()
    &&& s[i] == c
    &&& forall|j: int| 0 <= j < i ==> s[j] != c
}

/// The first channel, in the order in which the streams are looked up, that
/// no stream carries.
pub open spec fn first_missing(s: Seq<Channel>) -> Option<Channel> {
    if !s.contains(Channel::Control) {
        Some(Channel::Control)
    } else if !s.contains(Channel::Logical(LogicalChannel::Intersection)) {
        Some(Channel::Logical(LogicalChannel::Intersection))
    } else if !s.contains(Channel::Logical(LogicalChannel::Reconciliation)) {
        Some(Channel::Logical(LogicalChannel::Reconciliation))
    } else if !s.contains(Channel::Logical(LogicalChannel::StaticToken)) {
        Some(Channel::Logical(LogicalChannel::StaticToken))
    } else if !s.contains(Channel::Logical(LogicalChannel::AreaOfInterest)) {
        Some(Channel::Logical(LogicalChannel::AreaOfInterest))
    } else if !s.contains(Channel::Logical(LogicalChannel::Capability)) {
        Some(Channel::Logical(LogicalChannel::Capability))
    } else if !s.contains(Channel::Logical(LogicalChannel::Data)) {
        Some(Channel::Logical(LogicalChannel::Data))
    } else {
        None
    }
}

/// For each channel, the position of the stream that carries it.
#[derive(Debug, Clone, Copy, PartialEq, Eq, Structural)]
pub struct ChannelSlots {
    pub control: usize,
    pub intersection: usize,
    pub reconciliation: usize,
    pub static_token: usize,
    pub area_of_interest: usize,
    pub capability: usize,
    pub data: usize,
}

impl ChannelSlots {
    /// The position assigned to channel `c`.
    pub open spec fn slot(self, c: Channel) -> usize {
        match c {
            Channel::Control => self.control,
            Channel::Logical(LogicalChannel::Intersection) => self.intersection,
            Channel::Logical(LogicalChannel::Reconciliation) => self.reconciliation,
            Channel::Logical(LogicalChannel::StaticToken) => self.static_token,
            Channel::Logical(LogicalChannel::AreaOfInterest) => self.area_of_interest,
            Channel::Logical(LogicalChannel::Capability) => self.capability,
            Channel::Logical(LogicalChannel::Data) => self.data,
        }
    }
}

/// The position of the first stream that carries `channel`, if any.
fn find_channel(channels: &[Channel], channel: Channel) -> (r: Option<usize>)
    ensures
        match r {
            Some(i) => is_first_index(channels@, channel, i as int),
            None => !channels@.contains(channel),
        },
{
    let n = channels.len();
    for i in 0..n
        invariant
            n == channels@.len(),
            forall|j: int| 0 <= j < i ==> channels@[j] != channel,
    {
        if channels[i] == channel {
            return Some(i);
        }
    }
    None
}

/// Assigns to each channel the first of the streams that carries it, given
/// the channel that each stream carries; fails with the first channel (in
/// the order control, intersection, reconciliation, static token, area of
/// interest, capability, data) that no stream carries.
pub fn start_channels(channels: &[Channel]) -> (r: Result<ChannelSlots, MissingChannel>)
    ensures
        match first_missing(channels@) {
            Some(c) => r == Err::<ChannelSlots, MissingChannel>(MissingChannel(c)),
            None => r matches Ok(slots) && forall|c: Channel|
                is_first_index(channels@, c, #[trigger] slots.slot(c) as int),
        },
{
    let control = match find_channel(channels, Channel::Control) {
        Some(i) => i,
        None => return Err(MissingChannel(Channel::Control)),
    };
    let intersection = match find_channel(channels, Channel::Logical(LogicalChannel::Intersection)) {
        Some(i) => i,
        None => return Err(MissingChannel(Channel::Logical(LogicalChannel::Intersection))),
    };
    let reconciliation = match find_channel(channels, Channel::Logical(LogicalChannel::Reconciliation)) {
        Some(i) => i,
        None => return Err(MissingChannel(Channel::Logical(LogicalChannel::Reconciliation))),
    };
    let static_token = match find_channel(channels, Channel::Logical(LogicalChannel::StaticToken)) {
        Some(i) => i,
        None => return Err(MissingChannel(Channel::Logical(LogicalChannel::StaticToken))),
    };
    let area_of_interest = match find_channel(channels, Channel::Logical(LogicalChannel::AreaOfInterest)) {
        Some(i) => i,
        None => return Err(MissingChannel(Channel::Logical(LogicalChannel::AreaOfInterest))),
    };
    let capability = match find_channel(channels, Channel::Logical(LogicalChannel::Capability)) {
        Some(i) => i,
        None => return Err(MissingChannel(Channel::Logical(LogicalChannel::Capability))),
    };
    let data = match find_channel(channels, Channel::Logical(LogicalChannel::Data)) {
        Some(i) => i,
        None => return Err(MissingChannel(Channel::Logical(LogicalChannel::Data))),
    };
    let slots = ChannelSlots {
        control,
        intersection,
        reconciliation,
        static_token,
        area_of_interest,
        capability,
        data,
    };
    assert forall|c: Channel| is_first_index(channels@, c, #[trigger] slots.slot(c) as int) by {
        match c {
            Channel::Control => {},
            Channel::Logical(l) => match l {
                LogicalChannel::Intersection => {},
                LogicalChannel::Reconciliation => {},
                LogicalChannel::StaticToken => {},
                LogicalChannel::AreaOfInterest => {},
                LogicalChannel::Capability => {},
                LogicalChannel::Data => {},
            },
        }
    }
    Ok(slots)
}

/// Assigning the streams succeeds exactly when every channel is carried by
/// some stream.
pub proof fn lemma_start_channels_succeeds_iff_complete(s: Seq<Channel>)
    ensures
        first_missing(s) is None <==> forall|c: Channel| #[trigger] s.contains(c),
{
    if first_missing(s) is None {
        assert forall|c: Channel| #[trigger] s.contains(c) by {
            match c {
                Channel::Control => {},
                Channel::Logical(l) => match l {
                    LogicalChannel::Intersection => {},
                    LogicalChannel::Reconciliation => {},
                    LogicalChannel::StaticToken => {},
                    LogicalChannel::AreaOfInterest => {},
                    LogicalChannel::Capability => {},
                    LogicalChannel::Data => {},
                },
            }
        }
    }
}

/// The channels that the streams carry, decoded from the id read on each.
pub open spec fn decode_ids(ids: Seq<u8>) -> Seq<Channel> {
    ids.map_values(|id: u8| channel_of_id(id)->Some_0)
}

/// When the accepting peer reads, on its streams, the ids that the opening
/// peer announced for all the channels, in whatever order the streams
/// arrive, then every id decodes, assigning the streams succeeds, and the
/// stream assigned to each channel is one on which that channel's id was
/// announced.
pub proof fn lemma_announced_streams_assign(ids: Seq<u8>)
    requires
        ids.len() == Channel::COUNT,
        forall|c: Channel| ids.contains(#[trigger] channel_id(c)),
    ensures
        forall|i: int| 0 <= i < ids.len() ==> (#[trigger] channel_of_id(ids[i])) is Some,
        first_missing(decode_ids(ids)) is None,
        forall|c: Channel, i: int|
            #[trigger] is_first_index(decode_ids(ids), c, i) ==> ids[i] == channel_id(c),
{
    let d = decode_ids(ids);
    // the seven ids of the channels are distinct and fill the seven streams
    let a = all_channels();
    crate::proto::lemma_all_channels_complete(Channel::Control);
    assert forall|i: int| 0 <= i < ids.len() implies (#[trigger] channel_of_id(ids[i])) is Some by {
        assert(a =~= seq![
            Channel::Control,
            Channel::Logical(LogicalChannel::Intersection),
            Channel::Logical(LogicalChannel::Reconciliation),
            Channel::Logical(LogicalChannel::Data),
            Channel::Logical(LogicalChannel::StaticToken),
            Channel::Logical(LogicalChannel::AreaOfInterest),
            Channel::Logical(LogicalChannel::Capability),
        ]);
        // each channel's id sits at some position; positions of distinct ids differ
        let p0 = choose|k: int| 0 <= k < ids.len() && ids[k] == channel_id(a[0]);
        let p1 = choose|k: int| 0 <= k < ids.len() && ids[k] == channel_id(a[1]);
        let p2 = choose|k: int| 0 <= k < ids.len() && ids[k] == channel_id(a[2]);
        let p3 = choose|k: int| 0 <= k < ids.len() && ids[k] == channel_id(a[3]);
        let p4 = choose|k: int| 0 <= k < ids.len() && ids[k] == channel_id(a[4]);
        let p5 = choose|k: int| 0 <= k < ids.len() && ids[k] == channel_id(a[5]);
        let p6 = choose|k: int| 0 <= k < ids.len() && ids[k] == channel_id(a[6]);
        assert(ids.contains(channel_id(a[0])));
        assert(ids.contains(channel_id(a[1])));
        assert(ids.contains(channel_id(a[2])));
        assert(ids.contains(channel_id(a[3])));
        assert(ids.contains(channel_id(a[4])));
        assert(ids.contains(channel_id(a[5])));
        assert(ids.contains(channel_id(a[6])));
        // seven distinct positions among seven: one of them is i
        assert(i == p0 || i == p1 || i == p2 || i == p3 || i == p4 || i == p5 || i == p6);
    }
    assert forall|c: Channel| #[trigger] d.contains(c) by {
        let k = choose|k: int| 0 <= k < ids.len() && ids[k] == channel_id(c);
        assert(ids.contains(channel_id(c)));
        crate::proto::lemma_channel_id_roundtrip(c, ids[k]);
        assert(d[k] == c);
    }
    lemma_start_channels_succeeds_iff_complete(d);
    assert forall|c: Channel, i: int| #[trigger] is_first_index(d, c, i) implies ids[i] == channel_id(c) by {
        assert(channel_of_id(ids[i]) is Some);
        crate::proto::lemma_channel_id_roundtrip(c, ids[i]);
    }
}

} // verus!
