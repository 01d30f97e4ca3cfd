//! The protocol's channels: a control channel and the logical channels, each
//! announced on the wire by a one-byte id.

use vstd::prelude::*;

verus! {

/// The logical channels of a sync session.
#[derive(Debug, Clone, Copy, PartialEq, Eq, Structural)]
pub enum LogicalChannel {
    /// Controls the binding of new intersection handles.
    Intersection,
    /// Carries 3d range-based set reconciliation.
    Reconciliation,
    /// Carries entries and payloads outside of reconciliation.
    Data,
    /// Controls the binding of new static token handles.
    StaticToken,
    /// Controls the binding of new area of interest handles.
    AreaOfInterest,
    /// Controls the binding of new capability handles.
    Capability,
}

/// A channel of a session: the control channel or one of the logical channels.
#[derive(Debug, Clone, Copy, PartialEq, Eq, Structural)]
pub enum Channel {
    Control,
    Logical(LogicalChannel),
}

/// A byte that names no channel.
#[derive(Debug, Clone, Copy, PartialEq, Eq, Structural)]
pub struct InvalidChannelId;

/// The wire id of a logical channel.
pub open spec fn logical_channel_id(ch: LogicalChannel) -> u8 {
    match ch {
        LogicalChannel::Intersection => 2,
        LogicalChannel::Reconciliation => 3,
        LogicalChannel::StaticToken => 4,
        LogicalChannel::Capability => 5,
        LogicalChannel::AreaOfInterest => 6,
        LogicalChannel::Data => 7,
    }
}

/// The wire id of a channel.
pub open spec fn channel_id(ch: Channel) -> u8 {
    match ch {
        Channel::Control => 0,
        Channel::Logical(l) => logical_channel_id(l),
    }
}

/// The logical channel that a byte names, if any.
pub open spec fn logical_channel_of_id(id: u8) -> Option<LogicalChannel> {
    if id == 2 {
        Some(LogicalChannel::Intersection)
    } else if id == 3 {
        Some(LogicalChannel::Reconciliation)
    } else if id == 4 {
        Some(LogicalChannel::StaticToken)
    } else if id == 5 {
        Some(LogicalChannel::Capability)
    } else if id == 6 {
        Some(LogicalChannel::AreaOfInterest)
    } else if id == 7 {
        Some(LogicalChannel::Data)
    } else {
        None
    }
}

/// The channel that a byte names, if any.
pub open spec fn channel_of_id(id: u8) -> Option<Channel> {
    if id == 0 {
        Some(Channel::Control)
    } else {
        match logical_channel_of_id(id) {
            Some(l) => Some(Channel::Logical(l)),
            None => None,
        }
    }
}

/// The logical channels, in declaration order.
pub open spec fn all_logical_channels() -> Seq<LogicalChannel> {
    seq![
        LogicalChannel::Intersection,
        LogicalChannel::Reconciliation,
        LogicalChannel::Data,
        LogicalChannel::StaticToken,
        LogicalChannel::AreaOfInterest,
        LogicalChannel::Capability,
    ]
}

/// Every channel: the control channel first, then the logical channels.
pub open spec fn all_channels() -> Seq<Channel> {
    seq![Channel::Control].add(all_logical_channels().map_values(|l: LogicalChannel| Channel::Logical(l)))
}

impl LogicalChannel {
    /// The number of logical channels.
    pub const COUNT: usize = 6;

    /// All logical channels, in declaration order.
    pub fn all() -> (r: [LogicalChannel; 6])
        ensures
            r@ == all_logical_channels(),
    {
        let r = [
            LogicalChannel::Intersection,
            LogicalChannel::Reconciliation,
            LogicalChannel::Data,
            LogicalChannel::StaticToken,
            LogicalChannel::AreaOfInterest,
            LogicalChannel::Capability,
        ];
        assert(r@ =~= all_logical_channels());
        r
    }

    /// The byte that announces this channel on the wire.
    pub fn id(&self) -> (r: u8)
        ensures
            r == logical_channel_id(*self),
    {
        match self {
            LogicalChannel::Intersection => 2,
            LogicalChannel::Reconciliation => 3,
            LogicalChannel::StaticToken => 4,
            LogicalChannel::Capability => 5,
            LogicalChannel::AreaOfInterest => 6,
            LogicalChannel::Data => 7,
        }
    }

    /// The logical channel that `id` announces; an error for any other byte.
    pub fn from_id(id: u8) -> (r: Result<LogicalChannel, InvalidChannelId>)
        ensures
            match logical_channel_of_id(id) {
                Some(l) => r == Ok::<LogicalChannel, InvalidChannelId>(l),
                None => r == Err::<LogicalChannel, InvalidChannelId>(InvalidChannelId),
            },
    {
        match id {
            2 => Ok(LogicalChannel::Intersection),
            3 => Ok(LogicalChannel::Reconciliation),
            4 => Ok(LogicalChannel::StaticToken),
            5 => Ok(LogicalChannel::Capability),
            6 => Ok(LogicalChannel::AreaOfInterest),
            7 => Ok(LogicalChannel::Data),
            _ => Err(InvalidChannelId),
        }
    }
}

impl Channel {
    /// The number of channels.
    pub const COUNT: usize = 7;

    /// All channels: the control channel, then the logical channels in
    /// declaration order.
    pub fn all() -> (r: [Channel; 7])
        ensures
            r@ == all_channels(),
    {
        let r = [
            Channel::Control,
            Channel::Logical(LogicalChannel::Intersection),
            Channel::Logical(LogicalChannel::Reconciliation),
            Channel::Logical(LogicalChannel::Data),
            Channel::Logical(LogicalChannel::StaticToken),
            Channel::Logical(LogicalChannel::AreaOfInterest),
            Channel::Logical(LogicalChannel::Capability),
        ];
        assert(r@ =~= all_channels());
        r
    }

    /// The byte that announces this channel on the wire.
    pub fn id(&self) -> (r: u8)
        ensures
            r == channel_id(*self),
    {
        match self {
            Channel::Control => 0,
            Channel::Logical(ch) => ch.id(),
        }
    }

    /// The channel that `id` announces; an error for any other byte.
    pub fn from_id(id: u8) -> (r: Result<Channel, InvalidChannelId>)
        ensures
            match channel_of_id(id) {
                Some(c) => r == Ok::<Channel, InvalidChannelId>(c),
                None => r == Err::<Channel, InvalidChannelId>(InvalidChannelId),
            },
    {
        if id == 0 {
            Ok(Channel::Control)
        } else {
            match LogicalChannel::from_id(id) {
                Ok(ch) => Ok(Channel::Logical(ch)),
                Err(e) => Err(e),
            }
        }
    }
}

/// Decoding the id of a channel gives the channel back, and a byte decodes
/// to a channel only if it is that channel's id: what one peer announces on
/// a stream, the other reads as the same channel.
pub proof fn lemma_channel_id_roundtrip(ch: Channel, id: u8)
    ensures
        channel_of_id(channel_id(ch)) == Some(ch),
        channel_of_id(id) == Some(ch) <==> channel_id(ch) == id,
{
}

/// Distinct channels have distinct ids.
pub proof fn lemma_channel_id_injective(a: Channel, b: Channel)
    ensures
        channel_id(a) == channel_id(b) <==> a == b,
{
    lemma_channel_id_roundtrip(a, channel_id(a));
    lemma_channel_id_roundtrip(b, channel_id(b));
}

/// The list of all channels names every channel exactly once.
pub proof fn lemma_all_channels_complete(ch: Channel)
    ensures
        all_channels().len() == Channel::COUNT,
        all_channels().contains(ch),
        forall|i: int, j: int|
            0 <= i < j < all_channels().len() ==> all_channels()[i] != all_channels()[j],
{
    let s = all_channels();
    assert(s =~= seq![
        Channel::Control,
        Channel::Logical(LogicalChannel::Intersection),
        Channel::Logical(LogicalChannel::Reconciliation),
        Channel::Logical(LogicalChannel::Data),
        Channel::Logical(LogicalChannel::StaticToken),
        Channel::Logical(LogicalChannel::AreaOfInterest),
        Channel::Logical(LogicalChannel::Capability),
    ]);
    let k: int = match ch {
        Channel::Control => 0,
        Channel::Logical(LogicalChannel::Intersection) => 1,
        Channel::Logical(LogicalChannel::Reconciliation) => 2,
        Channel::Logical(LogicalChannel::Data) => 3,
        Channel::Logical(LogicalChannel::StaticToken) => 4,
        Channel::Logical(LogicalChannel::AreaOfInterest) => 5,
        Channel::Logical(LogicalChannel::Capability) => 6,
    };
    assert(s[k] == ch);
}

} // verus!
