use vstd::prelude::*;

verus! {

/// Opaque identifier of a guild (a server/community unit in the messaging
/// service).
#[derive(Clone, Copy, PartialEq, Eq, Structural, Debug)]
pub struct GuildId(pub u64);

/// Opaque identifier of a text channel.
#[derive(Clone, Copy, PartialEq, Eq, Structural, Debug)]
pub struct ChannelId(pub u64);

/// Opaque identifier of a single message.
#[derive(Clone, Copy, PartialEq, Eq, Structural, Debug)]
pub struct MessageId(pub u64);

/// A message as the manager needs to see it: which message it is and in
/// which channel it was posted.
#[derive(Clone, Copy, PartialEq, Eq, Structural, Debug)]
pub struct MessageRef {
    pub channel: ChannelId,
    pub id: MessageId,
}

/// A listed message together with its timestamp, in seconds.
#[derive(Clone, Copy, PartialEq, Eq, Structural, Debug)]
pub struct MessageStamp {
    pub id: MessageId,
    pub timestamp: u64,
}

/// Availability of one guild as reported by a ready notification.
#[derive(Clone, Copy, PartialEq, Eq, Structural, Debug)]
pub enum GuildStatus {
    OnlineGuild { guild: GuildId },
    OnlinePartialGuild { guild: GuildId },
    Offline { guild: GuildId },
}

} // verus!
