//! The events observed on the gateway, as plain values.

use vstd::prelude::*;

verus! {

/// The author of a message.
#[derive(Clone, Debug, PartialEq, Eq)]
pub struct Author {
    pub name: String,
    /// Whether the account is a bot or system account.
    pub bot: bool,
    /// The author's own avatar, if one is set.
    pub avatar_url: Option<String>,
    /// The avatar that the platform shows when none is set.
    pub default_avatar_url: String,
}

/// A message as it was kept in the local cache.
#[derive(Clone, Debug, PartialEq, Eq)]
pub struct CachedMessage {
    pub author: Author,
    pub content: String,
}

/// A message deletion or edit reported by the gateway.
#[derive(Clone, Debug, PartialEq, Eq)]
pub enum ObservedEvent {
    Deleted {
        channel_id: u64,
        message_id: u64,
        guild_id: Option<u64>,
        /// Absent when the message was not in the cache.
        cached_message: Option<CachedMessage>,
    },
    Edited {
        channel_id: u64,
        message_id: u64,
        guild_id: Option<u64>,
        author: Option<Author>,
        /// The content before the edit, when the message was cached.
        old_content: Option<String>,
        /// The content of the edited message, when it was cached.
        new_content: Option<String>,
        /// The content field of the update payload itself.
        raw_content: Option<String>,
        /// The edit time that the payload carries.
        timestamp: Option<String>,
    },
}

/// What resolving the channel of an event gave.
#[derive(Clone, Copy, Debug, PartialEq, Eq)]
pub enum ChannelLookup {
    /// The channel sits in this category.
    Parent(u64),
    /// The channel has no category, or is not a guild channel.
    NoParent,
    /// The channel could not be resolved.
    Failed,
}

impl ObservedEvent {
    pub open spec fn spec_channel_id(&self) -> u64 {
        match self {
            ObservedEvent::Deleted { channel_id, .. } => *channel_id,
            ObservedEvent::Edited { channel_id, .. } => *channel_id,
        }
    }

    pub open spec fn spec_guild_id(&self) -> Option<u64> {
        match self {
            ObservedEvent::Deleted { guild_id, .. } => *guild_id,
            ObservedEvent::Edited { guild_id, .. } => *guild_id,
        }
    }

    /// The author whose identity the event makes known: for a deletion, the
    /// cached message's author.
    pub open spec fn spec_author(&self) -> Option<Author> {
        match self {
            ObservedEvent::Deleted { cached_message, .. } => match cached_message {
                Some(m) => Some(m.author),
                None => None,
            },
            ObservedEvent::Edited { author, .. } => *author,
        }
    }

    /// The channel the message was in.
    #[verifier::when_used_as_spec(spec_channel_id)]
    pub fn channel_id(&self) -> (r: u64)
        ensures
            r == self.spec_channel_id(),
    {
        match self {
            ObservedEvent::Deleted { channel_id, .. } => *channel_id,
            ObservedEvent::Edited { channel_id, .. } => *channel_id,
        }
    }

    /// The guild the message was in, if the event says.
    #[verifier::when_used_as_spec(spec_guild_id)]
    pub fn guild_id(&self) -> (r: Option<u64>)
        ensures
            r == self.spec_guild_id(),
    {
        match self {
            ObservedEvent::Deleted { guild_id, .. } => *guild_id,
            ObservedEvent::Edited { guild_id, .. } => *guild_id,
        }
    }

    /// Whether the event's author is known and is a bot or system account.
    pub fn author_is_bot(&self) -> (r: Option<bool>)
        ensures
            r == (match self.spec_author() {
                Some(a) => Some(a.bot),
                None => None,
            }),
    {
        match self {
            ObservedEvent::Deleted { cached_message, .. } => match cached_message {
                Some(m) => Some(m.author.bot),
                None => None,
            },
            ObservedEvent::Edited { author, .. } => match author {
                Some(a) => Some(a.bot),
                None => None,
            },
        }
    }
}

} // verus!
