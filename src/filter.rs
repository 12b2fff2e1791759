//! The decision whether an observed event is logged.

use vstd::prelude::*;
use crate::blacklist::Blacklist;
use crate::event::{ChannelLookup, ObservedEvent};
use crate::guild::GuildBinding;

verus! {

/// Whether an event is logged, given the bound guild, the blacklisted ids
/// and what resolving the event's channel gave. An event whose author is
/// unknown (a deletion that missed the cache), or a bot, is suppressed; so
/// is one from no guild or another guild than the bound one (or while none
/// is bound), one in a blacklisted channel, and one whose channel resolved to
/// a blacklisted category. A failed resolution counts as no category.
pub open spec fn log_decision(
    event: ObservedEvent,
    bound: Option<u64>,
    blacklist: Seq<u64>,
    lookup: ChannelLookup,
) -> bool {
    match event.spec_author() {
        None => false,
        Some(author) => !author.bot && event.spec_guild_id() is Some && bound
            == event.spec_guild_id() && !blacklist.contains(event.spec_channel_id()) && !(
        lookup matches ChannelLookup::Parent(p) && blacklist.contains(p)),
    }
}

/// Whether the channel, or the category it resolved to, is blacklisted.
pub fn channel_blacklisted(blacklist: &Blacklist, channel_id: u64, lookup: ChannelLookup) -> (r:
    bool)
    ensures
        r == (blacklist@.contains(channel_id) || (lookup matches ChannelLookup::Parent(p)
            && blacklist@.contains(p))),
{
    if blacklist.contains(channel_id) {
        return true;
    }
    match lookup {
        ChannelLookup::Parent(p) => blacklist.contains(p),
        _ => false,
    }
}

/// Decides whether `event` is logged.
pub fn should_log(
    event: &ObservedEvent,
    binding: &GuildBinding,
    blacklist: &Blacklist,
    lookup: ChannelLookup,
) -> (r: bool)
    ensures
        r == log_decision(*event, binding.guild, blacklist@, lookup),
{
    match event.author_is_bot() {
        None => {
            return false;
        },
        Some(true) => {
            return false;
        },
        Some(false) => {},
    }
    let guild = match event.guild_id() {
        Some(g) => g,
        None => {
            return false;
        },
    };
    match binding.current() {
        Some(b) => {
            if b != guild {
                return false;
            }
        },
        None => {
            return false;
        },
    }
    !channel_blacklisted(blacklist, event.channel_id(), lookup)
}

/// Whether the event passes every check that does not need its channel
/// resolved; only then is resolving it worth the cost.
pub fn needs_lookup(event: &ObservedEvent, binding: &GuildBinding, blacklist: &Blacklist) -> (r:
    bool)
    ensures
        r == log_decision(*event, binding.guild, blacklist@, ChannelLookup::NoParent),
{
    should_log(event, binding, blacklist, ChannelLookup::NoParent)
}

/// Resolving the channel can only suppress an event: one that is logged
/// with some lookup result is logged when the channel has no category.
pub proof fn lemma_lookup_only_suppresses(
    event: ObservedEvent,
    bound: Option<u64>,
    blacklist: Seq<u64>,
    lookup: ChannelLookup,
)
    ensures
        log_decision(event, bound, blacklist, lookup) ==> log_decision(
            event,
            bound,
            blacklist,
            ChannelLookup::NoParent,
        ),
{
}

/// An event by a bot or system account is never logged, whatever its other
/// fields hold.
pub proof fn lemma_bot_never_logged(
    event: ObservedEvent,
    bound: Option<u64>,
    blacklist: Seq<u64>,
    lookup: ChannelLookup,
)
    requires
        event.spec_author() matches Some(a) && a.bot,
    ensures
        !log_decision(event, bound, blacklist, lookup),
{
}

/// An event from no guild, or from another guild than the bound one, is
/// never logged.
pub proof fn lemma_foreign_guild_never_logged(
    event: ObservedEvent,
    bound: Option<u64>,
    blacklist: Seq<u64>,
    lookup: ChannelLookup,
)
    requires
        event.spec_guild_id() is None || event.spec_guild_id() != bound,
    ensures
        !log_decision(event, bound, blacklist, lookup),
{
}

/// An event in a blacklisted channel is never logged, whatever resolving the
/// channel gave.
pub proof fn lemma_blacklisted_channel_never_logged(
    event: ObservedEvent,
    bound: Option<u64>,
    blacklist: Seq<u64>,
    lookup: ChannelLookup,
)
    requires
        blacklist.contains(event.spec_channel_id()),
    ensures
        !log_decision(event, bound, blacklist, lookup),
{
}

/// An event whose channel resolved to a blacklisted category is never
/// logged.
pub proof fn lemma_blacklisted_category_never_logged(
    event: ObservedEvent,
    bound: Option<u64>,
    blacklist: Seq<u64>,
    category: u64,
)
    requires
        blacklist.contains(category),
    ensures
        !log_decision(event, bound, blacklist, ChannelLookup::Parent(category)),
{
}

/// A failed channel resolution does not suppress: the decision is the same
/// as for a channel without a category, and an event that passes the author,
/// guild and channel checks is logged.
pub proof fn lemma_failed_lookup_falls_through(
    event: ObservedEvent,
    bound: Option<u64>,
    blacklist: Seq<u64>,
)
    ensures
        log_decision(event, bound, blacklist, ChannelLookup::Failed) == log_decision(
            event,
            bound,
            blacklist,
            ChannelLookup::NoParent,
        ),
        (event.spec_author() matches Some(a) && !a.bot) && event.spec_guild_id() is Some
            && event.spec_guild_id() == bound && !blacklist.contains(event.spec_channel_id())
            ==> log_decision(event, bound, blacklist, ChannelLookup::Failed),
{
}

} // verus!
