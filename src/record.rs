//! Rendering of accepted events into audit records.

use vstd::prelude::*;
use vstd::string::*;
use crate::blacklist::Blacklist;
use crate::event::{Author, CachedMessage, ChannelLookup, ObservedEvent};
use crate::filter::{log_decision, should_log};
use crate::guild::GuildBinding;
use crate::text::{decimal, push_decimal};

verus! {

/// Colour of a deletion record.
pub const DELETE_COLOR: u32 = 0xFF3300;

/// Colour of an edit record.
pub const EDIT_COLOR: u32 = 0x1F6FEB;

/// A rendered audit record.
#[derive(Clone, Debug, PartialEq, Eq)]
pub struct LogRecord {
    pub color: u32,
    pub author_name: String,
    /// Where the author's avatar image is found.
    pub author_icon: String,
    pub footer: String,
    pub timestamp: String,
    pub body: String,
}

/// A record as plain values.
pub struct LogRecordView {
    pub color: u32,
    pub author_name: Seq<char>,
    pub author_icon: Seq<char>,
    pub footer: Seq<char>,
    pub timestamp: Seq<char>,
    pub body: Seq<char>,
}

impl View for LogRecord {
    type V = LogRecordView;

    open spec fn view(&self) -> LogRecordView {
        LogRecordView {
            color: self.color,
            author_name: self.author_name@,
            author_icon: self.author_icon@,
            footer: self.footer@,
            timestamp: self.timestamp@,
            body: self.body@,
        }
    }
}

/// The address of a message: in a guild, or among direct messages when no
/// guild is given.
pub open spec fn message_link_text(guild_id: Option<u64>, channel_id: u64, message_id: u64) -> Seq<
    char,
> {
    match guild_id {
        Some(g) => "https://discord.com/channels/"@ + decimal(g as nat) + "/"@ + decimal(
            channel_id as nat,
        ) + "/"@ + decimal(message_id as nat),
        None => "https://discord.com/channels/@me/"@ + decimal(channel_id as nat) + "/"@
            + decimal(message_id as nat),
    }
}

/// Relies on serenity's `MessageId::link`: the address of a message from
/// its guild, channel and message ids.
#[verifier::external_body]
fn message_link(guild_id: Option<u64>, channel_id: u64, message_id: u64) -> (r: String)
    ensures
        r@ == message_link_text(guild_id, channel_id, message_id),
{
    serenity::model::id::MessageId(message_id).link(
        serenity::model::id::ChannelId(channel_id),
        guild_id.map(serenity::model::id::GuildId),
    )
}

/// Relies on chrono's `Utc::now`, rendered by `DateTime::to_rfc3339`: the
/// current time.
#[verifier::external_body]
fn now_rfc3339() -> (r: String) {
    chrono::Utc::now().to_rfc3339()
}

/// The author's avatar, or the default one when none is set.
pub open spec fn icon_of(author: Author) -> Seq<char> {
    match author.avatar_url {
        Some(u) => u@,
        None => author.default_avatar_url@,
    }
}

pub open spec fn footer_text(message_id: u64) -> Seq<char> {
    "Message ID: "@ + decimal(message_id as nat)
}

/// A reference to a channel, as the platform renders it.
pub open spec fn channel_mention(channel_id: u64) -> Seq<char> {
    "<#"@ + decimal(channel_id as nat) + ">"@
}

pub open spec fn delete_body(channel_id: u64, content: Seq<char>) -> Seq<char> {
    "**Message deleted in** "@ + channel_mention(channel_id) + "\n**Content**\n"@ + content
}

/// The text shown in place of an edited message's earlier content when that
/// was not cached.
pub open spec fn not_cached_text() -> Seq<char> {
    "*Message was not cached*"@
}

/// The content before an edit.
pub open spec fn edit_before(old_content: Option<String>) -> Seq<char> {
    match old_content {
        Some(s) => s@,
        None => not_cached_text(),
    }
}

/// The content after an edit: the edited message's, else the payload's;
/// with neither there is nothing to show.
pub open spec fn edit_after(new_content: Option<String>, raw_content: Option<String>) -> Option<
    Seq<char>,
> {
    match new_content {
        Some(s) => Some(s@),
        None => match raw_content {
            Some(s) => Some(s@),
            None => None,
        },
    }
}

pub open spec fn edit_body(
    guild_id: Option<u64>,
    channel_id: u64,
    message_id: u64,
    before: Seq<char>,
    after: Seq<char>,
) -> Seq<char> {
    "**Message edited in** "@ + channel_mention(channel_id) + " [View Message]("@
        + message_link_text(guild_id, channel_id, message_id) + ")\n**Before**\n"@ + before
        + "\n\n**After**\n"@ + after
}

/// The record of a deletion detected at `now`.
pub open spec fn delete_record(
    channel_id: u64,
    message_id: u64,
    message: CachedMessage,
    now: Seq<char>,
) -> LogRecordView {
    LogRecordView {
        color: DELETE_COLOR,
        author_name: message.author.name@,
        author_icon: icon_of(message.author),
        footer: footer_text(message_id),
        timestamp: now,
        body: delete_body(channel_id, message.content@),
    }
}

/// The record of an edit, if there is edited content to show; the edit time
/// is the payload's, else `now`.
pub open spec fn edit_record(
    guild_id: Option<u64>,
    channel_id: u64,
    message_id: u64,
    author: Author,
    old_content: Option<String>,
    new_content: Option<String>,
    raw_content: Option<String>,
    timestamp: Option<String>,
    now: Seq<char>,
) -> Option<LogRecordView> {
    match edit_after(new_content, raw_content) {
        None => None,
        Some(after) => Some(
            LogRecordView {
                color: EDIT_COLOR,
                author_name: author.name@,
                author_icon: icon_of(author),
                footer: footer_text(message_id),
                timestamp: match timestamp {
                    Some(t) => t@,
                    None => now,
                },
                body: edit_body(
                    guild_id,
                    channel_id,
                    message_id,
                    edit_before(old_content),
                    after,
                ),
            },
        ),
    }
}

/// The record of an event formatted at `now`, if the event can be shown: a
/// deletion needs its cached message, an edit its author and some content.
pub open spec fn event_record(event: ObservedEvent, now: Seq<char>) -> Option<LogRecordView> {
    match event {
        ObservedEvent::Deleted { channel_id, message_id, cached_message, .. } => match cached_message {
            Some(m) => Some(delete_record(channel_id, message_id, m, now)),
            None => None,
        },
        ObservedEvent::Edited {
            channel_id,
            message_id,
            guild_id,
            author,
            old_content,
            new_content,
            raw_content,
            timestamp,
        } => match author {
            Some(a) => edit_record(
                guild_id,
                channel_id,
                message_id,
                a,
                old_content,
                new_content,
                raw_content,
                timestamp,
                now,
            ),
            None => None,
        },
    }
}

fn author_icon(author: &Author) -> (r: String)
    ensures
        r@ == icon_of(*author),
{
    match &author.avatar_url {
        Some(u) => u.clone(),
        None => author.default_avatar_url.clone(),
    }
}

fn footer(message_id: u64) -> (r: String)
    ensures
        r@ == footer_text(message_id),
{
    let mut s = String::new();
    s.append("Message ID: ");
    push_decimal(&mut s, message_id);
    s
}

fn push_channel_mention(out: &mut String, channel_id: u64)
    ensures
        final(out)@ == old(out)@ + channel_mention(channel_id),
{
    out.append("<#");
    push_decimal(out, channel_id);
    out.append(">");
    assert(final(out)@ =~= old(out)@ + channel_mention(channel_id));
}

/// Renders a deletion detected at `now`.
pub fn format_delete_at(
    channel_id: u64,
    message_id: u64,
    message: &CachedMessage,
    now: String,
) -> (r: LogRecord)
    ensures
        r@ == delete_record(channel_id, message_id, *message, now@),
{
    let mut body = String::new();
    body.append("**Message deleted in** ");
    push_channel_mention(&mut body, channel_id);
    body.append("\n**Content**\n");
    body.append(message.content.as_str());
    assert(body@ =~= delete_body(channel_id, message.content@));
    LogRecord {
        color: DELETE_COLOR,
        author_name: message.author.name.clone(),
        author_icon: author_icon(&message.author),
        footer: footer(message_id),
        timestamp: now,
        body,
    }
}

/// Renders a deletion, stamped with the time of rendering.
pub fn format_delete(channel_id: u64, message_id: u64, message: &CachedMessage) -> (r: LogRecord)
    ensures
        r@ == delete_record(channel_id, message_id, *message, r.timestamp@),
{
    format_delete_at(channel_id, message_id, message, now_rfc3339())
}

/// Renders an edit; the edit time is the payload's, else `now`. Nothing is
/// rendered when neither the edited message nor the payload holds content.
pub fn format_edit_at(
    guild_id: Option<u64>,
    channel_id: u64,
    message_id: u64,
    author: &Author,
    old_content: &Option<String>,
    new_content: &Option<String>,
    raw_content: &Option<String>,
    timestamp: &Option<String>,
    now: String,
) -> (r: Option<LogRecord>)
    ensures
        r is Some == edit_record(
            guild_id,
            channel_id,
            message_id,
            *author,
            *old_content,
            *new_content,
            *raw_content,
            *timestamp,
            now@,
        ) is Some,
        r matches Some(rec) ==> Some(rec@) == edit_record(
            guild_id,
            channel_id,
            message_id,
            *author,
            *old_content,
            *new_content,
            *raw_content,
            *timestamp,
            now@,
        ),
{
    let after: &String = match new_content {
        Some(s) => s,
        None => match raw_content {
            Some(s) => s,
            None => {
                return None;
            },
        },
    };
    let mut body = String::new();
    body.append("**Message edited in** ");
    push_channel_mention(&mut body, channel_id);
    body.append(" [View Message](");
    let link = message_link(guild_id, channel_id, message_id);
    body.append(link.as_str());
    body.append(")\n**Before**\n");
    match old_content {
        Some(s) => body.append(s.as_str()),
        None => body.append("*Message was not cached*"),
    }
    body.append("\n\n**After**\n");
    body.append(after.as_str());
    assert(body@ =~= edit_body(
        guild_id,
        channel_id,
        message_id,
        edit_before(*old_content),
        after@,
    ));
    let stamp = match timestamp {
        Some(t) => t.clone(),
        None => now,
    };
    Some(
        LogRecord {
            color: EDIT_COLOR,
            author_name: author.name.clone(),
            author_icon: author_icon(author),
            footer: footer(message_id),
            timestamp: stamp,
            body,
        },
    )
}

/// Renders an event formatted at `now`, when it can be shown.
pub fn format_record_at(event: &ObservedEvent, now: String) -> (r: Option<LogRecord>)
    ensures
        r is Some == event_record(*event, now@) is Some,
        r matches Some(rec) ==> Some(rec@) == event_record(*event, now@),
{
    match event {
        ObservedEvent::Deleted { channel_id, message_id, cached_message, .. } => match cached_message {
            Some(m) => Some(format_delete_at(*channel_id, *message_id, m, now)),
            None => None,
        },
        ObservedEvent::Edited {
            channel_id,
            message_id,
            guild_id,
            author,
            old_content,
            new_content,
            raw_content,
            timestamp,
        } => match author {
            Some(a) => format_edit_at(
                *guild_id,
                *channel_id,
                *message_id,
                a,
                old_content,
                new_content,
                raw_content,
                timestamp,
                now,
            ),
            None => None,
        },
    }
}

/// Renders an event, stamped with the time of rendering where the event
/// carries no time of its own.
pub fn format_record(event: &ObservedEvent) -> (r: Option<LogRecord>)
    ensures
        r is Some == event_record(*event, Seq::empty()) is Some,
        r matches Some(rec) ==> Some(rec@) == event_record(*event, rec.timestamp@),
{
    let r = format_record_at(event, now_rfc3339());
    proof {
        lemma_event_record_defined_at_any_time(*event, Seq::empty(), r.unwrap().timestamp@);
    }
    r
}

/// The record of an event that passes the filter, rendered at `now`.
pub fn record_for_at(
    event: &ObservedEvent,
    binding: &GuildBinding,
    blacklist: &Blacklist,
    lookup: ChannelLookup,
    now: String,
) -> (r: Option<LogRecord>)
    ensures
        r is Some == (log_decision(*event, binding.guild, blacklist@, lookup) && event_record(
            *event,
            now@,
        ) is Some),
        r matches Some(rec) ==> Some(rec@) == event_record(*event, now@),
{
    if should_log(event, binding, blacklist, lookup) {
        format_record_at(event, now)
    } else {
        None
    }
}

/// The record of an event that passes the filter, stamped with the time of
/// rendering where the event carries no time of its own.
pub fn record_for(
    event: &ObservedEvent,
    binding: &GuildBinding,
    blacklist: &Blacklist,
    lookup: ChannelLookup,
) -> (r: Option<LogRecord>)
    ensures
        r is Some == (log_decision(*event, binding.guild, blacklist@, lookup) && event_record(
            *event,
            Seq::empty(),
        ) is Some),
        r matches Some(rec) ==> Some(rec@) == event_record(*event, rec.timestamp@),
{
    if should_log(event, binding, blacklist, lookup) {
        format_record(event)
    } else {
        None
    }
}

/// Whether an event can be shown does not depend on the time of rendering.
pub proof fn lemma_event_record_defined_at_any_time(
    event: ObservedEvent,
    t1: Seq<char>,
    t2: Seq<char>,
)
    ensures
        event_record(event, t1) is Some == event_record(event, t2) is Some,
{
}

/// Rendering the same deletion twice gives the same colour, author, footer
/// and body; only the time of rendering may differ.
pub proof fn lemma_deletion_rendering_repeatable(event: ObservedEvent, t1: Seq<char>, t2: Seq<char>)
    requires
        event is Deleted,
    ensures
        event_record(event, t1) is Some == event_record(event, t2) is Some,
        event_record(event, t1) matches Some(r1) ==> {
            let r2 = event_record(event, t2)->Some_0;
            r1.color == r2.color && r1.author_name == r2.author_name && r1.author_icon
                == r2.author_icon && r1.footer == r2.footer && r1.body == r2.body
        },
{
}

} // verus!
