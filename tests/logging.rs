use modlog::blacklist::{chars_of, parse_segment, parse_unsigned, Blacklist, ConfigError};
use modlog::config::{Settings, StartupError};
use modlog::event::{Author, CachedMessage, ChannelLookup, ObservedEvent};
use modlog::filter::{channel_blacklisted, needs_lookup, should_log};
use modlog::guild::GuildBinding;
use modlog::record::{
    format_delete, format_delete_at, format_edit_at, format_record, format_record_at, record_for,
    record_for_at, LogRecord, DELETE_COLOR, EDIT_COLOR,
};
use modlog::text::{push_decimal, white_space};

const GUILD: u64 = 1000;

fn author(name: &str, bot: bool) -> Author {
    Author {
        name: name.to_string(),
        bot,
        avatar_url: None,
        default_avatar_url: "https://cdn.example/default.png".to_string(),
    }
}

fn cached(name: &str, bot: bool, content: &str) -> CachedMessage {
    CachedMessage { author: author(name, bot), content: content.to_string() }
}

fn deleted(channel: u64, guild: Option<u64>, msg: Option<CachedMessage>) -> ObservedEvent {
    ObservedEvent::Deleted { channel_id: channel, message_id: 77, guild_id: guild, cached_message: msg }
}

fn edited(
    channel: u64,
    guild: Option<u64>,
    a: Option<Author>,
    old: Option<&str>,
    new: Option<&str>,
    raw: Option<&str>,
    ts: Option<&str>,
) -> ObservedEvent {
    ObservedEvent::Edited {
        channel_id: channel,
        message_id: 88,
        guild_id: guild,
        author: a,
        old_content: old.map(|s| s.to_string()),
        new_content: new.map(|s| s.to_string()),
        raw_content: raw.map(|s| s.to_string()),
        timestamp: ts.map(|s| s.to_string()),
    }
}

fn bound() -> GuildBinding {
    let mut b = GuildBinding::new();
    b.bind(GUILD);
    b
}

fn list(ids: &[u64]) -> Blacklist {
    Blacklist::from_ids(ids.to_vec())
}

#[test]
fn blacklist_parses_trimmed_segments() {
    let b = Blacklist::parse(" 12 , 34,+56\t").unwrap();
    assert!(b.contains(12));
    assert!(b.contains(34));
    assert!(b.contains(56));
    assert!(!b.contains(7));
}

#[test]
fn blacklist_malformed_segment_aborts() {
    let r = Blacklist::parse("12, abc");
    assert_eq!(r.unwrap_err(), ConfigError::InvalidId { segment: 1 });
}

#[test]
fn blacklist_reports_first_bad_segment() {
    assert_eq!(Blacklist::parse("x,1,y").unwrap_err(), ConfigError::InvalidId { segment: 0 });
    assert_eq!(Blacklist::parse("1,2,").unwrap_err(), ConfigError::InvalidId { segment: 2 });
    assert_eq!(Blacklist::parse("").unwrap_err(), ConfigError::InvalidId { segment: 0 });
}

#[test]
fn blacklist_absent_config_is_empty() {
    let b = Blacklist::from_config(None).unwrap();
    assert!(!b.contains(0));
    assert!(!b.contains(12));
    let e = Blacklist::empty();
    assert!(!e.contains(u64::MAX));
}

#[test]
fn blacklist_largest_id() {
    let b = Blacklist::from_config(Some("18446744073709551615")).unwrap();
    assert!(b.contains(u64::MAX));
    assert_eq!(
        Blacklist::parse("18446744073709551616").unwrap_err(),
        ConfigError::InvalidId { segment: 0 }
    );
}

#[test]
fn segment_parsing() {
    assert_eq!(parse_segment(&chars_of("  42  ")), Some(42));
    assert_eq!(parse_segment(&chars_of("+")), None);
    assert_eq!(parse_segment(&chars_of("-1")), None);
    assert_eq!(parse_segment(&chars_of("4 2")), None);
    assert_eq!(parse_segment(&chars_of("\u{3000}9\u{a0}")), Some(9));
    assert_eq!(parse_unsigned(" 5"), None);
    assert_eq!(parse_unsigned("0005"), Some(5));
    assert!(white_space('\n'));
    assert!(!white_space('x'));
}

#[test]
fn decimal_rendering() {
    let mut s = String::from("#");
    push_decimal(&mut s, 0);
    assert_eq!(s, "#0");
    let mut t = String::new();
    push_decimal(&mut t, 1234567890123);
    assert_eq!(t, "1234567890123");
    let mut u = String::new();
    push_decimal(&mut u, u64::MAX);
    assert_eq!(u, "18446744073709551615");
}

#[test]
fn guild_binding_set_once() {
    let mut b = GuildBinding::new();
    assert_eq!(b.current(), None);
    b.bind(5);
    assert_eq!(b.current(), Some(5));
}

#[test]
fn bot_author_never_logged() {
    let e = deleted(1, Some(GUILD), Some(cached("robo", true, "hi")));
    assert!(!should_log(&e, &bound(), &list(&[]), ChannelLookup::NoParent));
    let e = edited(1, Some(GUILD), Some(author("robo", true)), None, Some("x"), None, None);
    assert!(!should_log(&e, &bound(), &list(&[]), ChannelLookup::Failed));
}

#[test]
fn missing_or_foreign_guild_never_logged() {
    let e = deleted(1, None, Some(cached("ann", false, "hi")));
    assert!(!should_log(&e, &bound(), &list(&[]), ChannelLookup::NoParent));
    let e = deleted(1, Some(GUILD + 1), Some(cached("ann", false, "hi")));
    assert!(!should_log(&e, &bound(), &list(&[]), ChannelLookup::NoParent));
    let e = deleted(1, Some(GUILD), Some(cached("ann", false, "hi")));
    assert!(!should_log(&e, &GuildBinding::new(), &list(&[]), ChannelLookup::NoParent));
}

#[test]
fn blacklisted_channel_never_logged() {
    let e = deleted(12, Some(GUILD), Some(cached("ann", false, "hi")));
    let b = list(&[12]);
    assert!(!should_log(&e, &bound(), &b, ChannelLookup::NoParent));
    assert!(!should_log(&e, &bound(), &b, ChannelLookup::Failed));
    assert!(!should_log(&e, &bound(), &b, ChannelLookup::Parent(99)));
}

#[test]
fn blacklisted_category_never_logged() {
    let e = edited(5, Some(GUILD), Some(author("ann", false)), None, Some("x"), None, None);
    assert!(!should_log(&e, &bound(), &list(&[40]), ChannelLookup::Parent(40)));
    assert!(should_log(&e, &bound(), &list(&[40]), ChannelLookup::Parent(41)));
    assert!(channel_blacklisted(&list(&[40]), 5, ChannelLookup::Parent(40)));
    assert!(!channel_blacklisted(&list(&[40]), 5, ChannelLookup::Failed));
}

#[test]
fn failed_lookup_still_logged() {
    let e = deleted(5, Some(GUILD), Some(cached("ann", false, "hi")));
    assert!(should_log(&e, &bound(), &list(&[40]), ChannelLookup::Failed));
}

#[test]
fn uncached_deletion_never_logged() {
    let e = deleted(5, Some(GUILD), None);
    assert!(!should_log(&e, &bound(), &list(&[]), ChannelLookup::NoParent));
    assert!(format_record(&e).is_none());
    assert!(record_for(&e, &bound(), &list(&[]), ChannelLookup::NoParent).is_none());
}

#[test]
fn edit_without_author_never_logged() {
    let e = edited(5, Some(GUILD), None, None, Some("x"), None, None);
    assert!(!should_log(&e, &bound(), &list(&[]), ChannelLookup::NoParent));
}

#[test]
fn cached_deletion_is_logged_with_content() {
    let msg = cached("ann", false, "the original text");
    let e = deleted(42, Some(GUILD), Some(msg.clone()));
    assert!(should_log(&e, &bound(), &list(&[]), ChannelLookup::NoParent));
    let r = record_for_at(&e, &bound(), &list(&[]), ChannelLookup::NoParent, "T".to_string())
        .unwrap();
    assert!(r.body.contains("<#42>"));
    assert!(r.body.contains("the original text"));
    assert_eq!(r.body, "**Message deleted in** <#42>\n**Content**\nthe original text");
    assert_eq!(r.color, DELETE_COLOR);
    assert_eq!(r.color, 0xFF3300);
    assert_eq!(r.author_name, "ann");
    assert_eq!(r.author_icon, "https://cdn.example/default.png");
    assert_eq!(r.footer, "Message ID: 77");
    assert_eq!(r.timestamp, "T");
}

#[test]
fn deletion_formatting_repeatable() {
    let msg = cached("ann", false, "same");
    let a = format_delete(3, 4, &msg);
    let b = format_delete(3, 4, &msg);
    assert_eq!(a.body, b.body);
    assert_eq!(a.author_name, b.author_name);
    assert_eq!(a.author_icon, b.author_icon);
    assert_eq!(a.footer, b.footer);
    assert_eq!(a.color, b.color);
    assert!(!a.timestamp.is_empty());
}

#[test]
fn deletion_uses_own_avatar_when_set() {
    let mut msg = cached("ann", false, "x");
    msg.author.avatar_url = Some("https://cdn.example/ann.png".to_string());
    let r = format_delete_at(1, 2, &msg, "now".to_string());
    assert_eq!(r.author_icon, "https://cdn.example/ann.png");
    assert_eq!(r.footer, "Message ID: 2");
}

#[test]
fn edit_of_uncached_message_uses_placeholder() {
    let a = author("ann", false);
    let r = format_edit_at(
        Some(1),
        2,
        3,
        &a,
        &None,
        &Some("new words".to_string()),
        &None,
        &Some("2023-11-03T10:00:00+00:00".to_string()),
        "now".to_string(),
    )
    .unwrap();
    assert_eq!(
        r.body,
        "**Message edited in** <#2> [View Message](https://discord.com/channels/1/2/3)\n**Before**\n*Message was not cached*\n\n**After**\nnew words"
    );
    assert_eq!(r.timestamp, "2023-11-03T10:00:00+00:00");
    assert_eq!(r.color, EDIT_COLOR);
    assert_eq!(r.color, 0x1F6FEB);
    assert_eq!(r.footer, "Message ID: 3");
}

#[test]
fn edit_falls_back_to_payload_content_and_now() {
    let e = edited(9, Some(GUILD), Some(author("ann", false)), Some("before"), None, Some("raw after"), None);
    let r = format_record_at(&e, "NOW".to_string()).unwrap();
    assert_eq!(
        r.body,
        "**Message edited in** <#9> [View Message](https://discord.com/channels/1000/9/88)\n**Before**\nbefore\n\n**After**\nraw after"
    );
    assert_eq!(r.timestamp, "NOW");
}

#[test]
fn edit_without_any_content_not_logged() {
    let e = edited(9, Some(GUILD), Some(author("ann", false)), Some("before"), None, None, None);
    assert!(should_log(&e, &bound(), &list(&[]), ChannelLookup::NoParent));
    assert!(format_record_at(&e, "NOW".to_string()).is_none());
    assert!(record_for(&e, &bound(), &list(&[]), ChannelLookup::NoParent).is_none());
}

#[test]
fn edit_link_without_guild() {
    let a = author("ann", false);
    let r: LogRecord =
        format_edit_at(None, 2, 3, &a, &Some("o".to_string()), &Some("n".to_string()), &None, &None, "t".to_string())
            .unwrap();
    assert!(r.body.contains("(https://discord.com/channels/@me/2/3)"));
}

#[test]
fn parent_blacklisted_deletion_suppressed() {
    let e = deleted(5, Some(GUILD), Some(cached("ann", false, "hi")));
    let b = list(&[500]);
    assert!(!b.contains(5));
    assert!(!should_log(&e, &bound(), &b, ChannelLookup::Parent(500)));
    assert!(record_for(&e, &bound(), &b, ChannelLookup::Parent(500)).is_none());
}

#[test]
fn settings_from_values() {
    let s = Settings::from_values(
        Some("SECRET".to_string()),
        Some("123".to_string()),
        Some("4, 5".to_string()),
    )
    .unwrap();
    assert_eq!(s.token, "SECRET");
    assert_eq!(s.log_channel, 123);
    assert!(s.blacklist.contains(4) && s.blacklist.contains(5));
    let s = Settings::from_values(Some("t".to_string()), Some("123".to_string()), None).unwrap();
    assert!(!s.blacklist.contains(4));
}

#[test]
fn settings_errors() {
    assert_eq!(
        Settings::from_values(None, Some("1".to_string()), None).unwrap_err(),
        StartupError::MissingToken
    );
    assert_eq!(
        Settings::from_values(Some("t".to_string()), None, None).unwrap_err(),
        StartupError::MissingLogChannel
    );
    assert_eq!(
        Settings::from_values(Some("t".to_string()), Some("chan".to_string()), None).unwrap_err(),
        StartupError::InvalidLogChannel
    );
    assert_eq!(
        Settings::from_values(Some("t".to_string()), Some("1".to_string()), Some("12, abc".to_string()))
            .unwrap_err(),
        StartupError::Blacklist(ConfigError::InvalidId { segment: 1 })
    );
}

#[test]
fn lookup_needed_only_for_candidates() {
    let e = deleted(5, Some(GUILD), Some(cached("ann", false, "hi")));
    assert!(needs_lookup(&e, &bound(), &list(&[])));
    assert!(!needs_lookup(&e, &bound(), &list(&[5])));
    assert!(!needs_lookup(&e, &GuildBinding::new(), &list(&[])));
    let b = deleted(5, Some(GUILD), Some(cached("robo", true, "hi")));
    assert!(!needs_lookup(&b, &bound(), &list(&[])));
}
