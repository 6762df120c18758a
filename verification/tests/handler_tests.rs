use rina::handlers::{
    enqueue_playlist, enqueue_track, help_reply, join_failed, join_request, join_succeeded,
    leave_event_channel, leave_failed, leave_request, leave_succeeded, mute_failed, mute_request,
    mute_succeeded, now_reply, play_join_failed, play_request, playlist_failed, queue_reply,
    should_auto_leave, skip_apply, skip_failed, skip_request, stop_apply, stop_request,
    unmute_request, unmute_succeeded, GuardDecision, JoinDecision, PlayDecision, PlaySource,
    SkipDecision,
};
use rina::playlist::Metadata;
use rina::session::Sessions;

const GUILD: u64 = 11;
const CHANNEL: u64 = 42;

fn joined() -> Sessions {
    let mut s = Sessions::new();
    let _ = join_succeeded(&mut s, GUILD, CHANNEL);
    s
}

fn with_queue(titles: &[&str]) -> Sessions {
    let mut s = joined();
    for t in titles {
        enqueue_track(&mut s, GUILD, Some(String::from(*t)));
    }
    s
}

#[test]
fn help_lists_every_command() {
    let e = help_reply();
    assert!(!e.error);
    assert_eq!(e.title.as_deref(), Some("!help"));
    assert_eq!(e.description.as_deref(), Some("Available commands"));
    assert_eq!(e.fields.len(), 9);
    assert_eq!(e.fields[0].name, "!help");
    assert_eq!(e.fields[1].name, "!join");
    assert_eq!(e.fields[8].name, "!now");
    assert_eq!(e.fields[8].value, "Show playing track title");
}

#[test]
fn join_needs_the_author_in_a_channel() {
    let s = Sessions::new();
    match join_request(&s, GUILD, None) {
        JoinDecision::Reject(e) => {
            assert!(e.error);
            assert_eq!(e.title.as_deref(), Some("!join"));
            assert_eq!(e.description.as_deref(), Some("User not in a voice channel"));
        },
        other => panic!("unexpected decision: {other:?}"),
    }
}

#[test]
fn join_attempts_the_authors_channel() {
    let s = Sessions::new();
    match join_request(&s, GUILD, Some(CHANNEL)) {
        JoinDecision::Attempt { channel } => assert_eq!(channel, CHANNEL),
        other => panic!("unexpected decision: {other:?}"),
    }
}

#[test]
fn join_refuses_a_second_session() {
    let s = joined();
    match join_request(&s, GUILD, Some(CHANNEL)) {
        JoinDecision::Reject(e) => {
            assert!(e.error);
            assert_eq!(e.description.as_deref(), Some("I'm already in another voice channel"));
        },
        other => panic!("unexpected decision: {other:?}"),
    }
}

#[test]
fn join_success_registers_and_mentions_the_channel() {
    let mut s = Sessions::new();
    let e = join_succeeded(&mut s, GUILD, CHANNEL);
    assert!(s.has(GUILD));
    assert_eq!(s.channel_of(GUILD), CHANNEL);
    assert!(!s.is_muted(GUILD));
    assert_eq!(s.queue_len(GUILD), 0);
    assert!(!e.error);
    assert_eq!(e.description.as_deref(), Some("Joined <#42>"));
}

#[test]
fn join_failure_mentions_the_channel() {
    let e = join_failed(7);
    assert!(e.error);
    assert_eq!(e.title.as_deref(), Some("!join"));
    assert_eq!(e.description.as_deref(), Some("Could not join the voice channel <#7>"));
}

#[test]
fn leave_needs_a_session() {
    let s = Sessions::new();
    match leave_request(&s, GUILD, Some(CHANNEL)) {
        GuardDecision::Reject(e) => {
            assert!(e.error);
            assert_eq!(e.title.as_deref(), Some("!leave"));
            assert_eq!(e.description.as_deref(), Some("User not in a voice channel"));
        },
        other => panic!("unexpected decision: {other:?}"),
    }
}

#[test]
fn leave_needs_the_same_channel() {
    let s = joined();
    match leave_request(&s, GUILD, Some(CHANNEL + 1)) {
        GuardDecision::Reject(e) => {
            assert_eq!(e.description.as_deref(), Some("User not in the same voice channel"));
        },
        other => panic!("unexpected decision: {other:?}"),
    }
    match leave_request(&s, GUILD, None) {
        GuardDecision::Reject(e) => {
            assert_eq!(e.description.as_deref(), Some("User not in the same voice channel"));
        },
        other => panic!("unexpected decision: {other:?}"),
    }
}

#[test]
fn leave_success_removes_the_session() {
    let mut s = joined();
    assert!(matches!(leave_request(&s, GUILD, Some(CHANNEL)), GuardDecision::Attempt));
    let e = leave_succeeded(&mut s, GUILD, CHANNEL);
    assert!(!s.has(GUILD));
    assert!(!e.error);
    assert_eq!(e.description.as_deref(), Some("Left voice channel <#42>"));
}

#[test]
fn leave_failure_reply() {
    let e = leave_failed();
    assert!(e.error);
    assert_eq!(e.description.as_deref(), Some("Failed leaving voice channel"));
}

#[test]
fn mute_flow() {
    let mut s = joined();
    assert!(matches!(mute_request(&s, GUILD, Some(CHANNEL)), GuardDecision::Attempt));
    let e = mute_succeeded(&mut s, GUILD);
    assert!(s.is_muted(GUILD));
    assert!(!e.error);
    assert_eq!(e.description.as_deref(), Some("I'm now muted. Use `!unmute` to unmute me"));
    match mute_request(&s, GUILD, Some(CHANNEL)) {
        GuardDecision::Reject(e) => {
            assert!(!e.error);
            assert_eq!(e.description.as_deref(), Some("I'm already muted. Use `!unmute` to unmute me"));
        },
        other => panic!("unexpected decision: {other:?}"),
    }
}

#[test]
fn mute_failure_reply() {
    let e = mute_failed();
    assert!(e.error);
    assert_eq!(e.description.as_deref(), Some("Could not mute myself"));
}

#[test]
fn unmute_flow() {
    let mut s = joined();
    let _ = mute_succeeded(&mut s, GUILD);
    assert!(matches!(unmute_request(&s, GUILD, Some(CHANNEL)), GuardDecision::Attempt));
    let e = unmute_succeeded(&mut s, GUILD);
    assert!(!s.is_muted(GUILD));
    assert_eq!(e.description.as_deref(), Some("I'm now unmuted. Use `!mute` to mute me"));
}

#[test]
fn play_needs_author_and_argument() {
    let s = Sessions::new();
    match play_request(&s, GUILD, None, Some(String::from("x"))) {
        PlayDecision::Reject(e) => {
            assert_eq!(e.description.as_deref(), Some("User not in a voice channel"));
        },
        other => panic!("unexpected decision: {other:?}"),
    }
    match play_request(&s, GUILD, Some(CHANNEL), None) {
        PlayDecision::Reject(e) => {
            assert!(e.error);
            assert_eq!(e.title.as_deref(), Some("!play"));
            assert_eq!(e.description.as_deref(), Some("Missing music or URL argument"));
        },
        other => panic!("unexpected decision: {other:?}"),
    }
}

#[test]
fn play_joins_first_without_a_session() {
    let s = Sessions::new();
    match play_request(&s, GUILD, Some(CHANNEL), Some(String::from("despacito"))) {
        PlayDecision::JoinThen { channel, source } => {
            assert_eq!(channel, CHANNEL);
            match source {
                PlaySource::Search { query } => assert_eq!(query, "despacito"),
                other => panic!("unexpected source: {other:?}"),
            }
        },
        other => panic!("unexpected decision: {other:?}"),
    }
}

#[test]
fn play_classifies_urls_and_playlists() {
    let s = joined();
    match play_request(&s, GUILD, Some(CHANNEL), Some(String::from("https://h/v?a=1&list=xyz"))) {
        PlayDecision::Enqueue { source: PlaySource::Playlist { url } } => {
            assert_eq!(url, "https://h/v?a=1&list=xyz");
        },
        other => panic!("unexpected decision: {other:?}"),
    }
    match play_request(&s, GUILD, Some(CHANNEL), Some(String::from("https://h/v?a=1"))) {
        PlayDecision::Enqueue { source: PlaySource::Url { url } } => {
            assert_eq!(url, "https://h/v?a=1");
        },
        other => panic!("unexpected decision: {other:?}"),
    }
    match play_request(&s, GUILD, Some(CHANNEL), Some(String::from("never"))) {
        PlayDecision::Enqueue { source: PlaySource::Search { query } } => {
            assert_eq!(query, "never");
        },
        other => panic!("unexpected decision: {other:?}"),
    }
}

#[test]
fn play_checks_the_channel_with_a_session() {
    let s = joined();
    match play_request(&s, GUILD, Some(CHANNEL + 1), Some(String::from("x"))) {
        PlayDecision::Reject(e) => {
            assert_eq!(e.description.as_deref(), Some("User not in the same voice channel"));
        },
        other => panic!("unexpected decision: {other:?}"),
    }
}

#[test]
fn play_join_failure_mentions_the_channel() {
    let e = play_join_failed(9);
    assert!(e.error);
    assert_eq!(e.title.as_deref(), Some("!play"));
    assert_eq!(e.description.as_deref(), Some("Could not join voice channel <#9>"));
}

#[test]
fn playlist_failure_reply() {
    let e = playlist_failed();
    assert!(e.error);
    assert_eq!(e.description.as_deref(), Some("Could not load track from playlist"));
}

#[test]
fn playlist_enqueues_in_order_and_counts() {
    let mut s = joined();
    let items = vec![
        Metadata { url: String::from("u1"), title: String::from("One") },
        Metadata { url: String::from("u2"), title: String::from("Two") },
        Metadata { url: String::from("u3"), title: String::from("Three") },
    ];
    let e = enqueue_playlist(&mut s, GUILD, items);
    assert!(!e.error);
    assert_eq!(e.title.as_deref(), Some("!play"));
    assert_eq!(e.description.as_deref(), Some("3 tracks added to the queue"));
    let titles = s.queue_titles(GUILD);
    assert_eq!(titles, vec!["One", "Two", "Three"]);
}

#[test]
fn untitled_tracks_are_unknown() {
    let mut s = joined();
    enqueue_track(&mut s, GUILD, None);
    enqueue_track(&mut s, GUILD, Some(String::from("Named")));
    assert_eq!(s.queue_titles(GUILD), vec!["Unknown", "Named"]);
}

#[test]
fn skip_guards_come_first() {
    let s = Sessions::new();
    match skip_request(&s, GUILD, Some(CHANNEL), &None) {
        SkipDecision::Reject(e) => {
            assert_eq!(e.title.as_deref(), Some("!skip"));
            assert_eq!(e.description.as_deref(), Some("User not in a voice channel"));
        },
        other => panic!("unexpected decision: {other:?}"),
    }
}

#[test]
fn skip_refuses_an_empty_queue() {
    let s = joined();
    match skip_request(&s, GUILD, Some(CHANNEL), &None) {
        SkipDecision::Reject(e) => {
            assert!(e.error);
            assert_eq!(e.description.as_deref(), Some("Queue is already empty. No tracks to skip"));
        },
        other => panic!("unexpected decision: {other:?}"),
    }
}

#[test]
fn skip_amount_defaults_to_one() {
    let s = with_queue(&["A", "B"]);
    match skip_request(&s, GUILD, Some(CHANNEL), &None) {
        SkipDecision::Attempt { amount } => assert_eq!(amount, 1),
        other => panic!("unexpected decision: {other:?}"),
    }
    match skip_request(&s, GUILD, Some(CHANNEL), &Some(String::from("2"))) {
        SkipDecision::Attempt { amount } => assert_eq!(amount, 2),
        other => panic!("unexpected decision: {other:?}"),
    }
}

#[test]
fn skip_amount_must_be_a_positive_number() {
    let s = with_queue(&["A", "B"]);
    for bad in ["x", "1.5", "-1", "0"] {
        match skip_request(&s, GUILD, Some(CHANNEL), &Some(String::from(bad))) {
            SkipDecision::Reject(e) => {
                assert!(e.error);
                assert_eq!(
                    e.description.as_deref(),
                    Some("Amount of tracks to skip must be a positive integer"),
                );
            },
            other => panic!("unexpected decision for {bad}: {other:?}"),
        }
    }
}

#[test]
fn skip_amount_is_capped_at_twenty() {
    let s = with_queue(&["A", "B"]);
    match skip_request(&s, GUILD, Some(CHANNEL), &Some(String::from("21"))) {
        SkipDecision::Reject(e) => {
            assert_eq!(e.description.as_deref(), Some("Cannot skip more than 20 tracks at once"));
        },
        other => panic!("unexpected decision: {other:?}"),
    }
    match skip_request(&s, GUILD, Some(CHANNEL), &Some(String::from("20"))) {
        SkipDecision::Attempt { amount } => assert_eq!(amount, 20),
        other => panic!("unexpected decision: {other:?}"),
    }
}

#[test]
fn skipping_one_announces_the_current_track() {
    let mut s = with_queue(&["A", "B", "C"]);
    let e = skip_apply(&mut s, GUILD, 1);
    assert!(!e.error);
    assert_eq!(e.description.as_deref(), Some("Current track A skipped"));
    assert_eq!(s.queue_titles(GUILD), vec!["B", "C"]);
}

#[test]
fn skipping_many_lists_the_rest() {
    let mut s = with_queue(&["A", "B", "C", "D", "E"]);
    let e = skip_apply(&mut s, GUILD, 3);
    assert!(!e.error);
    assert_eq!(e.description.as_deref(), Some("Skipped following tracks:\n0. B\n1. C\n"));
    assert_eq!(s.queue_titles(GUILD), vec!["D", "E"]);
}

#[test]
fn skipping_more_than_the_queue_empties_it() {
    let mut s = with_queue(&["A", "B"]);
    let e = skip_apply(&mut s, GUILD, 5);
    assert_eq!(e.description.as_deref(), Some("Skipped following tracks:\n0. B\n"));
    assert_eq!(s.queue_len(GUILD), 0);
}

#[test]
fn skip_failure_reply() {
    let e = skip_failed();
    assert!(e.error);
    assert_eq!(e.description.as_deref(), Some("Could not skip current track"));
}

#[test]
fn stop_clears_the_queue() {
    let mut s = with_queue(&["A", "B"]);
    assert!(matches!(stop_request(&s, GUILD, Some(CHANNEL)), GuardDecision::Attempt));
    stop_apply(&mut s, GUILD);
    assert_eq!(s.queue_len(GUILD), 0);
    assert!(s.has(GUILD));
}

#[test]
fn queue_reply_when_empty() {
    let s = joined();
    let e = queue_reply(&s, GUILD, Some(CHANNEL));
    assert!(!e.error);
    assert_eq!(e.title.as_deref(), Some("!queue"));
    assert_eq!(e.description.as_deref(), Some("Queue is curently empty"));
}

#[test]
fn queue_reply_lists_the_tracks() {
    let s = with_queue(&["A", "B", "C"]);
    let e = queue_reply(&s, GUILD, Some(CHANNEL));
    assert!(!e.error);
    assert_eq!(
        e.description.as_deref(),
        Some("Now playing: **A**\n\nTotal tracks in queue: **2**\n\n0. B\n1. C\n"),
    );
}

#[test]
fn queue_reply_lists_at_most_fifty_tracks() {
    let mut s = joined();
    for i in 0..53u32 {
        enqueue_track(&mut s, GUILD, Some(format!("T{i}")));
    }
    let e = queue_reply(&s, GUILD, Some(CHANNEL));
    let d = e.description.unwrap();
    assert!(d.starts_with("Now playing: **T0**\n\nTotal tracks in queue: **52**\n\n0. T1\n"));
    assert!(d.contains("\n49. T50\n"));
    assert!(!d.contains("T51"));
    assert!(d.ends_with("49. T50\n"));
}

#[test]
fn queue_reply_checks_the_guard() {
    let s = with_queue(&["A"]);
    let e = queue_reply(&s, GUILD, None);
    assert!(e.error);
    assert_eq!(e.description.as_deref(), Some("User not in the same voice channel"));
}

#[test]
fn now_reply_names_the_front_track() {
    let s = with_queue(&["A", "B"]);
    let e = now_reply(&s, GUILD, Some(CHANNEL));
    assert!(!e.error);
    assert_eq!(e.title.as_deref(), Some("!now"));
    assert_eq!(e.description.as_deref(), Some("Now playing A"));
}

#[test]
fn now_reply_when_idle() {
    let s = joined();
    let e = now_reply(&s, GUILD, Some(CHANNEL));
    assert!(!e.error);
    assert_eq!(e.description.as_deref(), Some("Not currently playing a track"));
}

#[test]
fn only_a_disconnect_is_a_leave_event() {
    assert_eq!(leave_event_channel(Some(5), None), Some(5));
    assert_eq!(leave_event_channel(Some(5), Some(6)), None);
    assert_eq!(leave_event_channel(None, Some(6)), None);
    assert_eq!(leave_event_channel(None, None), None);
}

#[test]
fn auto_leave_when_alone_in_a_voice_channel() {
    assert!(should_auto_leave(true, 0));
    assert!(should_auto_leave(true, 1));
    assert!(!should_auto_leave(true, 2));
    assert!(!should_auto_leave(false, 1));
}
