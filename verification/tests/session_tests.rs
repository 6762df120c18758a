use rina::session::{Sessions, Track};

#[test]
fn a_fresh_registry_is_empty() {
    let s = Sessions::new();
    assert!(!s.has(1));
}

#[test]
fn one_session_per_guild() {
    let mut s = Sessions::new();
    s.insert(1, 10);
    s.insert(2, 20);
    assert!(s.has(1));
    assert!(s.has(2));
    assert!(!s.has(3));
    assert_eq!(s.channel_of(1), 10);
    assert_eq!(s.channel_of(2), 20);
    s.remove(1);
    assert!(!s.has(1));
    assert!(s.has(2));
    assert_eq!(s.channel_of(2), 20);
}

#[test]
fn muting_touches_only_its_guild() {
    let mut s = Sessions::new();
    s.insert(1, 10);
    s.insert(2, 20);
    s.set_muted(1, true);
    assert!(s.is_muted(1));
    assert!(!s.is_muted(2));
    s.set_muted(1, false);
    assert!(!s.is_muted(1));
}

#[test]
fn queue_keeps_insertion_order() {
    let mut s = Sessions::new();
    s.insert(1, 10);
    s.push_track(1, Track { title: String::from("A") });
    s.push_track(1, Track { title: String::from("B") });
    s.push_track(1, Track { title: String::from("C") });
    assert_eq!(s.queue_len(1), 3);
    assert_eq!(s.queue_titles(1), vec!["A", "B", "C"]);
}

#[test]
fn dropping_from_the_front() {
    let mut s = Sessions::new();
    s.insert(1, 10);
    for t in ["A", "B", "C"] {
        s.push_track(1, Track { title: String::from(t) });
    }
    let removed = s.drop_front(1, 2);
    let titles: Vec<String> = removed.into_iter().map(|t| t.title).collect();
    assert_eq!(titles, vec!["A", "B"]);
    assert_eq!(s.queue_titles(1), vec!["C"]);
    let removed = s.drop_front(1, 9);
    assert_eq!(removed.len(), 1);
    assert_eq!(s.queue_len(1), 0);
}

#[test]
fn clearing_the_queue_keeps_the_session() {
    let mut s = Sessions::new();
    s.insert(1, 10);
    s.push_track(1, Track { title: String::from("A") });
    s.clear_queue(1);
    assert_eq!(s.queue_len(1), 0);
    assert!(s.has(1));
    assert_eq!(s.channel_of(1), 10);
}

#[test]
fn keeping_the_last_tracks_drops_played_ones() {
    let mut s = Sessions::new();
    s.insert(1, 10);
    for t in ["A", "B", "C", "D"] {
        s.push_track(1, Track { title: String::from(t) });
    }
    s.keep_last(1, 2);
    assert_eq!(s.queue_titles(1), vec!["C", "D"]);
    s.keep_last(1, 5);
    assert_eq!(s.queue_titles(1), vec!["C", "D"]);
    s.keep_last(1, 0);
    assert_eq!(s.queue_len(1), 0);
    assert!(s.has(1));
}
