use libplen::constants::{DELTA_TIME, KILLFEED_DURATION, KILLFEED_VISIBLE};
use libplen::killfeed::{KillFeed, Message};

#[test]
fn new_feed_is_empty() {
    let feed = KillFeed::new();
    assert!(feed.messages.is_empty());
    assert!(feed.get_messages().is_empty());
}

#[test]
fn new_message_lives_for_the_configured_time() {
    let message = Message::new("A killed B using a Gun.".to_string());
    assert_eq!(message.message, "A killed B using a Gun.");
    assert_eq!(message.duration_left, Some(KILLFEED_DURATION));
    assert_eq!(KILLFEED_DURATION, 4_000_000);
}

#[test]
fn add_message_appends_at_the_end() {
    let mut feed = KillFeed::new();
    feed.add_message("first");
    feed.add_message("second");
    assert_eq!(feed.messages.len(), 2);
    assert_eq!(feed.messages[0].message, "first");
    assert_eq!(feed.messages[1].message, "second");
    assert_eq!(feed.messages[1].duration_left, Some(4_000_000));
}

#[test]
fn message_is_gone_exactly_when_its_time_is_up() {
    let mut feed = KillFeed::new();
    feed.add_message("short-lived");
    for tick in 1..400 {
        feed.manage_killfeed(DELTA_TIME);
        assert_eq!(feed.messages.len(), 1, "tick {}", tick);
        assert_eq!(
            feed.messages[0].duration_left,
            Some(KILLFEED_DURATION - tick * DELTA_TIME as i64)
        );
    }
    feed.manage_killfeed(DELTA_TIME);
    assert!(feed.messages.is_empty());
}

#[test]
fn message_without_a_limit_stays() {
    let mut feed = KillFeed::new();
    feed.messages.push(Message { message: "for ever".to_string(), duration_left: None });
    feed.add_message("for a while");
    for _ in 0..100 {
        feed.manage_killfeed(u16::MAX);
    }
    assert_eq!(feed.messages.len(), 1);
    assert_eq!(feed.messages[0].message, "for ever");
    assert_eq!(feed.messages[0].duration_left, None);
}

#[test]
fn ageing_in_two_steps_is_ageing_by_the_sum() {
    let mut once = KillFeed::new();
    let mut twice = KillFeed::new();
    for feed in [&mut once, &mut twice] {
        feed.messages.push(Message { message: "a".to_string(), duration_left: Some(30_000) });
        feed.messages.push(Message { message: "b".to_string(), duration_left: Some(20_000) });
        feed.messages.push(Message { message: "c".to_string(), duration_left: Some(10_000) });
        feed.messages.push(Message { message: "d".to_string(), duration_left: None });
    }
    once.manage_killfeed(20_000);
    twice.manage_killfeed(12_000);
    twice.manage_killfeed(8_000);
    let texts = |feed: &KillFeed| -> Vec<(String, Option<i64>)> {
        feed.messages.iter().map(|m| (m.message.clone(), m.duration_left)).collect()
    };
    assert_eq!(texts(&once), texts(&twice));
    assert_eq!(
        texts(&once),
        vec![("a".to_string(), Some(10_000)), ("d".to_string(), None)]
    );
}

#[test]
fn get_messages_shows_at_most_the_capped_prefix() {
    let mut feed = KillFeed::new();
    for i in 0..KILLFEED_VISIBLE {
        feed.add_message(&format!("message {}", i));
        let shown = feed.get_messages();
        assert_eq!(shown.len(), i + 1);
    }
    for i in KILLFEED_VISIBLE..10 {
        feed.add_message(&format!("message {}", i));
        let shown = feed.get_messages();
        assert_eq!(shown.len(), KILLFEED_VISIBLE);
        for (k, message) in shown.iter().enumerate() {
            assert_eq!(message.message, format!("message {}", k));
            assert_eq!(message.duration_left, Some(KILLFEED_DURATION));
        }
    }
    assert_eq!(feed.messages.len(), 10);
}
