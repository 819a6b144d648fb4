//! The kill feed: a list of short-lived announcements.
use vstd::prelude::*;
use crate::constants::{KILLFEED_DURATION, KILLFEED_VISIBLE};

verus! {

/// One announcement, with the time it has left; `None` keeps it for ever.
#[derive(Clone, Debug)]
pub struct Message {
    pub message: String,
    pub duration_left: Option<i64>,
}

/// What a `Message` holds: its text and the time it has left.
pub struct MessageView {
    pub message: Seq<char>,
    pub duration_left: Option<i64>,
}

impl View for Message {
    type V = MessageView;

    open spec fn view(&self) -> MessageView {
        MessageView { message: self.message@, duration_left: self.duration_left }
    }
}

/// The list of announcements, oldest first.
#[derive(Clone, Debug)]
pub struct KillFeed {
    pub messages: Vec<Message>,
}

impl View for KillFeed {
    type V = Seq<MessageView>;

    open spec fn view(&self) -> Seq<MessageView> {
        self.messages@.map_values(|m: Message| m@)
    }
}

/// A fresh announcement of `text`: it lives for `KILLFEED_DURATION`.
pub open spec fn announcement(text: Seq<char>) -> MessageView {
    MessageView { message: text, duration_left: Some(KILLFEED_DURATION) }
}

/// The message after `delta` more microseconds, or `None` where its time is
/// up by then.
pub open spec fn aged_message(m: MessageView, delta: int) -> Option<MessageView> {
    match m.duration_left {
        None => Some(m),
        Some(left) => if left > delta {
            Some(MessageView { message: m.message, duration_left: Some((left - delta) as i64) })
        } else {
            None
        },
    }
}

/// The feed after `delta` more microseconds: every message has aged, and
/// those whose time is up are gone.
pub open spec fn aged_feed(feed: Seq<MessageView>, delta: int) -> Seq<MessageView> {
    feed.filter_map(|m: MessageView| aged_message(m, delta))
}

/// The part of the feed that consumers see: all of it while it holds at most
/// `KILLFEED_VISIBLE` messages, else its first `KILLFEED_VISIBLE`.
pub open spec fn visible_feed(feed: Seq<MessageView>) -> Seq<MessageView> {
    if feed.len() > KILLFEED_VISIBLE {
        feed.take(KILLFEED_VISIBLE as int)
    } else {
        feed
    }
}

/// A message with a time limit has time left, and no more than a fresh
/// message has.
pub open spec fn message_within_ttl(m: MessageView) -> bool {
    match m.duration_left {
        Some(left) => 0 < left <= KILLFEED_DURATION,
        None => true,
    }
}

/// Every message with a time limit has time left, and no more than a fresh
/// message has.
pub open spec fn feed_within_ttl(feed: Seq<MessageView>) -> bool {
    forall|i: int| 0 <= i < feed.len() ==> message_within_ttl(#[trigger] feed[i])
}

/// Ageing twice is ageing once by the sum: no message outlives its time
/// however the ticks are cut.
pub proof fn lemma_aged_feed_composes(feed: Seq<MessageView>, first: int, second: int)
    requires
        first >= 0,
        second >= 0,
    ensures
        aged_feed(aged_feed(feed, first), second) == aged_feed(feed, first + second),
    decreases feed.len(),
{
    let f1 = |m: MessageView| aged_message(m, first);
    if feed.len() > 0 {
        let rest = feed.drop_last();
        let last = feed.last();
        lemma_aged_feed_composes(rest, first, second);
        match f1(last) {
            Some(m) => {
                let head = rest.filter_map(f1);
                assert((head + seq![m]).drop_last() =~= head);
            },
            None => {},
        }
    }
}

/// A message is gone from the feed once its time is up: whatever the aged
/// feed holds has time left, and came from a message that had `delta` more.
pub proof fn lemma_aged_feed_within_ttl(feed: Seq<MessageView>, delta: int)
    requires
        delta >= 0,
        feed_within_ttl(feed),
    ensures
        feed_within_ttl(aged_feed(feed, delta)),
        aged_feed(feed, delta).len() <= feed.len(),
        delta >= KILLFEED_DURATION ==> forall|i: int|
            0 <= i < aged_feed(feed, delta).len() ==> (#[trigger] aged_feed(
                feed,
                delta,
            )[i]).duration_left is None,
    decreases feed.len(),
{
    if feed.len() > 0 {
        let rest = feed.drop_last();
        lemma_aged_feed_within_ttl(rest, delta);
    }
}

impl Message {
    /// A fresh announcement of `message`.
    pub fn new(message: String) -> (r: Message)
        ensures
            r@ == announcement(message@),
    {
        Message { message, duration_left: Some(KILLFEED_DURATION) }
    }
}

impl KillFeed {
    /// An empty feed.
    pub fn new() -> (r: KillFeed)
        ensures
            r@ == Seq::<MessageView>::empty(),
    {
        let r = KillFeed { messages: Vec::new() };
        r
    }

    /// Ages every message by `delta` microseconds and drops those whose time
    /// is up.
    pub fn manage_killfeed(&mut self, delta: u16)
        ensures
            final(self)@ == aged_feed(old(self)@, delta as int),
    {
        let ghost f = |m: MessageView| aged_message(m, delta as int);
        let ghost before = self@;
        let mut kept: Vec<Message> = Vec::new();
        let mut i: usize = 0;
        while i < self.messages.len()
            invariant
                i <= self.messages.len(),
                self@ == before,
                f == |m: MessageView| aged_message(m, delta as int),
                kept@.map_values(|m: Message| m@) == before.take(i as int).filter_map(f),
            decreases self.messages.len() - i,
        {
            proof {
                before.lemma_filter_map_take_succ(f, i as int);
            }
            let m = &self.messages[i];
            match m.duration_left {
                None => {
                    let copy = Message { message: m.message.clone(), duration_left: None };
                    kept.push(copy);
                },
                Some(left) => {
                    if left > delta as i64 {
                        let copy = Message {
                            message: m.message.clone(),
                            duration_left: Some(left - delta as i64),
                        };
                        kept.push(copy);
                    }
                },
            }
            i += 1;
        }
        assert(before.take(i as int) =~= before);
        self.messages = kept;
    }

    /// Appends a fresh announcement of `message`.
    pub fn add_message(&mut self, message: &str)
        ensures
            final(self)@ == old(self)@.push(announcement(message@)),
    {
        let m = Message::new(String::from_str(message));
        self.messages.push(m);
    }

    /// The messages that consumers see: at most the first `KILLFEED_VISIBLE`.
    pub fn get_messages(&self) -> (r: Vec<Message>)
        ensures
            r@.map_values(|m: Message| m@) == visible_feed(self@),
            r.len() <= KILLFEED_VISIBLE,
    {
        let count = if self.messages.len() > KILLFEED_VISIBLE {
            KILLFEED_VISIBLE
        } else {
            self.messages.len()
        };
        let mut shown: Vec<Message> = Vec::new();
        let mut i: usize = 0;
        while i < count
            invariant
                i <= count <= self.messages.len(),
                shown@.map_values(|m: Message| m@) =~= self@.take(i as int),
            decreases count - i,
        {
            let m = &self.messages[i];
            let copy = Message { message: m.message.clone(), duration_left: m.duration_left };
            proof {
                shown@.lemma_push_map_commute(|m: Message| m@, copy);
            }
            shown.push(copy);
            i += 1;
        }
        shown
    }
}

} // verus!
