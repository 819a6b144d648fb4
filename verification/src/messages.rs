//! The messages between server and clients, and their framing: each message
//! travels as a length of two bytes, the high byte first, and that many bytes
//! of payload.
use vstd::prelude::*;
use std::collections::VecDeque;
use crate::gamestate::GameState;
use crate::math::Vec2;
use crate::player::{Color, PlaneType};

verus! {

/// The longest payload that a frame can carry.
pub const MAX_PAYLOAD: usize = 65_535;

/// The length that the first two bytes of the queue announce.
pub open spec fn announced_length(queue: Seq<u8>) -> int
    recommends
        queue.len() >= 2,
{
    queue[0] * 256 + queue[1]
}

/// The queue holds a whole message: the two bytes of the length and all of
/// the payload that they announce.
pub open spec fn holds_message(queue: Seq<u8>) -> bool {
    queue.len() >= 2 && queue.len() >= 2 + announced_length(queue)
}

/// The payload of the first message in the queue.
pub open spec fn first_message(queue: Seq<u8>) -> Seq<u8>
    recommends
        holds_message(queue),
{
    queue.subrange(2, 2 + announced_length(queue))
}

/// What follows the first message in the queue.
pub open spec fn after_first_message(queue: Seq<u8>) -> Seq<u8>
    recommends
        holds_message(queue),
{
    queue.skip(2 + announced_length(queue))
}

/// The frame of a payload of at most `MAX_PAYLOAD` bytes: its length, the
/// high byte first, and the payload.
pub open spec fn framed(payload: Seq<u8>) -> Seq<u8>
    recommends
        payload.len() <= MAX_PAYLOAD,
{
    seq![(payload.len() / 256) as u8, (payload.len() % 256) as u8] + payload
}

/// A frame, followed by anything, holds exactly its payload as the first
/// message, and what follows the frame is what is left after it.
pub proof fn lemma_frame_is_read_back(payload: Seq<u8>, rest: Seq<u8>)
    requires
        payload.len() <= MAX_PAYLOAD,
    ensures
        announced_length(framed(payload) + rest) == payload.len(),
        holds_message(framed(payload) + rest),
        first_message(framed(payload) + rest) == payload,
        after_first_message(framed(payload) + rest) == rest,
{
}

/// Framing survives any cut of the stream: while only a part of a frame has
/// arrived, there is no message to read; once all of it has arrived, there is
/// exactly one, the payload, and nothing is left behind it.
pub proof fn lemma_one_message_per_frame(payload: Seq<u8>, arrived: int)
    requires
        payload.len() <= MAX_PAYLOAD,
        0 <= arrived <= framed(payload).len(),
    ensures
        arrived < framed(payload).len() ==> !holds_message(framed(payload).take(arrived)),
        holds_message(framed(payload)),
        first_message(framed(payload)) == payload,
        after_first_message(framed(payload)) == Seq::<u8>::empty(),
        !holds_message(after_first_message(framed(payload))),
{
}

/// Why a payload cannot be framed.
#[derive(Clone, Copy, Debug, PartialEq, Eq, Structural)]
pub enum FrameError {
    /// The payload is longer than the two bytes of the length can say.
    TooLong,
}

/// The frame of `payload`, or `TooLong` for a payload of more than
/// `MAX_PAYLOAD` bytes.
pub fn frame(payload: &Vec<u8>) -> (r: Result<Vec<u8>, FrameError>)
    ensures
        match r {
            Ok(bytes) => payload@.len() <= MAX_PAYLOAD && bytes@ == framed(payload@),
            Err(e) => payload@.len() > MAX_PAYLOAD && e == FrameError::TooLong,
        },
{
    if payload.len() > MAX_PAYLOAD {
        return Err(FrameError::TooLong);
    }
    let length = payload.len();
    let mut bytes: Vec<u8> = Vec::new();
    bytes.push((length / 256) as u8);
    bytes.push((length % 256) as u8);
    let mut i: usize = 0;
    while i < payload.len()
        invariant
            i <= payload.len(),
            bytes@ == seq![(payload@.len() / 256) as u8, (payload@.len() % 256) as u8]
                + payload@.take(i as int),
        decreases payload.len() - i,
    {
        bytes.push(payload[i]);
        i += 1;
    }
    Ok(bytes)
}

/// Collects the bytes that arrive from a peer and hands them out as whole
/// messages.
pub struct MessageReader {
    pub byte_queue: VecDeque<u8>,
}

impl View for MessageReader {
    type V = Seq<u8>;

    open spec fn view(&self) -> Seq<u8> {
        self.byte_queue@
    }
}

impl MessageReader {
    /// A reader that has received nothing.
    pub fn new() -> (r: MessageReader)
        ensures
            r@ == Seq::<u8>::empty(),
    {
        MessageReader { byte_queue: VecDeque::new() }
    }

    /// Takes in the first `amount` bytes of `buffer`: what one read from the
    /// peer has delivered.
    pub fn fetch_bytes(&mut self, buffer: &[u8], amount: usize)
        requires
            amount <= buffer@.len(),
        ensures
            final(self)@ == old(self)@ + buffer@.take(amount as int),
    {
        let ghost before = self@;
        let mut i: usize = 0;
        while i < amount
            invariant
                i <= amount <= buffer@.len(),
                self@ == before + buffer@.take(i as int),
            decreases amount - i,
        {
            self.byte_queue.push_back(buffer[i]);
            i += 1;
        }
    }

    /// The next whole message, if the queue holds one; the message leaves
    /// the queue. A queue that holds only a part of a message stays as it
    /// is.
    pub fn next_message(&mut self) -> (r: Option<Vec<u8>>)
        ensures
            match r {
                Some(message) => holds_message(old(self)@) && message@ == first_message(
                    old(self)@,
                ) && final(self)@ == after_first_message(old(self)@),
                None => !holds_message(old(self)@) && final(self)@ == old(self)@,
            },
    {
        // We need two bytes for the length.
        if self.byte_queue.len() < 2 {
            return None;
        }
        let ghost before = self@;
        let length: usize = (self.byte_queue[0] as usize) * 256 + (self.byte_queue[1] as usize);
        // No message is read until all of it has been received.
        if self.byte_queue.len() < 2 + length {
            return None;
        }
        self.byte_queue.pop_front();
        self.byte_queue.pop_front();
        let mut message: Vec<u8> = Vec::new();
        let mut i: usize = 0;
        while i < length
            invariant
                i <= length,
                before.len() >= 2 + length,
                self@ == before.skip(2 + i as int),
                message@ == before.subrange(2, 2 + i as int),
            decreases length - i,
        {
            let byte = self.byte_queue.pop_front();
            message.push(byte.unwrap());
            i += 1;
        }
        Some(message)
    }

    /// An iterator over the whole messages in the queue.
    pub fn iter<'a>(&'a mut self) -> (r: MessageIterator<'a>)
        ensures
            r.message_reader@ == old(self)@,
            final(self)@ == final(r.message_reader)@,
    {
        MessageIterator { message_reader: self }
    }
}

/// Hands out the whole messages of a reader, one at a time.
pub struct MessageIterator<'a> {
    pub message_reader: &'a mut MessageReader,
}

impl<'a> MessageIterator<'a> {
    /// The next whole message, if the reader holds one.
    pub fn next(&mut self) -> (r: Option<Vec<u8>>)
        ensures
            match r {
                Some(message) => holds_message(old(self).message_reader@) && message@
                    == first_message(old(self).message_reader@) && final(self).message_reader@
                    == after_first_message(old(self).message_reader@),
                None => !holds_message(old(self).message_reader@) && final(self).message_reader@
                    == old(self).message_reader@,
            },
    {
        self.message_reader.next_message()
    }
}

/// A sound that clients play.
#[derive(Clone, Copy, Debug, PartialEq, Eq, Structural)]
pub enum SoundEffect {
    Powerup,
    Explosion,
    Gun,
    LaserCharge,
    LaserFire,
}

/// What the server tells a client.
#[derive(Clone, Debug)]
pub enum ServerMessage {
    AssignId(u64),
    GameState(GameState),
    PlaySound(SoundEffect, Vec2),
    PlayerHit(u64),
    YouDied,
}

/// The state of a client's controls; the steering and throttle inputs run
/// from minus one to one, in thousandths.
#[derive(Clone, Copy, Debug, PartialEq, Eq, Structural)]
pub struct ClientInput {
    pub x_input: i64,
    pub y_input: i64,
    pub shooting: bool,
    pub activating_powerup: bool,
}

impl ClientInput {
    /// Controls at rest.
    pub fn new() -> (r: ClientInput)
        ensures
            r == (ClientInput {
                x_input: 0,
                y_input: 0,
                shooting: false,
                activating_powerup: false,
            }),
    {
        ClientInput { x_input: 0, y_input: 0, shooting: false, activating_powerup: false }
    }
}

/// What a client tells the server.
#[derive(Clone, Debug)]
pub enum ClientMessage {
    Input(ClientInput),
    JoinGame { name: String, plane: PlaneType, color: Color },
}

} // verus!
