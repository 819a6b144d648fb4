//! The decisions of the server's tick loop: what to do with each outcome of a
//! read or a write, with each message of a client, and with each client once
//! per tick. The loop itself, which owns the sockets, lives outside.
use vstd::prelude::*;
use vstd::string::is_ascii;
use vstd::utf8::is_ascii_chars;
use unicode_truncate::UnicodeTruncateStr;
use crate::constants::{DELTA_TIME, NAME_WIDTH, POWERUP_SLOWTIME_FACTOR, WORLD_SIZE};
use crate::gamestate::{drop_marked, join_message, GameState, GameStateView};
use crate::killfeed::announcement;
use crate::hurricane::Hurricane;
use crate::math::{vec2, Vec2};
use crate::messages::{ClientInput, ClientMessage, ServerMessage, SoundEffect};
use crate::player::effects::has_kind;
use crate::player::{Color, PlaneType, Player, PlayerView};
use crate::powerups::PowerUpKind;
use crate::projectiles::{ProjectileKind, ProjectileView};
use crate::random::random_below;

verus! {

/// The kinds of failure of a read or a write that the loop tells apart.
#[derive(Clone, Copy, Debug, PartialEq, Eq, Structural)]
pub enum IoFailure {
    WouldBlock,
    Interrupted,
    ConnectionReset,
    BrokenPipe,
    Other,
}

/// What a failure means for the connection.
#[derive(Clone, Copy, Debug, PartialEq, Eq, Structural)]
pub enum FailureClass {
    /// The operation is to be tried again; nothing has failed.
    Transient,
    /// The peer is gone: the connection and its player are dropped at the
    /// end of the tick.
    PeerClosed,
    /// There is no way to go on: the server stops.
    Fatal,
}

/// What to do after one read from a client.
#[derive(Clone, Copy, Debug, PartialEq, Eq, Structural)]
pub enum ReadStep {
    /// Take in this many bytes and read again.
    Take(usize),
    /// Read again.
    Retry,
    /// Nothing more has arrived in this tick.
    Done,
    /// Drop the connection at the end of the tick.
    Disconnect,
    /// Stop the server.
    Fatal,
}

/// What to do after one write to a client.
#[derive(Clone, Copy, Debug, PartialEq, Eq, Structural)]
pub enum WriteStep {
    /// This many bytes were written; write the rest.
    Advance(usize),
    /// Write again.
    Retry,
    /// All bytes are written.
    Done,
    /// Drop the connection at the end of the tick.
    Disconnect,
    /// Stop the server.
    Fatal,
}

/// What a failure means for the connection: a read or write that would block
/// or was interrupted is tried again; a reset connection or a broken pipe
/// means that the peer is gone; anything else is fatal.
pub open spec fn failure_class(failure: IoFailure) -> FailureClass {
    match failure {
        IoFailure::WouldBlock => FailureClass::Transient,
        IoFailure::Interrupted => FailureClass::Transient,
        IoFailure::ConnectionReset => FailureClass::PeerClosed,
        IoFailure::BrokenPipe => FailureClass::PeerClosed,
        IoFailure::Other => FailureClass::Fatal,
    }
}

/// What to do after a read with the given outcome: bytes that have arrived
/// are taken in; an empty read, and one that would block, end the reading for
/// this tick; an interrupted read is tried again.
pub open spec fn read_step(outcome: Result<usize, IoFailure>) -> ReadStep {
    match outcome {
        Ok(amount) => if amount == 0 {
            ReadStep::Done
        } else {
            ReadStep::Take(amount)
        },
        Err(failure) => if failure == IoFailure::WouldBlock {
            ReadStep::Done
        } else {
            match failure_class(failure) {
                FailureClass::Transient => ReadStep::Retry,
                FailureClass::PeerClosed => ReadStep::Disconnect,
                FailureClass::Fatal => ReadStep::Fatal,
            }
        },
    }
}

/// What to do after a write with the given outcome while `remaining` bytes
/// were still to be written: a write of fewer bytes is followed by a write of
/// the rest; a write that would block or was interrupted is tried again.
pub open spec fn write_step(outcome: Result<usize, IoFailure>, remaining: usize) -> WriteStep {
    match outcome {
        Ok(amount) => if amount < remaining {
            WriteStep::Advance(amount)
        } else {
            WriteStep::Done
        },
        Err(failure) => match failure_class(failure) {
            FailureClass::Transient => WriteStep::Retry,
            FailureClass::PeerClosed => WriteStep::Disconnect,
            FailureClass::Fatal => WriteStep::Fatal,
        },
    }
}

/// What a failure means for the connection.
pub fn classify(failure: IoFailure) -> (r: FailureClass)
    ensures
        r == failure_class(failure),
{
    match failure {
        IoFailure::WouldBlock => FailureClass::Transient,
        IoFailure::Interrupted => FailureClass::Transient,
        IoFailure::ConnectionReset => FailureClass::PeerClosed,
        IoFailure::BrokenPipe => FailureClass::PeerClosed,
        IoFailure::Other => FailureClass::Fatal,
    }
}

/// What to do after a read with the given outcome.
pub fn after_read(outcome: Result<usize, IoFailure>) -> (r: ReadStep)
    ensures
        r == read_step(outcome),
{
    match outcome {
        Ok(amount) => {
            if amount == 0 {
                ReadStep::Done
            } else {
                ReadStep::Take(amount)
            }
        },
        Err(IoFailure::WouldBlock) => ReadStep::Done,
        Err(failure) => match classify(failure) {
            FailureClass::Transient => ReadStep::Retry,
            FailureClass::PeerClosed => ReadStep::Disconnect,
            FailureClass::Fatal => ReadStep::Fatal,
        },
    }
}

/// What to do after a write with the given outcome while `remaining` bytes
/// were still to be written.
pub fn after_write(outcome: Result<usize, IoFailure>, remaining: usize) -> (r: WriteStep)
    ensures
        r == write_step(outcome, remaining),
{
    match outcome {
        Ok(amount) => {
            if amount < remaining {
                WriteStep::Advance(amount)
            } else {
                WriteStep::Done
            }
        },
        Err(failure) => match classify(failure) {
            FailureClass::Transient => WriteStep::Retry,
            FailureClass::PeerClosed => WriteStep::Disconnect,
            FailureClass::Fatal => WriteStep::Fatal,
        },
    }
}

/// What `str::trim` makes of a text: the text without the white space at its
/// start and at its end.
pub uninterp spec fn trimmed(text: Seq<char>) -> Seq<char>;

/// What `unicode_truncate` makes of a text: the longest start of the text,
/// cut between two graphemes, that is no wider on a display than `max_width`
/// columns.
pub uninterp spec fn truncated(text: Seq<char>, max_width: int) -> Seq<char>;

/// Calls `str::trim` of the standard library, which returns the part of the
/// text between its leading and trailing white space. The contract gives that
/// part a name and claims that it depends on the text alone.
#[verifier::external_body]
fn trim(text: &str) -> (r: String)
    ensures
        r@ == trimmed(text@),
{
    text.trim().to_string()
}

/// Calls `UnicodeTruncateStr::unicode_truncate` of the crate
/// `unicode_truncate`, which returns the longest start of the text that ends
/// between two graphemes and whose display width is at most `max_width`,
/// together with that width. The contract gives the text returned a name and
/// claims that it depends on the text and the width alone.
///
/// Where debug assertions are on, `unicode_truncate` panics unless the width
/// of what it returns is the sum of the widths of its graphemes. Some scripts
/// have ligatures that are narrower than their parts; ASCII has none, and the
/// precondition keeps the call to ASCII text.
#[verifier::external_body]
fn truncate(text: &str, max_width: usize) -> (r: String)
    requires
        is_ascii(text),
    ensures
        r@ == truncated(text@, max_width as int),
{
    text.unicode_truncate(max_width).0.to_string()
}

/// A name cut to length: an ASCII name is cut to the display width
/// `NAME_WIDTH`, as `unicode_truncate` has it; any other name is cut to
/// `NAME_WIDTH` characters.
pub open spec fn cut_name(name: Seq<char>) -> Seq<char> {
    if is_ascii_chars(name) {
        truncated(name, NAME_WIDTH as int)
    } else if name.len() > NAME_WIDTH {
        name.subrange(0, NAME_WIDTH as int)
    } else {
        name
    }
}

/// The name under which a player joins who asks for the name `trimmed_name`,
/// which has no white space around it: a name of nothing is replaced by a
/// stand-in; any other name is used as `cut` has it.
pub open spec fn chosen_name(trimmed_name: Seq<char>, cut: Seq<char>) -> Seq<char> {
    if trimmed_name.len() == 0 {
        "Mr Whitespace"@
    } else {
        cut
    }
}

/// The name under which a player joins who asks for `name`.
pub open spec fn sanitized_name(name: Seq<char>) -> Seq<char> {
    chosen_name(trimmed(name), cut_name(trimmed(name)))
}

/// The name cut to length.
pub fn cut_to_length(name: &str) -> (r: String)
    ensures
        r@ == cut_name(name@),
{
    if name.is_ascii() {
        truncate(name, NAME_WIDTH)
    } else if name.unicode_len() > NAME_WIDTH {
        String::from_str(name.substring_char(0, NAME_WIDTH))
    } else {
        String::from_str(name)
    }
}

/// The name under which a player joins, given the name asked for without the
/// white space around it, and that name cut to length.
pub fn choose_name(trimmed_name: &str, cut: String) -> (r: String)
    ensures
        r@ == chosen_name(trimmed_name@, cut@),
{
    if trimmed_name.is_empty() {
        String::from_str("Mr Whitespace")
    } else {
        cut
    }
}

/// The name under which a player joins who asks for `name`: the name
/// without the white space around it, cut to length; or a stand-in where
/// nothing is left of the name.
pub fn sanitize_name(name: &str) -> (r: String)
    ensures
        r@ == sanitized_name(name@),
{
    let trimmed_name = trim(name);
    let cut = cut_to_length(trimmed_name.as_str());
    choose_name(trimmed_name.as_str(), cut)
}

/// What one client's turn in the tick has brought about.
#[derive(Clone, Debug)]
pub struct ClientTick {
    /// The projectile that the client's player has fired; it joins the world
    /// once the snapshot for the client has been taken.
    pub projectile: Option<ProjectileKind>,
    /// Where the player has started to charge a laser.
    pub laser_charge_at: Option<Vec2>,
    /// Where the player has died.
    pub died_at: Option<Vec2>,
}

/// What the server sends to one client in its turn, in this order.
#[derive(Clone, Copy, Debug, PartialEq, Eq, Structural)]
pub enum Outgoing {
    PlayerHit(u64),
    YouDied,
    /// The snapshot of the world as it is at this point of the turn.
    Snapshot,
    PlaySound(SoundEffect, Vec2),
}

/// What a player does in its turn of the tick, where a projectile that it
/// fires gets the id `projectile_id`: it flies on under its client's
/// controls, pulls the trigger if the client shoots, and triggers its
/// pending powerup if the client asks for it. The result is the player
/// afterwards, the projectile fired, and whether a laser has started to
/// charge.
pub open spec fn driven(
    player: PlayerView,
    input: ClientInput,
    hurricane: Option<Hurricane>,
    delta: int,
    projectile_id: u64,
) -> (PlayerView, Option<ProjectileView>, bool) {
    let flown = player.updated(input.x_input as int, input.y_input as int, hurricane, delta);
    let shot = if input.shooting {
        flown.shot(projectile_id)
    } else {
        (flown, None, false)
    };
    let after = if input.activating_powerup {
        shot.0.triggered()
    } else {
        shot.0
    };
    (after, shot.1, shot.2)
}

/// The pickup is one of the client `client_id`.
pub open spec fn is_pickup_of(client_id: u64, pickup: (u64, Vec2)) -> bool {
    pickup.0 == client_id
}

/// The message that lets a client hear its pickup.
pub open spec fn pickup_sound(pickup: (u64, Vec2)) -> Outgoing {
    Outgoing::PlaySound(SoundEffect::Powerup, pickup.1)
}

/// The messages for the client `client_id` about the hits and the pickups of
/// the tick, and about its own death: every hit is passed on; the death, if
/// the client's player has died; then the snapshot; then a sound for each of
/// the client's own pickups.
pub open spec fn outgoing_for(
    client_id: u64,
    hit_players: Seq<u64>,
    died: bool,
    pickups: Seq<(u64, Vec2)>,
) -> Seq<Outgoing> {
    hit_players.map_values(|id: u64| Outgoing::PlayerHit(id)) + (if died {
        seq![Outgoing::YouDied]
    } else {
        Seq::empty()
    }) + seq![Outgoing::Snapshot] + pickups.filter(
        |p: (u64, Vec2)| is_pickup_of(client_id, p),
    ).map_values(|p: (u64, Vec2)| pickup_sound(p))
}

/// The sounds that all clients hear after the turn of one client: the charge
/// of a laser, the explosion of the player, and the shot of a projectile.
pub open spec fn sounds_of(
    laser_charge_at: Option<Vec2>,
    died_at: Option<Vec2>,
    projectile: Option<ProjectileView>,
) -> Seq<(SoundEffect, Vec2)> {
    (match laser_charge_at {
        Some(position) => seq![(SoundEffect::LaserCharge, position)],
        None => Seq::empty(),
    }) + (match died_at {
        Some(position) => seq![(SoundEffect::Explosion, position)],
        None => Seq::empty(),
    }) + (match projectile {
        Some(p) => seq![(SoundEffect::Gun, p.position())],
        None => Seq::empty(),
    })
}

/// A client hears of its death exactly once: the messages for a client whose
/// player has died hold one notice of the death, right behind the hits, and
/// the messages for any other client hold none.
pub proof fn lemma_one_death_notice(
    client_id: u64,
    hit_players: Seq<u64>,
    died: bool,
    pickups: Seq<(u64, Vec2)>,
)
    ensures
        forall|i: int|
            0 <= i < outgoing_for(client_id, hit_players, died, pickups).len() ==> ((
            #[trigger] outgoing_for(client_id, hit_players, died, pickups)[i]) == Outgoing::YouDied
                <==> died && i == hit_players.len()),
{
}

/// The messages for one client about the hits and the pickups of the tick,
/// and about its own death.
pub fn messages_for(
    client_id: u64,
    hit_players: &Vec<u64>,
    died: bool,
    pickups: &Vec<(u64, Vec2)>,
) -> (r: Vec<Outgoing>)
    ensures
        r@ == outgoing_for(client_id, hit_players@, died, pickups@),
{
    let ghost hit = |id: u64| Outgoing::PlayerHit(id);
    let ghost own = |p: (u64, Vec2)| is_pickup_of(client_id, p);
    let ghost sound = |p: (u64, Vec2)| pickup_sound(p);
    let mut out: Vec<Outgoing> = Vec::new();
    let mut i: usize = 0;
    while i < hit_players.len()
        invariant
            i <= hit_players.len(),
            hit == |id: u64| Outgoing::PlayerHit(id),
            out@ == hit_players@.take(i as int).map_values(hit),
        decreases hit_players.len() - i,
    {
        out.push(Outgoing::PlayerHit(hit_players[i]));
        i += 1;
    }
    if died {
        out.push(Outgoing::YouDied);
    }
    out.push(Outgoing::Snapshot);
    let ghost head = out@;
    let mut i: usize = 0;
    while i < pickups.len()
        invariant
            i <= pickups.len(),
            own == |p: (u64, Vec2)| is_pickup_of(client_id, p),
            sound == |p: (u64, Vec2)| pickup_sound(p),
            out@ == head + pickups@.take(i as int).filter(own).map_values(sound),
        decreases pickups.len() - i,
    {
        let pickup = pickups[i];
        proof {
            assert(pickups@.take(i as int + 1) =~= pickups@.take(i as int).push(pickup));
            pickups@.take(i as int).lemma_filter_push(pickup, own);
        }
        if pickup.0 == client_id {
            out.push(Outgoing::PlaySound(SoundEffect::Powerup, pickup.1));
        }
        i += 1;
    }
    assert(pickups@.take(i as int) =~= pickups@);
    out
}

/// The message that goes out for `outgoing`; a snapshot carries the world
/// given.
pub fn into_message(outgoing: Outgoing, snapshot: GameState) -> (r: ServerMessage)
    ensures
        r == match outgoing {
            Outgoing::PlayerHit(id) => ServerMessage::PlayerHit(id),
            Outgoing::YouDied => ServerMessage::YouDied,
            Outgoing::Snapshot => ServerMessage::GameState(snapshot),
            Outgoing::PlaySound(effect, position) => ServerMessage::PlaySound(effect, position),
        },
{
    match outgoing {
        Outgoing::PlayerHit(id) => ServerMessage::PlayerHit(id),
        Outgoing::YouDied => ServerMessage::YouDied,
        Outgoing::Snapshot => ServerMessage::GameState(snapshot),
        Outgoing::PlaySound(effect, position) => ServerMessage::PlaySound(effect, position),
    }
}

/// The sounds that all clients hear after the turn of one client.
pub fn sounds_after(tick: &ClientTick) -> (r: Vec<(SoundEffect, Vec2)>)
    ensures
        r@ == sounds_of(
            tick.laser_charge_at,
            tick.died_at,
            match tick.projectile {
                Some(p) => Some(p@),
                None => None,
            },
        ),
{
    let mut sounds: Vec<(SoundEffect, Vec2)> = Vec::new();
    if let Some(position) = tick.laser_charge_at {
        sounds.push((SoundEffect::LaserCharge, position));
    }
    if let Some(position) = tick.died_at {
        sounds.push((SoundEffect::Explosion, position));
    }
    match &tick.projectile {
        Some(projectile) => {
            sounds.push((SoundEffect::Gun, projectile.get_position()));
        },
        None => {},
    }
    sounds
}

/// The world, and the id of the next client.
#[derive(Clone, Debug)]
pub struct Server {
    pub state: GameState,
    pub next_id: u64,
}

impl Server {
    /// A player holds the slow-time powerup.
    pub open spec fn slowtime(players: Seq<PlayerView>) -> bool {
        exists|i: int|
            0 <= i < players.len() && has_kind(
                (#[trigger] players[i]).powerups,
                PowerUpKind::SlowTime,
            )
    }

    /// The length of the next tick: a fixed length, divided while any player
    /// holds the slow-time powerup.
    pub open spec fn delta_time(players: Seq<PlayerView>) -> u16 {
        if Self::slowtime(players) {
            DELTA_TIME / POWERUP_SLOWTIME_FACTOR
        } else {
            DELTA_TIME
        }
    }

    /// A server with an empty world.
    pub fn new() -> (r: Server)
        ensures
            r.state@ == GameStateView::empty(),
            r.state@.wf(),
            r.next_id == 0,
    {
        Server { state: GameState::new(), next_id: 0 }
    }

    /// Whether any player holds the slow-time powerup.
    pub fn slowtime_is_active(&self) -> (r: bool)
        ensures
            r == Self::slowtime(self.state@.players),
    {
        let mut i: usize = 0;
        while i < self.state.players.len()
            invariant
                i <= self.state.players.len(),
                forall|j: int|
                    0 <= j < i ==> !has_kind(
                        (#[trigger] self.state@.players[j]).powerups,
                        PowerUpKind::SlowTime,
                    ),
            decreases self.state.players.len() - i,
        {
            let player = &self.state.players[i];
            let mut k: usize = 0;
            while k < player.powerups.len()
                invariant
                    k <= player.powerups.len(),
                    i < self.state.players.len(),
                    self.state@.players[i as int] == player@,
                    forall|m: int|
                        0 <= m < k ==> (#[trigger] player.powerups@[m]).kind
                            != PowerUpKind::SlowTime,
                decreases player.powerups.len() - k,
            {
                if player.powerups[k].kind == PowerUpKind::SlowTime {
                    return true;
                }
                k += 1;
            }
            i += 1;
        }
        false
    }

    /// The length of the next tick, in microseconds.
    pub fn get_delta_time(&self) -> (r: u16)
        ensures
            r == Self::delta_time(self.state@.players),
            r == DELTA_TIME || r == DELTA_TIME / POWERUP_SLOWTIME_FACTOR,
    {
        if self.slowtime_is_active() {
            return DELTA_TIME / POWERUP_SLOWTIME_FACTOR;
        }
        DELTA_TIME
    }

    /// The id for a client that has just connected; `None` once all ids are
    /// used up.
    pub fn assign_id(&mut self) -> (r: Option<u64>)
        ensures
            final(self).state == old(self).state,
            match r {
                Some(id) => id == old(self).next_id && final(self).next_id == id + 1,
                None => old(self).next_id == u64::MAX && final(self).next_id == u64::MAX,
            },
    {
        if self.next_id == u64::MAX {
            None
        } else {
            let id = self.next_id;
            self.next_id = self.next_id + 1;
            Some(id)
        }
    }

    /// Lets a player join at `position`, under the name that `name` is
    /// sanitized to.
    pub fn join_at(
        &mut self,
        id: u64,
        name: &str,
        plane: PlaneType,
        color: Color,
        position: Vec2,
    )
        requires
            old(self).state@.wf(),
        ensures
            final(self).next_id == old(self).next_id,
            final(self).state@.wf(),
            final(self).state@ == (GameStateView {
                players: old(self).state@.players.push(
                    PlayerView::joined(id, position, plane, color, sanitized_name(name@)),
                ),
                killfeed: old(self).state@.killfeed.push(
                    announcement(
                        join_message(sanitized_name(name@)),
                    ),
                ),
                ..old(self).state@
            }),
    {
        let player = Player::new(id, position, plane, color, sanitize_name(name));
        self.state.add_player(player);
    }

    /// Takes in a message of the client `id`, or, with `None`, what could
    /// not be decoded as one. New controls replace those in `input`; a
    /// request to join lets a player join at a random place. Returns whether
    /// the client stays: one that sends what cannot be decoded is dropped.
    pub fn handle_message(
        &mut self,
        id: u64,
        message: Option<ClientMessage>,
        input: &mut ClientInput,
    ) -> (keep: bool)
        requires
            old(self).state@.wf(),
        ensures
            final(self).next_id == old(self).next_id,
            final(self).state@.wf(),
            keep == message is Some,
            match message {
                Some(ClientMessage::Input(controls)) => *final(input) == controls
                    && final(self).state@ == old(self).state@,
                Some(ClientMessage::JoinGame { name, plane, color }) => *final(input) == *old(input)
                    && exists|position: Vec2|
                    final(self).state@ == (GameStateView {
                        players: old(self).state@.players.push(
                            #[trigger] PlayerView::joined(
                                id,
                                position,
                                plane,
                                color,
                                sanitized_name(name@),
                            ),
                        ),
                        killfeed: old(self).state@.killfeed.push(
                            announcement(
                                join_message(sanitized_name(name@)),
                            ),
                        ),
                        ..old(self).state@
                    }),
                None => *final(input) == *old(input) && final(self).state@ == old(self).state@,
            },
    {
        match message {
            Some(ClientMessage::Input(controls)) => {
                *input = controls;
                true
            },
            Some(ClientMessage::JoinGame { name, plane, color }) => {
                let x = random_below(WORLD_SIZE as u64) as i64;
                let y = random_below(WORLD_SIZE as u64) as i64;
                self.join_at(id, name.as_str(), plane, color, vec2(x, y));
                true
            },
            None => false,
        }
    }
}

/// The player stays in the world at the end of a tick: it is alive, and its
/// client is not among the disconnected.
pub open spec fn stays(player: PlayerView, disconnected: Seq<u64>) -> bool {
    player.health > 0 && !disconnected.contains(player.id)
}

impl Server {
    /// Runs one tick of the world, of the length that the powerups in effect
    /// call for. Returns that length, the ids of the players hit, the
    /// pickups, and the places from which beams were fired.
    pub fn update(&mut self) -> (r: (u16, Vec<u64>, Vec<(u64, Vec2)>, Vec<Vec2>))
        requires
            old(self).state@.wf(),
        ensures
            final(self).next_id == old(self).next_id,
            final(self).state@.wf(),
            r.0 == Self::delta_time(old(self).state@.players),
            exists|start: GameStateView| #[trigger]
                old(self).state@.may_start_as(start) && start.ticks_to(
                    r.0 as int,
                    final(self).state@,
                ) && r.1@ == start.tick_hits(r.0 as int) && r.2@ == start.tick_pickups(r.0 as int)
                    && r.3@ == start.tick_laser_positions(r.0 as int),
    {
        let delta_time = self.get_delta_time();
        let (hit_players, hit_powerup_positions, fired_laser_positions) = self.state.update(
            delta_time,
        );
        (delta_time, hit_players, hit_powerup_positions, fired_laser_positions)
    }

    /// Gives the player of the client `id` its turn in the tick: the player
    /// flies on under the client's controls, pulls the trigger if the client
    /// shoots, and triggers its pending powerup if the client asks for it. A
    /// client without a player has no turn.
    pub fn update_client(&mut self, id: u64, input: &ClientInput, delta: u16) -> (r: ClientTick)
        requires
            old(self).state@.wf(),
        ensures
            final(self).next_id == old(self).next_id,
            final(self).state@.wf(),
            match old(self).state@.index_of_player(id) {
                None => final(self).state@ == old(self).state@ && r.projectile is None
                    && r.laser_charge_at is None && r.died_at is None,
                Some(i) => {
                    let turn = driven(
                        old(self).state@.players[i],
                        *input,
                        old(self).state@.hurricane,
                        delta as int,
                        match r.projectile {
                            Some(p) => p@.id(),
                            None => 0,
                        },
                    );
                    &&& final(self).state@ == (GameStateView {
                        players: old(self).state@.players.update(i, turn.0),
                        ..old(self).state@
                    })
                    &&& match r.projectile {
                        Some(p) => turn.1 == Some(p@) && p@.wf(),
                        None => turn.1 is None,
                    }
                    &&& r.laser_charge_at == (if turn.2 {
                        Some(turn.0.position)
                    } else {
                        None
                    })
                    &&& r.died_at == (if turn.0.health == 0 {
                        Some(turn.0.position)
                    } else {
                        None
                    })
                },
            },
    {
        let ghost before = self.state@;
        match self.state.player_index(id) {
            None => ClientTick { projectile: None, laser_charge_at: None, died_at: None },
            Some(i) => {
                self.state.players[i].update(
                    input.x_input,
                    input.y_input,
                    &self.state.hurricane,
                    delta,
                );
                let (projectile, start_charging_laser) = if input.shooting {
                    self.state.players[i].shoot()
                } else {
                    (None, false)
                };
                if input.activating_powerup {
                    self.state.players[i].trigger_powerup_if_available();
                }
                let position = self.state.players[i].position;
                let laser_charge_at = if start_charging_laser {
                    Some(position)
                } else {
                    None
                };
                let died_at = if self.state.players[i].health <= 0 {
                    Some(position)
                } else {
                    None
                };
                proof {
                    let after = self.state.players@[i as int]@;
                    assert(self.state@.players =~= before.players.update(i as int, after));
                }
                ClientTick { projectile, laser_charge_at, died_at }
            },
        }
    }

    /// Removes, at the end of a tick, the players that have died and those
    /// whose clients are among the disconnected.
    pub fn remove_players(&mut self, disconnected: &Vec<u64>)
        requires
            old(self).state@.wf(),
        ensures
            final(self).next_id == old(self).next_id,
            final(self).state@.wf(),
            final(self).state@ == (GameStateView {
                players: old(self).state@.players.filter(
                    |p: PlayerView| stays(p, disconnected@),
                ),
                ..old(self).state@
            }),
            forall|i: int|
                0 <= i < final(self).state@.players.len() ==> stays(
                    #[trigger] final(self).state@.players[i],
                    disconnected@,
                ),
    {
        let ghost before = self.state@;
        let ghost staying = |p: PlayerView| stays(p, disconnected@);
        let mut leaving: Vec<bool> = Vec::new();
        let mut i: usize = 0;
        while i < self.state.players.len()
            invariant
                i <= self.state.players.len(),
                leaving@.len() == i,
                self.state@ == before,
                forall|j: int|
                    0 <= j < i ==> #[trigger] leaving@[j] == !stays(
                        before.players[j],
                        disconnected@,
                    ),
            decreases self.state.players.len() - i,
        {
            let player = &self.state.players[i];
            let mut gone = player.health <= 0;
            let mut k: usize = 0;
            while k < disconnected.len()
                invariant
                    k <= disconnected.len(),
                    gone == (player.health <= 0 || disconnected@.take(k as int).contains(
                        player.id,
                    )),
                decreases disconnected.len() - k,
            {
                proof {
                    let next = disconnected@.take(k as int + 1);
                    if disconnected@[k as int] == player.id {
                        assert(next[k as int] == player.id);
                    }
                }
                if disconnected[k] == player.id {
                    gone = true;
                }
                k += 1;
            }
            assert(disconnected@.take(k as int) =~= disconnected@);
            leaving.push(gone);
            i += 1;
        }
        drop_marked(&mut self.state.players, &leaving, Ghost(staying));
        proof {
            let kept = before.players.filter(staying);
            assert forall|j: int| 0 <= j < kept.len() implies (#[trigger] kept[j]).wf() by {
                before.players.lemma_filter_contains_rev(staying, kept[j]);
            }
        }
    }
}

} // verus!
