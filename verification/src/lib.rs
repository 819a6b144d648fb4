//! Authoritative world simulation and message framing for a multiplayer
//! top-down flying-combat game played on a toroidal map.
//!
//! Every quantity is an integer in fixed-point units, so that one tick of the
//! simulation is a pure function of the previous state, the players' inputs and
//! the random draws handed to it:
//!
//! * lengths are thousandths of a world unit,
//! * times are microseconds,
//! * angles are milliradians,
//! * ratios and factors are thousandths,
//! * velocities are thousandths of a world unit per second.
//!
//! The length of a tick is a `u16` of microseconds, so that no tick is longer
//! than about 65 milliseconds.
pub mod arith;
pub mod constants;
pub mod debug;
pub mod gamestate;
pub mod hurricane;
pub mod killfeed;
pub mod math;
pub mod menu;
pub mod messages;
pub mod player;
pub mod powerups;
pub mod projectiles;
pub mod random;
pub mod server;
pub mod trig;
pub mod weapons;
