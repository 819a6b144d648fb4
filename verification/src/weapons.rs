//! The types of gun.
use vstd::prelude::*;

verus! {

/// The types of gun that a plane can carry.
#[derive(Clone, Copy, Debug, PartialEq, Eq, Structural)]
pub enum GunType {
    Regular,
    Laser,
    Minigun,
}

} // verus!
