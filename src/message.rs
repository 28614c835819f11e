//! Gameplay messages that characters and weapons send to the dispatch
//! channel.

use crate::geometry::Point;
use crate::kinds::WeaponKind;
use vstd::prelude::*;

verus! {

#[derive(Copy, Clone, PartialEq, Eq, Debug, Structural)]
pub enum Message {
    /// Show or hide a weapon model.
    ShowWeapon { weapon: u64, state: bool },
    /// Fire a weapon along `direction` (not normalised).
    ShootWeapon { weapon: u64, direction: Point },
    /// Damage an actor by `amount` points.
    DamageActor { actor: u64, amount: i64 },
    /// Play footstep sound number `sound` of the footstep set at `position`.
    PlayFootstep { sound: usize, position: Point },
    /// Play the shot sound of a weapon of `kind` at its muzzle.
    PlayShotSound { kind: WeaponKind },
}

} // verus!
