//! Names shared by the game's collision and audio set-up.

use vstd::prelude::*;

verus! {

/// The groups that collision shapes are sorted into.
#[derive(Clone, Copy, Debug, PartialEq, Eq, Hash, Structural)]
pub enum PhysicsLayer {
    World,
    Player,
    PlayerDamageReceive,
    PlayerDamageSend,
    Projectile,
    EnemyDamageReceive,
    EnemyDamageSend,
}

/// The layers that sounds are played in; one sound at a time per layer.
#[derive(Clone, Copy, Debug, PartialEq, Eq, Hash, Structural)]
pub enum AudioLayer {
    Music,
    Player,
    Enemy,
}

} // verus!
