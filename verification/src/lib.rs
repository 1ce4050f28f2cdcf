//! Sprite-frame animation: named animation definitions, a catalog of them, and
//! the per-entity playback state machine that turns elapsed time into frame
//! indices of a texture atlas.

pub mod catalog;
pub mod definition;
pub mod engine;
pub mod laws;
pub mod layers;
pub mod playback;
pub mod sprite;
pub mod timer;

pub use catalog::AnimationSet;
pub use definition::AnimationDefinition;
pub use layers::{AudioLayer, PhysicsLayer};
pub use playback::{PlayingAnimation, RequestedAnimation};
pub use sprite::{AnimatedSprite, Resolution};
pub use timer::FrameTimer;
