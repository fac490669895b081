//! Sprite animation and footstep-sound logic for a 2D game character.
//!
//! The crate keeps the per-entity animation state machine (idling vs.
//! walking), a repeating frame timer, the texture-atlas index computation,
//! and the footstep-sound state machine. The host engine supplies the
//! scheduler, the renderer and the audio mixer; it drives these types with
//! plain values (elapsed nanoseconds, movement-intent signs, the current
//! area) and carries out the commands they return.

pub mod animation;
pub mod footsteps;
pub mod movement;

pub use animation::Animation;
pub use animation::AnimationData;
pub use animation::AnimationState;
pub use animation::FrameTimer;
