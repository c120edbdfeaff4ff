//! Core logic of a minimal side-scrolling character controller: a single
//! controllable body that falls under gravity, detects contact with static
//! ground, jumps on command, and is tracked by a camera.
//!
//! The host engine (physics integration, windowing, rendering, input devices)
//! is an external collaborator. It hands this library plain values each
//! simulation tick — the tick's collision events, the jump key's
//! newly-pressed edge, the player body's position — and applies the values
//! the library hands back. Everything the library computes is specified and
//! verified here:
//!
//! - [`grounded`]: turn the tick's stream of contact started/ended events
//!   into the player's `is_grounded` flag (first-match-wins, sticky when no
//!   event qualifies);
//! - [`input`]: gate the jump impulse on that flag and the input edge;
//! - [`camera`]: snap the camera transform to the player's position;
//! - [`tick`]: the fixed per-tick pipeline that runs the resolver before the
//!   velocity controller.

pub mod camera;
pub mod grounded;
pub mod input;
pub mod model;
pub mod tick;
