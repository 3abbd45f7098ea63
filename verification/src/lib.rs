//! A live-editable shader-parameter resource kept in lock-step with GPU-bound
//! material instances.
//!
//! The library captures the engine-agnostic core of a full-screen "doodle"
//! material plugin: a uniform-buffer-backed parameter block with explicit
//! alignment padding ([`params::ParameterBlock`]), a change-tracked single
//! value store that an external editor mutates between frames
//! ([`store::ParameterStore`]), the registry of live material instances that
//! embed a copy of the block ([`registry::MaterialInstanceRegistry`]), and the
//! per-frame synchronization that pushes an observed change to every
//! registered material ([`sync::SyncSystem`]).
//!
//! Scene setup (camera, light, plane placement), asset loading and the editor
//! UI are external collaborators; they live outside the verified core and talk
//! to it through plain values.

pub mod params;
pub mod registry;
pub mod store;
pub mod sync;

use vstd::prelude::*;

verus! {

/// Current phase of the surrounding game, supplied by an external game-phase
/// collaborator. The bootstrap and sync operations are phase-agnostic: they
/// run regardless of the phase.
#[derive(Clone, Copy, Debug, PartialEq, Eq, Structural)]
pub enum GameState {
    /// Assets are still being loaded.
    Loading,
    /// The menu is shown.
    Menu,
}

impl Default for GameState {
    /// The game starts in the loading phase.
    fn default() -> (r: GameState)
        ensures
            r == GameState::Loading,
    {
        GameState::Loading
    }
}

} // verus!
