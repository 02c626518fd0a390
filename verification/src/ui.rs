//! The on-screen text and the performance overlay toggle.
//!
//! A debug key flips the performance overlay: pressing it despawns the
//! overlay when one is on screen and spawns a fresh one when none is. The
//! scenes also greet the player with a fixed line of instructions.

use vstd::prelude::*;

verus! {

/// The instruction line the scenes greet the player with.
pub fn setup_instructions() -> (s: &'static str)
    ensures
        s@ == "WASD per muoversi"@,
{
    "WASD per muoversi"
}

/// What the overlay system is to do this frame.
#[derive(Clone, Copy, Debug, PartialEq, Eq, Structural)]
pub enum PerfUiAction {
    Keep,
    Despawn,
    Spawn,
}

/// Decides the overlay's fate: nothing unless the toggle key was just
/// pressed; then despawn the overlay if one exists, else spawn one.
pub fn toggle(key_just_pressed: bool, overlay_exists: bool) -> (a: PerfUiAction)
    ensures
        a == (if !key_just_pressed {
            PerfUiAction::Keep
        } else if overlay_exists {
            PerfUiAction::Despawn
        } else {
            PerfUiAction::Spawn
        }),
{
    if !key_just_pressed {
        PerfUiAction::Keep
    } else if overlay_exists {
        PerfUiAction::Despawn
    } else {
        PerfUiAction::Spawn
    }
}

} // verus!
