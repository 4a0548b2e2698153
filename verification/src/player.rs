//! Snapshot types for one remote player session, and the loop-mode cycle that
//! the loop command advances through.

use vstd::prelude::*;

verus! {

/// Playback state of a player, as last reported by the control bus.
#[derive(Clone, Copy, Debug, PartialEq, Eq, Structural)]
pub enum PlaybackState {
    Playing,
    Paused,
    Stopped,
}

/// Loop mode of a player. Players that do not expose loop control are
/// represented by `Option::None` around this type.
#[derive(Clone, Copy, Debug, PartialEq, Eq, Structural)]
pub enum LoopMode {
    NoLoop,
    Track,
    Playlist,
}

/// The fixed cycle the loop command steps through:
/// no loop -> track -> playlist -> no loop.
pub open spec fn next_loop_mode_spec(m: LoopMode) -> LoopMode {
    match m {
        LoopMode::NoLoop => LoopMode::Track,
        LoopMode::Track => LoopMode::Playlist,
        LoopMode::Playlist => LoopMode::NoLoop,
    }
}

/// Advance a player's loop mode one step along the fixed cycle.
pub fn next_loop_mode(m: LoopMode) -> (r: LoopMode)
    ensures
        r == next_loop_mode_spec(m),
{
    match m {
        LoopMode::NoLoop => LoopMode::Track,
        LoopMode::Track => LoopMode::Playlist,
        LoopMode::Playlist => LoopMode::NoLoop,
    }
}

/// Law: advancing the loop mode is a pure three-cycle. Three steps return to
/// the starting mode, and a single step never stays in place, so the three
/// modes are the only reachable states.
pub proof fn lemma_loop_mode_three_cycle(m: LoopMode)
    ensures
        next_loop_mode_spec(next_loop_mode_spec(next_loop_mode_spec(m))) == m,
        next_loop_mode_spec(m) != m,
{
}

} // verus!
