//! Window-related decisions: the initial window size and the mapping
//! between the engine's fullscreen flag and the native library's
//! fullscreen states.

use vstd::prelude::*;

verus! {

/// The native library's window fullscreen states. `Exclusive` is the
/// native true-fullscreen mode; `Desktop` is borderless desktop fullscreen,
/// which this adapter never requests but can observe.
#[derive(Clone, Copy, Debug, PartialEq, Eq, Structural)]
pub enum FullscreenState {
    Off,
    Exclusive,
    Desktop,
}

/// The state to request for the engine's fullscreen flag: exclusive
/// fullscreen on `true`, windowed on `false`.
pub open spec fn spec_fullscreen_target(is_fullscreen: bool) -> FullscreenState {
    if is_fullscreen {
        FullscreenState::Exclusive
    } else {
        FullscreenState::Off
    }
}

/// Whether a native fullscreen state counts as fullscreen for the engine:
/// only the exclusive mode does.
pub open spec fn spec_is_fullscreen(state: FullscreenState) -> bool {
    state is Exclusive
}

/// Maps the engine's fullscreen flag onto the native state to request.
pub fn fullscreen_target(is_fullscreen: bool) -> (r: FullscreenState)
    ensures
        r == spec_fullscreen_target(is_fullscreen),
{
    if is_fullscreen {
        FullscreenState::Exclusive
    } else {
        FullscreenState::Off
    }
}

/// Reads a native fullscreen state back as the engine's fullscreen flag.
pub fn is_fullscreen_state(state: FullscreenState) -> (r: bool)
    ensures
        r == spec_is_fullscreen(state),
{
    match state {
        FullscreenState::Exclusive => true,
        _ => false,
    }
}

/// Setting the fullscreen flag and reading it back agree: the state that
/// `fullscreen_target` requests counts as fullscreen exactly when the flag
/// was `true`.
pub proof fn lemma_fullscreen_round_trip(is_fullscreen: bool)
    ensures
        spec_is_fullscreen(spec_fullscreen_target(is_fullscreen)) == is_fullscreen,
{
}

/// The initial window size: the frame size times the integer display scale,
/// per axis.
pub fn scaled_window_size(width: u32, height: u32, scale: u32) -> (r: (u32, u32))
    requires
        width * scale <= u32::MAX,
        height * scale <= u32::MAX,
    ensures
        r.0 == width * scale,
        r.1 == height * scale,
{
    (width * scale, height * scale)
}

} // verus!
