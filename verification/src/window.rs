//! Lifecycle of the single display surface, and the size it is given.

use vstd::prelude::*;

verus! {

/// Where the display surface stands in its lifecycle.
#[derive(Clone, Copy, PartialEq, Eq, Debug, Structural)]
pub enum WindowState {
    /// No surface has been created.
    Absent,
    /// The surface exists but has not signalled that it can take content.
    Created,
    /// The surface has signalled readiness.
    Ready,
}

impl WindowState {
    /// Position in the lifecycle: a state is never followed by one of lower
    /// rank.
    pub open spec fn rank(self) -> nat {
        match self {
            WindowState::Absent => 0,
            WindowState::Created => 1,
            WindowState::Ready => 2,
        }
    }

    /// The state once the surface has been created.
    pub open spec fn created_spec(self) -> WindowState {
        if self is Absent {
            WindowState::Created
        } else {
            self
        }
    }

    /// The state once a readiness signal has arrived. Without a surface the
    /// signal is dropped.
    pub open spec fn signalled_spec(self) -> WindowState {
        if self is Created {
            WindowState::Ready
        } else {
            self
        }
    }

    /// Records that the surface has been created.
    #[verifier::when_used_as_spec(created_spec)]
    pub fn created(self) -> (r: WindowState)
        ensures
            r == self.created_spec(),
    {
        match self {
            WindowState::Absent => WindowState::Created,
            other => other,
        }
    }

    /// Records a readiness signal.
    #[verifier::when_used_as_spec(signalled_spec)]
    pub fn signalled(self) -> (r: WindowState)
        ensures
            r == self.signalled_spec(),
    {
        match self {
            WindowState::Created => WindowState::Ready,
            other => other,
        }
    }

    /// Whether the surface may be shown, resized, centred or given content.
    pub fn is_ready(self) -> (r: bool)
        ensures
            r == (self is Ready),
    {
        match self {
            WindowState::Ready => true,
            _ => false,
        }
    }
}

/// The lifecycle only moves forward, and only a readiness signal on an
/// existing surface makes it ready.
pub proof fn lemma_lifecycle_moves_forward(state: WindowState)
    ensures
        state.rank() <= state.created().rank(),
        state.rank() <= state.signalled().rank(),
        !(state.created() is Absent),
        state.created() is Ready <==> state is Ready,
        state.signalled() is Ready <==> !(state is Absent),
{
}

/// What the surface adds to each dimension of its content for its own chrome.
pub const MARGIN: i32 = 40;

/// A size in physical pixels.
#[derive(Clone, Copy, PartialEq, Eq, Debug, Structural)]
pub struct WindowSize {
    pub width: i32,
    pub height: i32,
}

/// The size of the surface for content of the given size.
pub fn outer_size(width: i32, height: i32) -> (r: WindowSize)
    requires
        width + MARGIN <= i32::MAX,
        height + MARGIN <= i32::MAX,
    ensures
        r.width == width + MARGIN,
        r.height == height + MARGIN,
{
    WindowSize { width: width + MARGIN, height: height + MARGIN }
}

} // verus!
