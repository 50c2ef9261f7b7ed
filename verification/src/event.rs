//! The events that the input backends hand to the window thread.

use vstd::prelude::*;

verus! {

/// Events the input backend(s) push to the window/render thread.
/// Platform-independent: every backend emits these.
#[derive(Debug, Clone, Copy, PartialEq, Eq, Structural)]
pub enum AppEvent {
    /// Any tracked key or button went down: this triggers the "hit" frame.
    KeyPressed,
    /// Any tracked key or button was released.
    KeyReleased,
}

} // verus!
