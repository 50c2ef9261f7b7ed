//! Defaults of the application's settings.

use vstd::prelude::*;

verus! {

/// Default of the `always_on_top` setting: the overlay window stays above
/// other windows, which is the whole point of an overlay.
pub fn default_always_on_top() -> (b: bool)
    ensures
        b,
{
    true
}

} // verus!
