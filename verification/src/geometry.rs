//! Sizes in logical points, and the rule that keeps the user interface as
//! large as its window.

use vstd::prelude::*;

verus! {

/// Width and height of a surface, in logical points.
#[derive(Clone, Copy, Debug, PartialEq, Eq, Structural)]
pub struct Dimensions {
    pub width: u32,
    pub height: u32,
}

/// The two sizes that one reconciliation compares: that of the root rectangle
/// of the user interface, and the inner size of the live window.
#[derive(Clone, Copy, Debug, PartialEq, Eq, Structural)]
pub struct Measurement {
    pub ui: Dimensions,
    pub window: Dimensions,
}

impl Measurement {
    /// The user interface and the window disagree in width or in height.
    pub open spec fn diverged(self) -> bool {
        self.ui.width != self.window.width || self.ui.height != self.window.height
    }
}

/// The size that has to be announced to the user interface after a
/// measurement: the window's, where the two sizes differ, and none where they
/// agree or where the user interface has no root rectangle yet.
pub open spec fn resize_for(measured: Option<Measurement>) -> Option<Dimensions> {
    match measured {
        Some(m) => if m.diverged() {
            Some(m.window)
        } else {
            None
        },
        None => None,
    }
}

/// Compares the size of the user interface with that of the window and
/// returns the resize to synthesize, if there is one.
///
/// Some platforms do not announce a resize among their events. The loop
/// therefore measures both sizes itself once per iteration; this is the whole
/// of that workaround.
pub fn reconcile_size(measured: Option<Measurement>) -> (resize: Option<Dimensions>)
    ensures
        resize == resize_for(measured),
{
    match measured {
        Some(m) => {
            if m.ui.width != m.window.width || m.ui.height != m.window.height {
                Some(m.window)
            } else {
                None
            }
        },
        None => None,
    }
}

} // verus!
