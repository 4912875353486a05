//! The easing curves a resize can follow, and how an animation is cut into
//! steps.

use crate::text::same_text;
use vstd::prelude::*;

verus! {

/// Number of steps an animation is cut into.
pub const ANIMATION_STEPS: u64 = 60;

/// Milliseconds a resize takes.
pub const RESIZE_DURATION_MS: u64 = 800;

/// The easing curves.
#[derive(Clone, Copy, Debug, PartialEq, Eq, Structural)]
pub enum Easing {
    InOutQuad,
    InOutQuart,
    InOutExpo,
    InOutBack,
}

/// The curve with the given name; the quadratic one for a name that is not
/// known.
pub open spec fn easing_named(name: Seq<char>) -> Easing {
    if name == "easeInOutQuart"@ {
        Easing::InOutQuart
    } else if name == "easeInOutExpo"@ {
        Easing::InOutExpo
    } else if name == "easeInOutBack"@ {
        Easing::InOutBack
    } else {
        Easing::InOutQuad
    }
}

impl Easing {
    /// The curve with the given name.
    pub fn from_name(name: &str) -> (easing: Easing)
        ensures
            easing == easing_named(name@),
    {
        if same_text(name, "easeInOutQuart") {
            Easing::InOutQuart
        } else if same_text(name, "easeInOutExpo") {
            Easing::InOutExpo
        } else if same_text(name, "easeInOutBack") {
            Easing::InOutBack
        } else {
            Easing::InOutQuad
        }
    }
}

/// Milliseconds between two steps of an animation that lasts `duration_ms`.
pub fn step_duration_ms(duration_ms: u64) -> (step: u64)
    ensures
        step == duration_ms / ANIMATION_STEPS,
{
    duration_ms / ANIMATION_STEPS
}

} // verus!
