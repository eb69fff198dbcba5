//! Player-adjustable settings, read afresh by every controller call.

use vstd::prelude::*;

verus! {

/// The three adjustable settings. None is clamped here: a control surface
/// that offers them keeps them within the ranges it wants.
#[derive(Clone, Copy, Debug, PartialEq, Eq)]
pub struct Settings {
    /// Turn speed factor; 1 turns one hundred degrees per second.
    pub turn_speed: u32,
    /// Walk speed in thousandths; 1000 walks four world units per second.
    pub walk_speed: u32,
    /// Camera field of view in thousandths of a degree.
    pub field_of_view: u32,
}

impl Default for Settings {
    /// Turn speed 1, walk speed 1.0 and a field of view of ninety degrees.
    fn default() -> (settings: Settings)
        ensures
            settings.turn_speed == 1,
            settings.walk_speed == 1000,
            settings.field_of_view == 90_000,
    {
        Settings { turn_speed: 1, walk_speed: 1000, field_of_view: 90_000 }
    }
}

/// The field of view the camera takes this frame: always the configured one,
/// without smoothing.
pub fn camera(settings: &Settings) -> (field_of_view: u32)
    ensures
        field_of_view == settings.field_of_view,
{
    settings.field_of_view
}

} // verus!
