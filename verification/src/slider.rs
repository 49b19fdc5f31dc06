//! A slider's range, the value it has selected, and the order in which its
//! systems run.
//!
//! Where the square sits and how wide the bar is are drawn from these
//! values; the bar's colours and height belong to the drawing.

use vstd::prelude::*;

verus! {

/// The range a slider lets the user pick from.
#[derive(Debug, Clone, Copy, PartialEq, Eq, Structural)]
pub struct Slider {
    /// The minimum value you can slide to
    pub min: i64,
    /// The maximum value you can slide to
    pub max: i64,
}

impl Default for Slider {
    /// A slider from 0 to 100.
    fn default() -> (s: Self)
        ensures
            s.min == 0,
            s.max == 100,
    {
        Slider { min: 0, max: 100 }
    }
}

/// The value the slider curently has selected
#[derive(Debug, Clone, Copy, PartialEq, Eq, PartialOrd, Ord, Structural)]
pub struct SliderValue(i64);

impl SliderValue {
    /// A slider value that has `value` selected.
    pub fn new(value: i64) -> (s: Self)
        ensures
            s.spec_value() == value,
    {
        SliderValue(value)
    }

    /// The selected value, as a number.
    pub closed spec fn spec_value(self) -> int {
        self.0 as int
    }

    /// Gets the value currently selected
    pub fn value(&self) -> (v: i64)
        ensures
            v == self.spec_value(),
    {
        self.0
    }

    /// Sets the value currently selected
    ///
    /// Updating this will change the UI
    pub fn set_value(&mut self, new_val: i64)
        ensures
            final(self).spec_value() == new_val,
    {
        self.0 = new_val;
    }
}

impl Default for SliderValue {
    fn default() -> (s: Self)
        ensures
            s.spec_value() == 0,
    {
        SliderValue(0)
    }
}

/// The steps a slider goes through each frame, in order: creating its
/// parts, reading the user's interaction, then redrawing it.
#[derive(Debug, Hash, PartialEq, Eq, Clone, Copy, Structural)]
pub enum SliderUiSystemSet {
    /// apply_deferred
    ApplyDeferredA,
    /// Make sure you add any slider components before this set!
    ///
    /// Sets up any slider components added.
    AddSliderBundle,
    /// apply_deferred
    ApplyDeferredB,
    /// Reads the user's interaction with the sliders.
    SliderInteraction,
    /// apply_deferred
    ApplyDeferredC,
    /// Redraws the sliders whose value changed.
    UpdateSliderDisplay,
}

} // verus!
