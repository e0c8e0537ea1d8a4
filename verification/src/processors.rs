//! The enumerated settings of the built-in processors.

use vstd::prelude::*;

verus! {

/// Available oscillator waveform shapes.
#[derive(Debug, Clone, Copy, PartialEq, Eq, Structural)]
pub enum Waveform {
    Sine,
    Square,
    Saw,
    Triangle,
}

impl Default for Waveform {
    fn default() -> (w: Self)
        ensures
            w == Waveform::Sine,
    {
        Waveform::Sine
    }
}

/// The waveform of a rounded parameter index; out-of-range indices give
/// `Sine`.
pub open spec fn waveform_of(index: u32) -> Waveform {
    if index == 1 {
        Waveform::Square
    } else if index == 2 {
        Waveform::Saw
    } else if index == 3 {
        Waveform::Triangle
    } else {
        Waveform::Sine
    }
}

impl Waveform {
    /// Variant labels in declaration order.
    pub fn variants() -> (v: Vec<&'static str>)
        ensures
            v@.map_values(|s: &'static str| s@) == seq!["Sine"@, "Square"@, "Saw"@, "Triangle"@],
    {
        let v = vec!["Sine", "Square", "Saw", "Triangle"];
        assert(v@.map_values(|s: &'static str| s@) =~= seq!["Sine"@, "Square"@, "Saw"@, "Triangle"@]);
        v
    }

    /// Converts a parameter index, already rounded to the nearest integer
    /// and saturated into `u32`, to a `Waveform`.
    pub fn from_index(index: u32) -> (w: Self)
        ensures
            w == waveform_of(index),
    {
        match index {
            0 => Waveform::Sine,
            1 => Waveform::Square,
            2 => Waveform::Saw,
            3 => Waveform::Triangle,
            _ => Waveform::Sine,
        }
    }
}

/// Unified filter mode.
#[derive(Debug, Clone, Copy, PartialEq, Eq, Structural)]
pub enum UnifiedFilterMode {
    LowPass,
    HighPass,
    BandPass,
}

impl Default for UnifiedFilterMode {
    fn default() -> (m: Self)
        ensures
            m == UnifiedFilterMode::LowPass,
    {
        UnifiedFilterMode::LowPass
    }
}

impl UnifiedFilterMode {
    /// The mode of a parameter index; anything but 1 and 2 is low-pass.
    pub fn from_index(index: i32) -> (m: Self)
        ensures
            m == (if index == 1 {
                UnifiedFilterMode::HighPass
            } else if index == 2 {
                UnifiedFilterMode::BandPass
            } else {
                UnifiedFilterMode::LowPass
            }),
    {
        match index {
            1 => UnifiedFilterMode::HighPass,
            2 => UnifiedFilterMode::BandPass,
            _ => UnifiedFilterMode::LowPass,
        }
    }
}

/// Empty parameter struct for the passthrough processor.
#[derive(Debug, Clone, Copy, PartialEq, Eq, Structural)]
pub struct PassthroughParams;

/// Passthrough processor that does not modify the audio signal.
#[derive(Debug, Clone, Copy, PartialEq, Eq, Structural)]
pub struct PassthroughDsp;

/// Soft-clip saturator processor.
#[derive(Debug, Clone, Copy, PartialEq, Eq, Structural)]
pub struct SaturatorDsp;

} // verus!
