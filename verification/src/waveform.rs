//! Oscillator and LFO shapes, and their numeric selectors.

use vstd::prelude::*;

verus! {

/// The shape an audio oscillator produces.
#[derive(Clone, Copy, Debug, PartialEq, Eq, Structural)]
pub enum Waveform {
    Sine,
    Saw,
    Square,
    Triangle,
    Noise,
    Wavetable,
}

impl Waveform {
    /// The waveform a selector stands for; every selector outside `0..=5`
    /// stands for the sine.
    pub open spec fn of_index(index: int) -> Waveform {
        if index == 1 {
            Waveform::Saw
        } else if index == 2 {
            Waveform::Square
        } else if index == 3 {
            Waveform::Triangle
        } else if index == 4 {
            Waveform::Noise
        } else if index == 5 {
            Waveform::Wavetable
        } else {
            Waveform::Sine
        }
    }

    /// The selector of a waveform, in declaration order from zero.
    pub open spec fn index(self) -> int {
        match self {
            Waveform::Sine => 0,
            Waveform::Saw => 1,
            Waveform::Square => 2,
            Waveform::Triangle => 3,
            Waveform::Noise => 4,
            Waveform::Wavetable => 5,
        }
    }

    /// Decodes a selector that the host has already rounded to an integer.
    pub fn from_index(index: i32) -> (w: Waveform)
        ensures
            w == Waveform::of_index(index as int),
    {
        match index {
            1 => Waveform::Saw,
            2 => Waveform::Square,
            3 => Waveform::Triangle,
            4 => Waveform::Noise,
            5 => Waveform::Wavetable,
            _ => Waveform::Sine,
        }
    }

    /// Encodes the waveform as its selector.
    pub fn to_index(&self) -> (index: u8)
        ensures
            index as int == self.index(),
            index <= 5,
    {
        match self {
            Waveform::Sine => 0,
            Waveform::Saw => 1,
            Waveform::Square => 2,
            Waveform::Triangle => 3,
            Waveform::Noise => 4,
            Waveform::Wavetable => 5,
        }
    }

    /// Decoding the selector of a waveform gives the waveform back.
    pub proof fn index_round_trip(w: Waveform)
        ensures
            Waveform::of_index(w.index()) == w,
    {
    }
}

impl Default for Waveform {
    /// Oscillators start out as saws.
    fn default() -> (w: Waveform)
        ensures
            w == Waveform::Saw,
    {
        Waveform::Saw
    }
}

/// The shape of a low-frequency oscillator.
#[derive(Clone, Copy, Debug, PartialEq, Eq, Structural)]
pub enum LfoShape {
    Sine,
    Triangle,
    Square,
    Saw,
}

impl LfoShape {
    /// The shape a selector byte stands for; every byte above three stands
    /// for the sine.
    pub open spec fn of_selector(selector: u8) -> LfoShape {
        if selector == 1 {
            LfoShape::Triangle
        } else if selector == 2 {
            LfoShape::Square
        } else if selector == 3 {
            LfoShape::Saw
        } else {
            LfoShape::Sine
        }
    }

    /// Decodes a selector byte.
    pub fn from_selector(selector: u8) -> (shape: LfoShape)
        ensures
            shape == LfoShape::of_selector(selector),
    {
        match selector {
            1 => LfoShape::Triangle,
            2 => LfoShape::Square,
            3 => LfoShape::Saw,
            _ => LfoShape::Sine,
        }
    }
}

} // verus!
