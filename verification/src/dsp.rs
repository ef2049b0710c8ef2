//! Engine-side enums that the delay engine is configured with.

use vstd::prelude::*;

verus! {

/// Input source that feeds a delay line.
#[derive(Debug, Clone, Copy, PartialEq, Eq, Structural)]
pub enum InputMode {
    Off,
    Left,
    Right,
    LeftPlusRight,
    LeftMinusRight,
}

/// Rhythmic subdivision used when the delay time follows the host tempo.
#[derive(Debug, Clone, Copy, PartialEq, Eq, Structural)]
pub enum NoteValue {
    Whole,
    Half,
    HalfTriplet,
    Quarter,
    QuarterTriplet,
    Eighth,
    EighthTriplet,
    Sixteenth,
    SixteenthTriplet,
    ThirtySecond,
    ThirtySecondTriplet,
    SixtyFourth,
    HalfDotted,
    QuarterDotted,
    EighthDotted,
    SixteenthDotted,
    ThirtySecondDotted,
}

/// How the two delay channels feed each other.
#[derive(Debug, Clone, Copy, PartialEq, Eq, Structural)]
pub enum RoutingMode {
    Customized,
    Straight,
    Crossfeed,
    NinetyTen,
    TenNinety,
    PingPong,
    Pan,
    Rotate,
    PingPongR,
    PanRl,
    RotateR,
}

impl InputMode {
    /// Position of the variant in declaration order.
    pub open spec fn index_of(self) -> nat {
        match self {
            InputMode::Off => 0,
            InputMode::Left => 1,
            InputMode::Right => 2,
            InputMode::LeftPlusRight => 3,
            InputMode::LeftMinusRight => 4,
        }
    }

    /// How much of the (left, right) input signal feeds the delay line.
    pub open spec fn gains(self) -> (int, int) {
        match self {
            InputMode::Off => (0, 0),
            InputMode::Left => (1, 0),
            InputMode::Right => (0, 1),
            InputMode::LeftPlusRight => (1, 1),
            InputMode::LeftMinusRight => (1, -1),
        }
    }
}

impl NoteValue {
    /// Position of the variant in declaration order.
    pub open spec fn index_of(self) -> nat {
        match self {
            NoteValue::Whole => 0,
            NoteValue::Half => 1,
            NoteValue::HalfTriplet => 2,
            NoteValue::Quarter => 3,
            NoteValue::QuarterTriplet => 4,
            NoteValue::Eighth => 5,
            NoteValue::EighthTriplet => 6,
            NoteValue::Sixteenth => 7,
            NoteValue::SixteenthTriplet => 8,
            NoteValue::ThirtySecond => 9,
            NoteValue::ThirtySecondTriplet => 10,
            NoteValue::SixtyFourth => 11,
            NoteValue::HalfDotted => 12,
            NoteValue::QuarterDotted => 13,
            NoteValue::EighthDotted => 14,
            NoteValue::SixteenthDotted => 15,
            NoteValue::ThirtySecondDotted => 16,
        }
    }

    /// The note's length in 1/192 of a whole note (a triplet lasts 2/3 of
    /// the straight note, a dotted note 3/2 of it).
    pub open spec fn length(self) -> nat {
        match self {
            NoteValue::Whole => 192,
            NoteValue::Half => 96,
            NoteValue::HalfTriplet => 64,
            NoteValue::Quarter => 48,
            NoteValue::QuarterTriplet => 32,
            NoteValue::Eighth => 24,
            NoteValue::EighthTriplet => 16,
            NoteValue::Sixteenth => 12,
            NoteValue::SixteenthTriplet => 8,
            NoteValue::ThirtySecond => 6,
            NoteValue::ThirtySecondTriplet => 4,
            NoteValue::SixtyFourth => 3,
            NoteValue::HalfDotted => 144,
            NoteValue::QuarterDotted => 72,
            NoteValue::EighthDotted => 36,
            NoteValue::SixteenthDotted => 18,
            NoteValue::ThirtySecondDotted => 9,
        }
    }
}

impl RoutingMode {
    /// Position of the variant in declaration order.
    pub open spec fn index_of(self) -> nat {
        match self {
            RoutingMode::Customized => 0,
            RoutingMode::Straight => 1,
            RoutingMode::Crossfeed => 2,
            RoutingMode::NinetyTen => 3,
            RoutingMode::TenNinety => 4,
            RoutingMode::PingPong => 5,
            RoutingMode::Pan => 6,
            RoutingMode::Rotate => 7,
            RoutingMode::PingPongR => 8,
            RoutingMode::PanRl => 9,
            RoutingMode::RotateR => 10,
        }
    }
}

} // verus!
