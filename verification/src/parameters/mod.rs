//! Host-facing parameter model of the mono delay.
//!
//! * The enums that the host shows as choice parameters, with their stable
//!   variant indices and their mapping to the engine enums in [`crate::dsp`].
//! * The display texts of the on/off parameters.
//! * [`ParamSnapshot`], a complete set of plain parameter values, and the two
//!   places it is kept: the A/B bank ([`AbSnapshots`]) and the undo/redo
//!   history ([`UndoRedoStack`]).

use vstd::prelude::*;

use crate::dsp;
use crate::F32Bits;

verus! {

// ───────────────────────────────────────────────────────────────────────────
// Choice parameters
// ───────────────────────────────────────────────────────────────────────────

/// Input source selection of a delay line.
#[derive(Debug, Clone, Copy, PartialEq, Eq, Structural)]
pub enum InputModeParam {
    Off,
    Left,
    Right,
    LeftPlusRight,
    LeftMinusRight,
}

/// Number of [`InputModeParam`] variants.
pub const INPUT_MODE_COUNT: usize = 5;

impl InputModeParam {
    /// Position of the variant in declaration order.
    pub open spec fn index_of(self) -> nat {
        match self {
            InputModeParam::Off => 0,
            InputModeParam::Left => 1,
            InputModeParam::Right => 2,
            InputModeParam::LeftPlusRight => 3,
            InputModeParam::LeftMinusRight => 4,
        }
    }

    /// The variant at position `i` in declaration order (`i < 5`).
    pub open spec fn at_index(i: nat) -> InputModeParam {
        if i == 0 {
            InputModeParam::Off
        } else if i == 1 {
            InputModeParam::Left
        } else if i == 2 {
            InputModeParam::Right
        } else if i == 3 {
            InputModeParam::LeftPlusRight
        } else {
            InputModeParam::LeftMinusRight
        }
    }

    /// The stable index of the variant, as the host and presets store it.
    pub fn to_index(self) -> (r: usize)
        ensures
            r == self.index_of(),
            r < INPUT_MODE_COUNT,
    {
        match self {
            InputModeParam::Off => 0,
            InputModeParam::Left => 1,
            InputModeParam::Right => 2,
            InputModeParam::LeftPlusRight => 3,
            InputModeParam::LeftMinusRight => 4,
        }
    }

    /// The variant with the given stable index.
    pub fn from_index(index: usize) -> (r: InputModeParam)
        requires
            index < INPUT_MODE_COUNT,
        ensures
            r == InputModeParam::at_index(index as nat),
            r.index_of() == index,
    {
        match index {
            0 => InputModeParam::Off,
            1 => InputModeParam::Left,
            2 => InputModeParam::Right,
            3 => InputModeParam::LeftPlusRight,
            _ => InputModeParam::LeftMinusRight,
        }
    }
}

/// The engine input mode that a host-facing input mode selects.
pub open spec fn input_mode_to_dsp(val: InputModeParam) -> dsp::InputMode {
    match val {
        InputModeParam::Off => dsp::InputMode::Off,
        InputModeParam::Left => dsp::InputMode::Left,
        InputModeParam::Right => dsp::InputMode::Right,
        InputModeParam::LeftPlusRight => dsp::InputMode::LeftPlusRight,
        InputModeParam::LeftMinusRight => dsp::InputMode::LeftMinusRight,
    }
}

impl From<InputModeParam> for dsp::InputMode {
    fn from(val: InputModeParam) -> (r: Self)
        ensures
            r.index_of() == val.index_of(),
    {
        match val {
            InputModeParam::Off => dsp::InputMode::Off,
            InputModeParam::Left => dsp::InputMode::Left,
            InputModeParam::Right => dsp::InputMode::Right,
            InputModeParam::LeftPlusRight => dsp::InputMode::LeftPlusRight,
            InputModeParam::LeftMinusRight => dsp::InputMode::LeftMinusRight,
        }
    }
}

impl vstd::std_specs::convert::FromSpecImpl<InputModeParam> for dsp::InputMode {
    open spec fn obeys_from_spec() -> bool {
        true
    }

    open spec fn from_spec(val: InputModeParam) -> Self {
        input_mode_to_dsp(val)
    }
}

/// Index round trip of the input modes: every variant is found again from
/// its index, and every index below the variant count names the variant
/// that carries it.
pub proof fn lemma_input_mode_index_round_trip(m: InputModeParam, i: nat)
    ensures
        InputModeParam::at_index(m.index_of()) == m,
        i < INPUT_MODE_COUNT ==> InputModeParam::at_index(i).index_of() == i,
{
}

/// Musical note value for tempo-synced delay times. Triplet (`T`) variants are 2/3 of the
/// straight value and dotted variants 3/2 of it; the order is the host and preset index order.
#[derive(Debug, Clone, Copy, PartialEq, Eq, Structural)]
pub enum NoteValueParam {
    Whole,
    Half,
    HalfTriplet,
    Quarter,
    QuarterTriplet,
    Eighth,
    EighthTriplet,
    Sixteenth,
    SixteenthTriplet,
    ThirtySecond,
    ThirtySecondTriplet,
    SixtyFourth,
    HalfDotted,
    QuarterDotted,
    EighthDotted,
    SixteenthDotted,
    ThirtySecondDotted,
}

/// Number of [`NoteValueParam`] variants.
pub const NOTE_VALUE_COUNT: usize = 17;

impl NoteValueParam {
    /// Position of the variant in declaration order.
    pub open spec fn index_of(self) -> nat {
        match self {
            NoteValueParam::Whole => 0,
            NoteValueParam::Half => 1,
            NoteValueParam::HalfTriplet => 2,
            NoteValueParam::Quarter => 3,
            NoteValueParam::QuarterTriplet => 4,
            NoteValueParam::Eighth => 5,
            NoteValueParam::EighthTriplet => 6,
            NoteValueParam::Sixteenth => 7,
            NoteValueParam::SixteenthTriplet => 8,
            NoteValueParam::ThirtySecond => 9,
            NoteValueParam::ThirtySecondTriplet => 10,
            NoteValueParam::SixtyFourth => 11,
            NoteValueParam::HalfDotted => 12,
            NoteValueParam::QuarterDotted => 13,
            NoteValueParam::EighthDotted => 14,
            NoteValueParam::SixteenthDotted => 15,
            NoteValueParam::ThirtySecondDotted => 16,
        }
    }

    /// The variant at position `i` in declaration order (`i < 17`).
    pub open spec fn at_index(i: nat) -> NoteValueParam {
        if i == 0 {
            NoteValueParam::Whole
        } else if i == 1 {
            NoteValueParam::Half
        } else if i == 2 {
            NoteValueParam::HalfTriplet
        } else if i == 3 {
            NoteValueParam::Quarter
        } else if i == 4 {
            NoteValueParam::QuarterTriplet
        } else if i == 5 {
            NoteValueParam::Eighth
        } else if i == 6 {
            NoteValueParam::EighthTriplet
        } else if i == 7 {
            NoteValueParam::Sixteenth
        } else if i == 8 {
            NoteValueParam::SixteenthTriplet
        } else if i == 9 {
            NoteValueParam::ThirtySecond
        } else if i == 10 {
            NoteValueParam::ThirtySecondTriplet
        } else if i == 11 {
            NoteValueParam::SixtyFourth
        } else if i == 12 {
            NoteValueParam::HalfDotted
        } else if i == 13 {
            NoteValueParam::QuarterDotted
        } else if i == 14 {
            NoteValueParam::EighthDotted
        } else if i == 15 {
            NoteValueParam::SixteenthDotted
        } else {
            NoteValueParam::ThirtySecondDotted
        }
    }

    /// The stable index of the variant, as the host and presets store it.
    pub fn to_index(self) -> (r: usize)
        ensures
            r == self.index_of(),
            r < NOTE_VALUE_COUNT,
    {
        match self {
            NoteValueParam::Whole => 0,
            NoteValueParam::Half => 1,
            NoteValueParam::HalfTriplet => 2,
            NoteValueParam::Quarter => 3,
            NoteValueParam::QuarterTriplet => 4,
            NoteValueParam::Eighth => 5,
            NoteValueParam::EighthTriplet => 6,
            NoteValueParam::Sixteenth => 7,
            NoteValueParam::SixteenthTriplet => 8,
            NoteValueParam::ThirtySecond => 9,
            NoteValueParam::ThirtySecondTriplet => 10,
            NoteValueParam::SixtyFourth => 11,
            NoteValueParam::HalfDotted => 12,
            NoteValueParam::QuarterDotted => 13,
            NoteValueParam::EighthDotted => 14,
            NoteValueParam::SixteenthDotted => 15,
            NoteValueParam::ThirtySecondDotted => 16,
        }
    }

    /// The variant with the given stable index.
    pub fn from_index(index: usize) -> (r: NoteValueParam)
        requires
            index < NOTE_VALUE_COUNT,
        ensures
            r == NoteValueParam::at_index(index as nat),
            r.index_of() == index,
    {
        match index {
            0 => NoteValueParam::Whole,
            1 => NoteValueParam::Half,
            2 => NoteValueParam::HalfTriplet,
            3 => NoteValueParam::Quarter,
            4 => NoteValueParam::QuarterTriplet,
            5 => NoteValueParam::Eighth,
            6 => NoteValueParam::EighthTriplet,
            7 => NoteValueParam::Sixteenth,
            8 => NoteValueParam::SixteenthTriplet,
            9 => NoteValueParam::ThirtySecond,
            10 => NoteValueParam::ThirtySecondTriplet,
            11 => NoteValueParam::SixtyFourth,
            12 => NoteValueParam::HalfDotted,
            13 => NoteValueParam::QuarterDotted,
            14 => NoteValueParam::EighthDotted,
            15 => NoteValueParam::SixteenthDotted,
            _ => NoteValueParam::ThirtySecondDotted,
        }
    }
}

/// The engine note value that a host-facing note value selects: the variant of the same name.
pub open spec fn note_value_to_dsp(val: NoteValueParam) -> dsp::NoteValue {
    match val {
        NoteValueParam::Whole => dsp::NoteValue::Whole,
        NoteValueParam::Half => dsp::NoteValue::Half,
        NoteValueParam::HalfTriplet => dsp::NoteValue::HalfTriplet,
        NoteValueParam::Quarter => dsp::NoteValue::Quarter,
        NoteValueParam::QuarterTriplet => dsp::NoteValue::QuarterTriplet,
        NoteValueParam::Eighth => dsp::NoteValue::Eighth,
        NoteValueParam::EighthTriplet => dsp::NoteValue::EighthTriplet,
        NoteValueParam::Sixteenth => dsp::NoteValue::Sixteenth,
        NoteValueParam::SixteenthTriplet => dsp::NoteValue::SixteenthTriplet,
        NoteValueParam::ThirtySecond => dsp::NoteValue::ThirtySecond,
        NoteValueParam::ThirtySecondTriplet => dsp::NoteValue::ThirtySecondTriplet,
        NoteValueParam::SixtyFourth => dsp::NoteValue::SixtyFourth,
        NoteValueParam::HalfDotted => dsp::NoteValue::HalfDotted,
        NoteValueParam::QuarterDotted => dsp::NoteValue::QuarterDotted,
        NoteValueParam::EighthDotted => dsp::NoteValue::EighthDotted,
        NoteValueParam::SixteenthDotted => dsp::NoteValue::SixteenthDotted,
        NoteValueParam::ThirtySecondDotted => dsp::NoteValue::ThirtySecondDotted,
    }
}

impl From<NoteValueParam> for dsp::NoteValue {
    fn from(val: NoteValueParam) -> (r: Self)
        ensures
            r.index_of() == val.index_of(),
            r.length() == val.length(),
    {
        match val {
            NoteValueParam::Whole => dsp::NoteValue::Whole,
            NoteValueParam::Half => dsp::NoteValue::Half,
            NoteValueParam::HalfTriplet => dsp::NoteValue::HalfTriplet,
            NoteValueParam::Quarter => dsp::NoteValue::Quarter,
            NoteValueParam::QuarterTriplet => dsp::NoteValue::QuarterTriplet,
            NoteValueParam::Eighth => dsp::NoteValue::Eighth,
            NoteValueParam::EighthTriplet => dsp::NoteValue::EighthTriplet,
            NoteValueParam::Sixteenth => dsp::NoteValue::Sixteenth,
            NoteValueParam::SixteenthTriplet => dsp::NoteValue::SixteenthTriplet,
            NoteValueParam::ThirtySecond => dsp::NoteValue::ThirtySecond,
            NoteValueParam::ThirtySecondTriplet => dsp::NoteValue::ThirtySecondTriplet,
            NoteValueParam::SixtyFourth => dsp::NoteValue::SixtyFourth,
            NoteValueParam::HalfDotted => dsp::NoteValue::HalfDotted,
            NoteValueParam::QuarterDotted => dsp::NoteValue::QuarterDotted,
            NoteValueParam::EighthDotted => dsp::NoteValue::EighthDotted,
            NoteValueParam::SixteenthDotted => dsp::NoteValue::SixteenthDotted,
            NoteValueParam::ThirtySecondDotted => dsp::NoteValue::ThirtySecondDotted,
        }
    }
}

impl vstd::std_specs::convert::FromSpecImpl<NoteValueParam> for dsp::NoteValue {
    open spec fn obeys_from_spec() -> bool {
        true
    }

    open spec fn from_spec(val: NoteValueParam) -> Self {
        note_value_to_dsp(val)
    }
}

/// Index round trip of [`NoteValueParam`]: every variant is found again from
/// its index, and every index below the variant count names the variant
/// that carries it.
pub proof fn lemma_note_value_index_round_trip(m: NoteValueParam, i: nat)
    ensures
        NoteValueParam::at_index(m.index_of()) == m,
        i < NOTE_VALUE_COUNT ==> NoteValueParam::at_index(i).index_of() == i,
{
}

impl NoteValueParam {
    /// The length of the note in 1/192 of a whole note: a triplet lasts 2/3
    /// of the straight note and a dotted note 3/2 of it.
    pub open spec fn length(self) -> nat {
        match self {
            NoteValueParam::Whole => 192,
            NoteValueParam::Half => 96,
            NoteValueParam::HalfTriplet => 64,
            NoteValueParam::Quarter => 48,
            NoteValueParam::QuarterTriplet => 32,
            NoteValueParam::Eighth => 24,
            NoteValueParam::EighthTriplet => 16,
            NoteValueParam::Sixteenth => 12,
            NoteValueParam::SixteenthTriplet => 8,
            NoteValueParam::ThirtySecond => 6,
            NoteValueParam::ThirtySecondTriplet => 4,
            NoteValueParam::SixtyFourth => 3,
            NoteValueParam::HalfDotted => 144,
            NoteValueParam::QuarterDotted => 72,
            NoteValueParam::EighthDotted => 36,
            NoteValueParam::SixteenthDotted => 18,
            NoteValueParam::ThirtySecondDotted => 9,
        }
    }

    /// Whether the note is dotted.
    pub open spec fn is_dotted(self) -> bool {
        match self {
            NoteValueParam::HalfDotted | NoteValueParam::QuarterDotted
            | NoteValueParam::EighthDotted | NoteValueParam::SixteenthDotted
            | NoteValueParam::ThirtySecondDotted => true,
            _ => false,
        }
    }
}

/// The engine plays the note the user picked: the engine note sits at the
/// same position in its declaration and lasts the same length as the host
/// note.
pub proof fn lemma_note_value_to_dsp_keeps_note(v: NoteValueParam)
    ensures
        note_value_to_dsp(v).index_of() == v.index_of(),
        note_value_to_dsp(v).length() == v.length(),
{
}

/// No two host notes last the same, so no two reach the same engine note.
pub proof fn lemma_note_value_to_dsp_injective(v: NoteValueParam, w: NoteValueParam)
    ensures
        v.length() == w.length() ==> v == w,
        note_value_to_dsp(v) == note_value_to_dsp(w) ==> v == w,
{
}

/// Triplets last 2/3 of the straight note, dotted notes 3/2 of it.
pub proof fn lemma_note_lengths()
    ensures
        3 * NoteValueParam::HalfTriplet.length() == 2 * NoteValueParam::Half.length(),
        3 * NoteValueParam::QuarterTriplet.length() == 2 * NoteValueParam::Quarter.length(),
        3 * NoteValueParam::EighthTriplet.length() == 2 * NoteValueParam::Eighth.length(),
        3 * NoteValueParam::SixteenthTriplet.length() == 2 * NoteValueParam::Sixteenth.length(),
        3 * NoteValueParam::ThirtySecondTriplet.length() == 2
            * NoteValueParam::ThirtySecond.length(),
        2 * NoteValueParam::HalfDotted.length() == 3 * NoteValueParam::Half.length(),
        2 * NoteValueParam::QuarterDotted.length() == 3 * NoteValueParam::Quarter.length(),
        2 * NoteValueParam::EighthDotted.length() == 3 * NoteValueParam::Eighth.length(),
        2 * NoteValueParam::SixteenthDotted.length() == 3 * NoteValueParam::Sixteenth.length(),
        2 * NoteValueParam::ThirtySecondDotted.length() == 3
            * NoteValueParam::ThirtySecond.length(),
        2 * NoteValueParam::Half.length() == NoteValueParam::Whole.length(),
        2 * NoteValueParam::Quarter.length() == NoteValueParam::Half.length(),
        2 * NoteValueParam::Eighth.length() == NoteValueParam::Quarter.length(),
        2 * NoteValueParam::Sixteenth.length() == NoteValueParam::Eighth.length(),
        2 * NoteValueParam::ThirtySecond.length() == NoteValueParam::Sixteenth.length(),
        2 * NoteValueParam::SixtyFourth.length() == NoteValueParam::ThirtySecond.length(),
{
}

/// The stable note indices: the straight and triplet notes come first, from
/// longest to shortest (indices 0 to 11), then the dotted notes, from
/// longest to shortest (indices 12 to 16).
pub proof fn lemma_note_index_order()
    ensures
        forall|i: nat, j: nat|
            0 <= i < j < 12 ==> #[trigger] NoteValueParam::at_index(i).length()
                > #[trigger] NoteValueParam::at_index(j).length(),
        forall|i: nat, j: nat|
            12 <= i < j < NOTE_VALUE_COUNT ==> #[trigger] NoteValueParam::at_index(i).length()
                > #[trigger] NoteValueParam::at_index(j).length(),
        forall|i: nat| 0 <= i < 12 ==> !(#[trigger] NoteValueParam::at_index(i)).is_dotted(),
        forall|i: nat|
            12 <= i < NOTE_VALUE_COUNT ==> (#[trigger] NoteValueParam::at_index(i)).is_dotted(),
{
}

/// How the two delay channels feed each other.
#[derive(Debug, Clone, Copy, PartialEq, Eq, Structural)]
pub enum RoutingModeParam {
    Customized,
    Straight,
    Crossfeed,
    NinetyTen,
    TenNinety,
    PingPong,
    Pan,
    Rotate,
    PingPongR,
    PanRl,
    RotateR,
}

/// Number of [`RoutingModeParam`] variants.
pub const ROUTING_MODE_COUNT: usize = 11;

impl RoutingModeParam {
    /// Position of the variant in declaration order.
    pub open spec fn index_of(self) -> nat {
        match self {
            RoutingModeParam::Customized => 0,
            RoutingModeParam::Straight => 1,
            RoutingModeParam::Crossfeed => 2,
            RoutingModeParam::NinetyTen => 3,
            RoutingModeParam::TenNinety => 4,
            RoutingModeParam::PingPong => 5,
            RoutingModeParam::Pan => 6,
            RoutingModeParam::Rotate => 7,
            RoutingModeParam::PingPongR => 8,
            RoutingModeParam::PanRl => 9,
            RoutingModeParam::RotateR => 10,
        }
    }

    /// The variant at position `i` in declaration order (`i < 11`).
    pub open spec fn at_index(i: nat) -> RoutingModeParam {
        if i == 0 {
            RoutingModeParam::Customized
        } else if i == 1 {
            RoutingModeParam::Straight
        } else if i == 2 {
            RoutingModeParam::Crossfeed
        } else if i == 3 {
            RoutingModeParam::NinetyTen
        } else if i == 4 {
            RoutingModeParam::TenNinety
        } else if i == 5 {
            RoutingModeParam::PingPong
        } else if i == 6 {
            RoutingModeParam::Pan
        } else if i == 7 {
            RoutingModeParam::Rotate
        } else if i == 8 {
            RoutingModeParam::PingPongR
        } else if i == 9 {
            RoutingModeParam::PanRl
        } else {
            RoutingModeParam::RotateR
        }
    }

    /// The stable index of the variant, as the host and presets store it.
    pub fn to_index(self) -> (r: usize)
        ensures
            r == self.index_of(),
            r < ROUTING_MODE_COUNT,
    {
        match self {
            RoutingModeParam::Customized => 0,
            RoutingModeParam::Straight => 1,
            RoutingModeParam::Crossfeed => 2,
            RoutingModeParam::NinetyTen => 3,
            RoutingModeParam::TenNinety => 4,
            RoutingModeParam::PingPong => 5,
            RoutingModeParam::Pan => 6,
            RoutingModeParam::Rotate => 7,
            RoutingModeParam::PingPongR => 8,
            RoutingModeParam::PanRl => 9,
            RoutingModeParam::RotateR => 10,
        }
    }

    /// The variant with the given stable index.
    pub fn from_index(index: usize) -> (r: RoutingModeParam)
        requires
            index < ROUTING_MODE_COUNT,
        ensures
            r == RoutingModeParam::at_index(index as nat),
            r.index_of() == index,
    {
        match index {
            0 => RoutingModeParam::Customized,
            1 => RoutingModeParam::Straight,
            2 => RoutingModeParam::Crossfeed,
            3 => RoutingModeParam::NinetyTen,
            4 => RoutingModeParam::TenNinety,
            5 => RoutingModeParam::PingPong,
            6 => RoutingModeParam::Pan,
            7 => RoutingModeParam::Rotate,
            8 => RoutingModeParam::PingPongR,
            9 => RoutingModeParam::PanRl,
            _ => RoutingModeParam::RotateR,
        }
    }
}

/// The engine routing mode that a host-facing routing mode selects: the variant of the same name.
pub open spec fn routing_mode_to_dsp(val: RoutingModeParam) -> dsp::RoutingMode {
    match val {
        RoutingModeParam::Customized => dsp::RoutingMode::Customized,
        RoutingModeParam::Straight => dsp::RoutingMode::Straight,
        RoutingModeParam::Crossfeed => dsp::RoutingMode::Crossfeed,
        RoutingModeParam::NinetyTen => dsp::RoutingMode::NinetyTen,
        RoutingModeParam::TenNinety => dsp::RoutingMode::TenNinety,
        RoutingModeParam::PingPong => dsp::RoutingMode::PingPong,
        RoutingModeParam::Pan => dsp::RoutingMode::Pan,
        RoutingModeParam::Rotate => dsp::RoutingMode::Rotate,
        RoutingModeParam::PingPongR => dsp::RoutingMode::PingPongR,
        RoutingModeParam::PanRl => dsp::RoutingMode::PanRl,
        RoutingModeParam::RotateR => dsp::RoutingMode::RotateR,
    }
}

impl From<RoutingModeParam> for dsp::RoutingMode {
    fn from(val: RoutingModeParam) -> (r: Self)
        ensures
            r.index_of() == val.index_of(),
    {
        match val {
            RoutingModeParam::Customized => dsp::RoutingMode::Customized,
            RoutingModeParam::Straight => dsp::RoutingMode::Straight,
            RoutingModeParam::Crossfeed => dsp::RoutingMode::Crossfeed,
            RoutingModeParam::NinetyTen => dsp::RoutingMode::NinetyTen,
            RoutingModeParam::TenNinety => dsp::RoutingMode::TenNinety,
            RoutingModeParam::PingPong => dsp::RoutingMode::PingPong,
            RoutingModeParam::Pan => dsp::RoutingMode::Pan,
            RoutingModeParam::Rotate => dsp::RoutingMode::Rotate,
            RoutingModeParam::PingPongR => dsp::RoutingMode::PingPongR,
            RoutingModeParam::PanRl => dsp::RoutingMode::PanRl,
            RoutingModeParam::RotateR => dsp::RoutingMode::RotateR,
        }
    }
}

impl vstd::std_specs::convert::FromSpecImpl<RoutingModeParam> for dsp::RoutingMode {
    open spec fn obeys_from_spec() -> bool {
        true
    }

    open spec fn from_spec(val: RoutingModeParam) -> Self {
        routing_mode_to_dsp(val)
    }
}

/// Index round trip of [`RoutingModeParam`]: every variant is found again from
/// its index, and every index below the variant count names the variant
/// that carries it.
pub proof fn lemma_routing_mode_index_round_trip(m: RoutingModeParam, i: nat)
    ensures
        RoutingModeParam::at_index(m.index_of()) == m,
        i < ROUTING_MODE_COUNT ==> RoutingModeParam::at_index(i).index_of() == i,
{
}

/// Oversampling quality of the engine: `Off` runs it at the host rate, the others at a
/// multiple of it.
#[derive(Debug, Clone, Copy, PartialEq, Eq, Structural)]
pub enum OversamplingParam {
    Off,
    TwoX,
    FourX,
    SixX,
    EightX,
}

/// Number of [`OversamplingParam`] variants.
pub const OVERSAMPLING_COUNT: usize = 5;

impl OversamplingParam {
    /// Position of the variant in declaration order.
    pub open spec fn index_of(self) -> nat {
        match self {
            OversamplingParam::Off => 0,
            OversamplingParam::TwoX => 1,
            OversamplingParam::FourX => 2,
            OversamplingParam::SixX => 3,
            OversamplingParam::EightX => 4,
        }
    }

    /// The variant at position `i` in declaration order (`i < 5`).
    pub open spec fn at_index(i: nat) -> OversamplingParam {
        if i == 0 {
            OversamplingParam::Off
        } else if i == 1 {
            OversamplingParam::TwoX
        } else if i == 2 {
            OversamplingParam::FourX
        } else if i == 3 {
            OversamplingParam::SixX
        } else {
            OversamplingParam::EightX
        }
    }

    /// The stable index of the variant, as the host and presets store it.
    pub fn to_index(self) -> (r: usize)
        ensures
            r == self.index_of(),
            r < OVERSAMPLING_COUNT,
    {
        match self {
            OversamplingParam::Off => 0,
            OversamplingParam::TwoX => 1,
            OversamplingParam::FourX => 2,
            OversamplingParam::SixX => 3,
            OversamplingParam::EightX => 4,
        }
    }

    /// The variant with the given stable index.
    pub fn from_index(index: usize) -> (r: OversamplingParam)
        requires
            index < OVERSAMPLING_COUNT,
        ensures
            r == OversamplingParam::at_index(index as nat),
            r.index_of() == index,
    {
        match index {
            0 => OversamplingParam::Off,
            1 => OversamplingParam::TwoX,
            2 => OversamplingParam::FourX,
            3 => OversamplingParam::SixX,
            _ => OversamplingParam::EightX,
        }
    }
}

/// Index round trip of [`OversamplingParam`]: every variant is found again from
/// its index, and every index below the variant count names the variant
/// that carries it.
pub proof fn lemma_oversampling_index_round_trip(m: OversamplingParam, i: nat)
    ensures
        OversamplingParam::at_index(m.index_of()) == m,
        i < OVERSAMPLING_COUNT ==> OversamplingParam::at_index(i).index_of() == i,
{
}

/// Largest engine rate multiplier that [`OversamplingParam`] can select; the
/// engine reserves its buffers for this rate.
pub const MAX_OVERSAMPLING_FACTOR: usize = 8;

impl OversamplingParam {
    /// The engine sample-rate multiplier that the variant selects.
    pub open spec fn factor_of(self) -> nat {
        match self {
            OversamplingParam::Off => 1,
            OversamplingParam::TwoX => 2,
            OversamplingParam::FourX => 4,
            OversamplingParam::SixX => 6,
            OversamplingParam::EightX => 8,
        }
    }

    /// Convert the enum into the engine sample-rate multiplier.
    pub fn factor(self) -> (r: usize)
        ensures
            r == self.factor_of(),
            1 <= r <= MAX_OVERSAMPLING_FACTOR,
    {
        match self {
            OversamplingParam::Off => 1,
            OversamplingParam::TwoX => 2,
            OversamplingParam::FourX => 4,
            OversamplingParam::SixX => 6,
            OversamplingParam::EightX => 8,
        }
    }
}

// ───────────────────────────────────────────────────────────────────────────
// Display texts of the on/off parameters
// ───────────────────────────────────────────────────────────────────────────

/// What the on/off text parsers compare: the input without surrounding white
/// space, in lower case.
pub open spec fn normalized(s: Seq<char>) -> Seq<char> {
    crate::text::lowercase(crate::text::trimmed(s))
}

/// [`normalized`] of an ASCII text: trimmed, with ASCII capitals lowered.
pub open spec fn ascii_normalized(s: Seq<char>) -> Seq<char> {
    crate::text::trimmed(s).map_values(|c: char| crate::text::ascii_lower(c))
}

/// The input trimmed and lowercased, as a `String`.
fn normalize(s: &str) -> (r: String)
    ensures
        r@ == normalized(s@),
        crate::text::is_ascii_text(s@) ==> r@ == ascii_normalized(s@),
{
    let t = crate::text::trim_text(s);
    proof {
        if crate::text::is_ascii_text(s@) {
            crate::text::lemma_trimmed_ascii(s@);
        }
    }
    crate::text::lowercase_text(t)
}

/// Whether a normalized text turns the "halve delay time" switch on.
pub open spec fn halve_word(t: Seq<char>) -> bool {
    t == ":2"@ || t == "on"@ || t == "true"@
}

/// Display text of the "halve delay time" switch.
pub open spec fn halve_text(v: bool) -> Seq<char> {
    if v {
        ":2"@
    } else {
        "Off"@
    }
}

/// Display text of the "halve delay time" switch.
pub fn halve_to_string(v: bool) -> (r: String)
    ensures
        r@ == halve_text(v),
{
    if v {
        String::from_str(":2")
    } else {
        String::from_str("Off")
    }
}

/// Parse a text typed for the "halve delay time" switch: on for ":2", "on"
/// or "true" (any case, surrounding white space ignored), off otherwise.
pub fn halve_from_string(s: &str) -> (r: Option<bool>)
    ensures
        r == Some(halve_word(normalized(s@))),
        crate::text::is_ascii_text(s@) ==> r == Some(halve_word(ascii_normalized(s@))),
{
    let t = normalize(s);
    let t = t.as_str();
    Some(crate::text::same_text(t, ":2") || crate::text::same_text(t, "on") || crate::text::same_text(t, "true"))
}

/// Whether a normalized text turns the "double delay time" switch on.
pub open spec fn double_word(t: Seq<char>) -> bool {
    t == "x2"@ || t == "on"@ || t == "true"@
}

/// Display text of the "double delay time" switch.
pub open spec fn double_text(v: bool) -> Seq<char> {
    if v {
        "x2"@
    } else {
        "Off"@
    }
}

/// Display text of the "double delay time" switch.
pub fn double_to_string(v: bool) -> (r: String)
    ensures
        r@ == double_text(v),
{
    if v {
        String::from_str("x2")
    } else {
        String::from_str("Off")
    }
}

/// Parse a text typed for the "double delay time" switch: on for "x2",
/// "on" or "true" (any case, surrounding white space ignored), off otherwise.
pub fn double_from_string(s: &str) -> (r: Option<bool>)
    ensures
        r == Some(double_word(normalized(s@))),
        crate::text::is_ascii_text(s@) ==> r == Some(double_word(ascii_normalized(s@))),
{
    let t = normalize(s);
    let t = t.as_str();
    Some(crate::text::same_text(t, "x2") || crate::text::same_text(t, "on") || crate::text::same_text(t, "true"))
}

/// Whether a normalized text turns the phase invert switch on.
pub open spec fn phase_word(t: Seq<char>) -> bool {
    t == "inverted"@ || t == "inv"@ || t == "on"@ || t == "true"@
}

/// Display text of the phase invert switch.
pub open spec fn phase_text(v: bool) -> Seq<char> {
    if v {
        "Inverted"@
    } else {
        "Normal"@
    }
}

/// Display text of the phase invert switch.
pub fn phase_to_string(v: bool) -> (r: String)
    ensures
        r@ == phase_text(v),
{
    if v {
        String::from_str("Inverted")
    } else {
        String::from_str("Normal")
    }
}

/// Parse a text typed for the phase invert switch: inverted for "inverted",
/// "inv", "on" or "true" (any case, surrounding white space ignored),
/// normal otherwise.
pub fn phase_from_string(s: &str) -> (r: Option<bool>)
    ensures
        r == Some(phase_word(normalized(s@))),
        crate::text::is_ascii_text(s@) ==> r == Some(phase_word(ascii_normalized(s@))),
{
    let t = normalize(s);
    let t = t.as_str();
    Some(crate::text::same_text(t, "inverted") || crate::text::same_text(t, "inv") || crate::text::same_text(t, "on") || crate::text::same_text(t, "true"))
}

/// Whether a normalized text turns the tempo sync switch on.
pub open spec fn sync_word(t: Seq<char>) -> bool {
    t == "sync"@ || t == "on"@ || t == "true"@
}

/// Display text of the tempo sync switch.
pub open spec fn sync_text(v: bool) -> Seq<char> {
    if v {
        "Sync"@
    } else {
        "Free"@
    }
}

/// Display text of the tempo sync switch.
pub fn sync_to_string(v: bool) -> (r: String)
    ensures
        r@ == sync_text(v),
{
    if v {
        String::from_str("Sync")
    } else {
        String::from_str("Free")
    }
}

/// Parse a text typed for the tempo sync switch: synced for "sync", "on" or
/// "true" (any case, surrounding white space ignored), free otherwise.
pub fn sync_from_string(s: &str) -> (r: Option<bool>)
    ensures
        r == Some(sync_word(normalized(s@))),
        crate::text::is_ascii_text(s@) ==> r == Some(sync_word(ascii_normalized(s@))),
{
    let t = normalize(s);
    let t = t.as_str();
    Some(crate::text::same_text(t, "sync") || crate::text::same_text(t, "on") || crate::text::same_text(t, "true"))
}

/// Display round trip of the on/off switches: each display text is ASCII,
/// and parsing it gives back the value it displays. With the parsers'
/// contracts this makes `X_from_string(&X_to_string(v)) == Some(v)`.
pub proof fn lemma_switch_text_round_trip(v: bool)
    ensures
        crate::text::is_ascii_text(halve_text(v)),
        halve_word(ascii_normalized(halve_text(v))) == v,
        crate::text::is_ascii_text(double_text(v)),
        double_word(ascii_normalized(double_text(v))) == v,
        crate::text::is_ascii_text(phase_text(v)),
        phase_word(ascii_normalized(phase_text(v))) == v,
        crate::text::is_ascii_text(sync_text(v)),
        sync_word(ascii_normalized(sync_text(v))) == v,
{
    reveal_strlit(":2");
    reveal_strlit("Off");
    reveal_strlit("on");
    reveal_strlit("true");
    reveal_strlit("x2");
    reveal_strlit("Inverted");
    reveal_strlit("Normal");
    reveal_strlit("inverted");
    reveal_strlit("inv");
    reveal_strlit("Sync");
    reveal_strlit("Free");
    reveal_strlit("sync");
    let texts = seq![":2"@, "Off"@, "x2"@, "Inverted"@, "Normal"@, "Sync"@, "Free"@];
    assert forall|k: int| 0 <= k < texts.len() implies crate::text::trimmed(#[trigger] texts[k])
        == texts[k] by {
        crate::text::lemma_trimmed_identity(texts[k]);
    }
    assert(ascii_normalized(":2"@) =~= ":2"@);
    assert(ascii_normalized("Off"@) =~= seq!['o', 'f', 'f']);
    assert(ascii_normalized("x2"@) =~= "x2"@);
    assert(ascii_normalized("Inverted"@) =~= "inverted"@);
    assert(ascii_normalized("Normal"@) =~= seq!['n', 'o', 'r', 'm', 'a', 'l']);
    assert(ascii_normalized("Sync"@) =~= "sync"@);
    assert(ascii_normalized("Free"@) =~= seq!['f', 'r', 'e', 'e']);
}

// ───────────────────────────────────────────────────────────────────────────
// Parameter snapshots
// ───────────────────────────────────────────────────────────────────────────

/// A complete set of plain parameter values, for A/B comparison and
/// undo/redo.
///
/// Continuous values are the plain values the user sees (delay time in
/// seconds, feedback and levels as 0.0-1.0, gains in dB, frequencies in Hz),
/// each held as its `f32` bit pattern. Choice parameters are held by their
/// variant index.
#[derive(Debug, Clone, Copy, PartialEq, Eq, Structural)]
pub struct ParamSnapshot {
    pub input_level_db: F32Bits,
    pub output_level_db: F32Bits,
    pub delay_time_l: F32Bits,
    pub note_l: usize,
    pub halve_l: bool,
    pub double_l: bool,
    pub low_cut_l: F32Bits,
    pub low_cut_slope_l: F32Bits,
    pub high_cut_l: F32Bits,
    pub high_cut_slope_l: F32Bits,
    pub feedback_l: F32Bits,
    pub feedback_phase_l: bool,
    pub oversampling: usize,
    pub tempo_sync: bool,
    pub output_mix_l: F32Bits,
    pub output_mix_r: F32Bits,
}

/// `0.0_f32`.
pub const F32_ZERO: F32Bits = 0x0000_0000;

/// `0.4_f32`.
pub const F32_POINT_FOUR: F32Bits = 0x3ECC_CCCD;

/// `0.5_f32`.
pub const F32_HALF: F32Bits = 0x3F00_0000;

/// `1.0_f32`.
pub const F32_ONE: F32Bits = 0x3F80_0000;

/// `12.0_f32`.
pub const F32_TWELVE: F32Bits = 0x4140_0000;

/// `20.0_f32`.
pub const F32_TWENTY: F32Bits = 0x41A0_0000;

/// `20000.0_f32`.
pub const F32_TWENTY_THOUSAND: F32Bits = 0x469C_4000;

impl ParamSnapshot {
    /// The plugin's default parameter values: 0 dB trims, 0.5 s delay,
    /// quarter note, no halve/double, 20 Hz and 20 kHz filters at 12 dB/oct,
    /// 40 % feedback, normal phase, oversampling off, free running, full dry
    /// and wet levels.
    pub open spec fn default_spec() -> ParamSnapshot {
        ParamSnapshot {
            input_level_db: F32_ZERO,
            output_level_db: F32_ZERO,
            delay_time_l: F32_HALF,
            note_l: 3,
            halve_l: false,
            double_l: false,
            low_cut_l: F32_TWENTY,
            low_cut_slope_l: F32_TWELVE,
            high_cut_l: F32_TWENTY_THOUSAND,
            high_cut_slope_l: F32_TWELVE,
            feedback_l: F32_POINT_FOUR,
            feedback_phase_l: false,
            oversampling: 0,
            tempo_sync: false,
            output_mix_l: F32_ONE,
            output_mix_r: F32_ONE,
        }
    }

    /// Returns a snapshot filled with the plugin's default parameter values.
    pub fn default_values() -> (r: ParamSnapshot)
        ensures
            r == ParamSnapshot::default_spec(),
            NoteValueParam::at_index(r.note_l as nat) == NoteValueParam::Quarter,
            OversamplingParam::at_index(r.oversampling as nat) == OversamplingParam::Off,
    {
        ParamSnapshot {
            input_level_db: F32_ZERO,
            output_level_db: F32_ZERO,
            delay_time_l: F32_HALF,
            note_l: 3,
            halve_l: false,
            double_l: false,
            low_cut_l: F32_TWENTY,
            low_cut_slope_l: F32_TWELVE,
            high_cut_l: F32_TWENTY_THOUSAND,
            high_cut_slope_l: F32_TWELVE,
            feedback_l: F32_POINT_FOUR,
            feedback_phase_l: false,
            oversampling: 0,
            tempo_sync: false,
            output_mix_l: F32_ONE,
            output_mix_r: F32_ONE,
        }
    }
}

// ───────────────────────────────────────────────────────────────────────────
// A/B comparison
// ───────────────────────────────────────────────────────────────────────────

/// A/B state storage: two complete parameter snapshots (slot A and slot B).
///
/// A slot is named by a `u8`: 0 is slot A, every other value is slot B.
#[derive(Debug, Clone, Copy, PartialEq, Eq, Structural)]
pub struct AbSnapshots {
    pub a: ParamSnapshot,
    pub b: ParamSnapshot,
}

/// The slot that an A/B toggle switches to: B from A, A from B.
pub open spec fn other_slot(slot: u8) -> u8 {
    if slot == 0 {
        1
    } else {
        0
    }
}

impl AbSnapshots {
    /// The snapshot kept in `slot`.
    pub open spec fn slot_snapshot(self, slot: u8) -> ParamSnapshot {
        if slot == 0 {
            self.a
        } else {
            self.b
        }
    }

    /// The bank with `snapshot` kept in `slot` and the other slot unchanged.
    pub open spec fn with_slot(self, slot: u8, snapshot: ParamSnapshot) -> AbSnapshots {
        if slot == 0 {
            AbSnapshots { a: snapshot, b: self.b }
        } else {
            AbSnapshots { a: self.a, b: snapshot }
        }
    }

    /// Save `snapshot` into the active slot `slot`.
    pub fn save_to_slot(&mut self, slot: u8, snapshot: ParamSnapshot)
        ensures
            *final(self) == old(self).with_slot(slot, snapshot),
    {
        if slot == 0 {
            self.a = snapshot;
        } else {
            self.b = snapshot;
        }
    }

    /// Switch away from the active slot `slot`: the current state is saved
    /// into the slot being left, and the result is the new active slot and
    /// the snapshot kept there, which the caller applies.
    pub fn toggle_from(&mut self, slot: u8, current: ParamSnapshot) -> (r: (u8, ParamSnapshot))
        ensures
            *final(self) == old(self).with_slot(slot, current),
            r.0 == other_slot(slot),
            r.1 == final(self).slot_snapshot(r.0),
    {
        self.save_to_slot(slot, current);
        let new_slot: u8 = if slot == 0 {
            1
        } else {
            0
        };
        let target = if new_slot == 0 {
            self.a
        } else {
            self.b
        };
        (new_slot, target)
    }
}

impl Default for AbSnapshots {
    /// Both slots hold the default parameter values.
    fn default() -> (r: Self)
        ensures
            r.a == ParamSnapshot::default_spec(),
            r.b == ParamSnapshot::default_spec(),
    {
        let default_snapshot = ParamSnapshot::default_values();
        AbSnapshots { a: default_snapshot, b: default_snapshot }
    }
}

/// A/B round trip: toggling twice brings back, in the slot first left, the
/// state that was current at the first toggle, and leaves that slot active
/// again when it was A or B (slot 0 or 1).
pub proof fn lemma_ab_toggle_twice(
    bank: AbSnapshots,
    slot: u8,
    first: ParamSnapshot,
    second: ParamSnapshot,
)
    ensures
        ({
            let bank1 = bank.with_slot(slot, first);
            let slot1 = other_slot(slot);
            let bank2 = bank1.with_slot(slot1, second);
            let slot2 = other_slot(slot1);
            &&& bank2.slot_snapshot(slot2) == first
            &&& bank2.slot_snapshot(slot1) == second
            &&& (slot <= 1 ==> slot2 == slot)
        }),
{
}

/// Saving into a slot and reading the same slot gives the saved snapshot,
/// and the other slot is untouched.
pub proof fn lemma_ab_save_then_read(bank: AbSnapshots, slot: u8, snapshot: ParamSnapshot)
    ensures
        bank.with_slot(slot, snapshot).slot_snapshot(slot) == snapshot,
        bank.with_slot(slot, snapshot).slot_snapshot(other_slot(slot)) == bank.slot_snapshot(
            other_slot(slot),
        ),
{
}

// ───────────────────────────────────────────────────────────────────────────
// Undo / redo
// ───────────────────────────────────────────────────────────────────────────

/// Undo/redo history of parameter snapshots, with a maximum depth of
/// [`UndoRedoStack::MAX_DEPTH`] entries on the undo side.
///
/// Whenever a snapshot is pushed onto the undo side (by a new edit or by a
/// redo) and that side is full, its oldest entry is discarded. A new edit
/// clears the redo side (standard undo/redo semantics). The last element of
/// each vector is its most recent entry.
#[derive(Debug, Clone)]
pub struct UndoRedoStack {
    pub undo: Vec<ParamSnapshot>,
    pub redo: Vec<ParamSnapshot>,
}

/// Maximum number of undo steps retained.
pub const UNDO_MAX_DEPTH: usize = 50;

/// The undo side after pushing `snapshot`: the oldest entry is discarded
/// first when `undo` already holds the maximum depth or more.
pub open spec fn pushed_history(undo: Seq<ParamSnapshot>, snapshot: ParamSnapshot) -> Seq<
    ParamSnapshot,
> {
    if undo.len() >= UNDO_MAX_DEPTH {
        undo.drop_first().push(snapshot)
    } else {
        undo.push(snapshot)
    }
}

/// One side of the history after giving up its most recent entry, and that
/// entry (`None`, with the side unchanged, when it is empty).
pub open spec fn popped(side: Seq<ParamSnapshot>) -> (Seq<ParamSnapshot>, Option<ParamSnapshot>) {
    if side.len() > 0 {
        (side.drop_last(), Some(side.last()))
    } else {
        (side, None)
    }
}

impl UndoRedoStack {
    /// Maximum number of undo steps retained.
    pub const MAX_DEPTH: usize = UNDO_MAX_DEPTH;

    /// Push a snapshot onto the undo stack, clearing the redo stack.
    /// If the undo stack is full, the oldest entry is discarded.
    pub fn push_undo(&mut self, snapshot: ParamSnapshot)
        ensures
            final(self).undo@ == pushed_history(old(self).undo@, snapshot),
            final(self).redo@ == Seq::<ParamSnapshot>::empty(),
    {
        if self.undo.len() >= UNDO_MAX_DEPTH {
            self.undo.remove(0);
        }
        self.undo.push(snapshot);
        self.redo.clear();
    }

    /// Pop the most recent undo snapshot, pushing the current state onto
    /// the redo stack. Returns `None` if the undo stack is empty (the
    /// current state is pushed onto the redo stack all the same).
    pub fn undo(&mut self, current: ParamSnapshot) -> (r: Option<ParamSnapshot>)
        ensures
            final(self).redo@ == old(self).redo@.push(current),
            (final(self).undo@, r) == popped(old(self).undo@),
    {
        self.redo.push(current);
        self.undo.pop()
    }

    /// Pop the most recent redo snapshot, pushing the current state onto
    /// the undo stack (discarding its oldest entry when it is full).
    /// Returns `None` if the redo stack is empty (the current state is
    /// pushed onto the undo stack all the same).
    pub fn redo(&mut self, current: ParamSnapshot) -> (r: Option<ParamSnapshot>)
        ensures
            final(self).undo@ == pushed_history(old(self).undo@, current),
            (final(self).redo@, r) == popped(old(self).redo@),
    {
        if self.undo.len() >= UNDO_MAX_DEPTH {
            self.undo.remove(0);
        }
        self.undo.push(current);
        self.redo.pop()
    }
}

impl Default for UndoRedoStack {
    /// An empty history.
    fn default() -> (r: Self)
        ensures
            r.undo@ == Seq::<ParamSnapshot>::empty(),
            r.redo@ == Seq::<ParamSnapshot>::empty(),
    {
        UndoRedoStack { undo: Vec::new(), redo: Vec::new() }
    }
}

/// The depth bound is kept by every operation: starting from an undo side
/// of at most the maximum depth, a push, an undo and a redo each leave at
/// most the maximum depth on the undo side.
pub proof fn lemma_history_depth_kept(
    undo: Seq<ParamSnapshot>,
    redo: Seq<ParamSnapshot>,
    snapshot: ParamSnapshot,
)
    requires
        undo.len() <= UNDO_MAX_DEPTH,
    ensures
        pushed_history(undo, snapshot).len() <= UNDO_MAX_DEPTH,
        popped(undo).0.len() <= UNDO_MAX_DEPTH,
{
}

/// An undo undone: after an undo that returned a snapshot, a redo with
/// that snapshot as the current state returns the state that was current at
/// the undo and restores both sides of the history exactly (for an undo
/// side within the maximum depth).
pub proof fn lemma_undo_then_redo(
    undo: Seq<ParamSnapshot>,
    redo: Seq<ParamSnapshot>,
    current: ParamSnapshot,
)
    requires
        0 < undo.len() <= UNDO_MAX_DEPTH,
    ensures
        ({
            let (undo1, got) = popped(undo);
            let redo1 = redo.push(current);
            &&& got == Some(undo.last())
            &&& pushed_history(undo1, undo.last()) == undo
            &&& popped(redo1) == (redo, Some(current))
        }),
{
    let (undo1, got) = popped(undo);
    assert(undo1.push(undo.last()) =~= undo);
    assert(redo.push(current).drop_last() =~= redo);
}

/// A redo undone: after a redo that returned a snapshot, an undo with that
/// snapshot as the current state returns the state that was current at the
/// redo and restores both sides exactly, as long as the redo discarded
/// nothing (the undo side held fewer than the maximum depth).
pub proof fn lemma_redo_then_undo(
    undo: Seq<ParamSnapshot>,
    redo: Seq<ParamSnapshot>,
    current: ParamSnapshot,
)
    requires
        redo.len() > 0,
        undo.len() < UNDO_MAX_DEPTH,
    ensures
        ({
            let undo1 = pushed_history(undo, current);
            let (redo1, got) = popped(redo);
            &&& got == Some(redo.last())
            &&& redo1.push(redo.last()) == redo
            &&& popped(undo1) == (undo, Some(current))
        }),
{
    let (redo1, got) = popped(redo);
    assert(redo1.push(redo.last()) =~= redo);
    assert(undo.push(current).drop_last() =~= undo);
}

/// A push is undone first: right after pushing a snapshot, an undo returns
/// that snapshot and leaves the undo side as it was before the push, as
/// long as the push discarded nothing (fewer than the maximum depth of
/// entries before it).
pub proof fn lemma_push_then_undo(undo: Seq<ParamSnapshot>, snapshot: ParamSnapshot)
    ensures
        popped(pushed_history(undo, snapshot)).1 == Some(snapshot),
        undo.len() < UNDO_MAX_DEPTH ==> popped(pushed_history(undo, snapshot)).0 == undo,
{
    if undo.len() < UNDO_MAX_DEPTH {
        assert(undo.push(snapshot).drop_last() =~= undo);
    }
}

/// What a push keeps: the pushed snapshot is the most recent entry, and
/// the entries kept are the most recent ones of before, in order (all of
/// them when fewer than the maximum depth were held).
pub proof fn lemma_push_keeps_recent(undo: Seq<ParamSnapshot>, snapshot: ParamSnapshot)
    ensures
        pushed_history(undo, snapshot).last() == snapshot,
        pushed_history(undo, snapshot).drop_last() == undo.subrange(
            undo.len() - (pushed_history(undo, snapshot).len() - 1),
            undo.len() as int,
        ),
        undo.len() < UNDO_MAX_DEPTH ==> pushed_history(undo, snapshot).drop_last() == undo,
{
    let p = pushed_history(undo, snapshot);
    if undo.len() >= UNDO_MAX_DEPTH {
        assert(p.drop_last() =~= undo.subrange(1, undo.len() as int));
    } else {
        assert(p.drop_last() =~= undo.subrange(0, undo.len() as int));
        assert(p.drop_last() =~= undo);
    }
}

/// The engine gets the input mode the user picked: the same position in
/// the engine's declaration, so different host modes give different
/// engine modes.
pub proof fn lemma_input_mode_to_dsp_keeps_mode(m: InputModeParam, n: InputModeParam)
    ensures
        input_mode_to_dsp(m).index_of() == m.index_of(),
        input_mode_to_dsp(m) == input_mode_to_dsp(n) ==> m == n,
{
}

/// The stable input mode indices: off (no input) first, then the left and
/// the right input alone, then their sum and their difference.
pub proof fn lemma_input_mode_index_meaning()
    ensures
        input_mode_to_dsp(InputModeParam::at_index(0)).gains() == (0int, 0int),
        input_mode_to_dsp(InputModeParam::at_index(1)).gains() == (1int, 0int),
        input_mode_to_dsp(InputModeParam::at_index(2)).gains() == (0int, 1int),
        input_mode_to_dsp(InputModeParam::at_index(3)).gains() == (1int, 1int),
        input_mode_to_dsp(InputModeParam::at_index(4)).gains() == (1int, -1int),
{
}

/// The engine gets the routing the user picked: the same position in the
/// engine's declaration, so different host routings give different engine
/// routings.
pub proof fn lemma_routing_mode_to_dsp_keeps_mode(m: RoutingModeParam, n: RoutingModeParam)
    ensures
        routing_mode_to_dsp(m).index_of() == m.index_of(),
        routing_mode_to_dsp(m) == routing_mode_to_dsp(n) ==> m == n,
{
}

/// The oversampling choices in index order run the engine faster and
/// faster, starting with the host rate itself.
pub proof fn lemma_oversampling_index_order()
    ensures
        OversamplingParam::at_index(0).factor_of() == 1,
        forall|i: nat, j: nat|
            0 <= i < j < OVERSAMPLING_COUNT ==> #[trigger] OversamplingParam::at_index(i).factor_of()
                < #[trigger] OversamplingParam::at_index(j).factor_of(),
        forall|i: nat|
            0 < i < OVERSAMPLING_COUNT ==> (#[trigger] OversamplingParam::at_index(i).factor_of())
                % 2 == 0,
{
}

/// The on-words of the on/off switches: every switch is turned on by "on"
/// and "true" and by its own word (halve ":2", double "x2", phase
/// "inverted" and "inv", sync "sync"), and off by its own off display text
/// and by "off", "false" and an empty text.
pub proof fn lemma_switch_on_words()
    ensures
        halve_word(":2"@) && halve_word("on"@) && halve_word("true"@),
        double_word("x2"@) && double_word("on"@) && double_word("true"@),
        phase_word("inverted"@) && phase_word("inv"@) && phase_word("on"@) && phase_word(
            "true"@,
        ),
        sync_word("sync"@) && sync_word("on"@) && sync_word("true"@),
        !halve_word("off"@) && !halve_word("false"@) && !halve_word(Seq::empty()),
        !double_word("off"@) && !double_word("false"@) && !double_word(Seq::empty()),
        !phase_word("normal"@) && !phase_word("off"@) && !phase_word("false"@) && !phase_word(
            Seq::empty(),
        ),
        !sync_word("free"@) && !sync_word("off"@) && !sync_word("false"@) && !sync_word(
            Seq::empty(),
        ),
{
    reveal_strlit(":2");
    reveal_strlit("x2");
    reveal_strlit("on");
    reveal_strlit("true");
    reveal_strlit("inverted");
    reveal_strlit("inv");
    reveal_strlit("sync");
    reveal_strlit("off");
    reveal_strlit("false");
    reveal_strlit("normal");
    reveal_strlit("free");
    assert(":2"@.len() == 2 && "x2"@.len() == 2 && "on"@.len() == 2 && "true"@.len() == 4);
    assert("inverted"@.len() == 8 && "inv"@.len() == 3 && "sync"@.len() == 4);
    assert("off"@.len() == 3 && "false"@.len() == 5 && "normal"@.len() == 6 && "free"@.len()
        == 4);
    assert("off"@[0] != "inv"@[0] && "false"@[0] != "true"@[0] && "free"@[0] != "sync"@[0]);
}

/// The display texts of the on/off switches, on and off.
pub proof fn lemma_switch_display_texts()
    ensures
        halve_text(true) == ":2"@ && halve_text(false) == "Off"@,
        double_text(true) == "x2"@ && double_text(false) == "Off"@,
        phase_text(true) == "Inverted"@ && phase_text(false) == "Normal"@,
        sync_text(true) == "Sync"@ && sync_text(false) == "Free"@,
{
}

/// The history holds 50 undo steps: a push onto 49 entries keeps them all,
/// a push onto 50 keeps 50 by dropping the oldest.
pub proof fn lemma_history_capacity(undo: Seq<ParamSnapshot>, snapshot: ParamSnapshot)
    ensures
        undo.len() == 49 ==> pushed_history(undo, snapshot) == undo.push(snapshot),
        undo.len() == 50 ==> pushed_history(undo, snapshot).len() == 50
            && pushed_history(undo, snapshot)[0] == undo[1],
{
}

} // verus!
