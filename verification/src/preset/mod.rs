//! Preset records, the factory preset bank and preset file naming.
//!
//! Preset values keep the legacy stereo fields of the preset file format for
//! compatibility; the mono plugin only reads the left-side values (see
//! [`PresetValues::mono_snapshot`]).

use vstd::prelude::*;

use crate::parameters::{
    NoteValueParam, ParamSnapshot, F32_HALF, F32_ONE, F32_POINT_FOUR, F32_TWELVE, F32_TWENTY,
    F32_TWENTY_THOUSAND, F32_ZERO,
};
use crate::F32Bits;

verus! {

/// Version string written into every preset.
pub const PRESET_VERSION: &'static str = "1.0.0";

/// Author of the factory presets.
pub const FACTORY_AUTHOR: &'static str = "Nebula Audio";

/// Creation stamp of the factory presets.
pub const FACTORY_CREATED: &'static str = "2026-05-19T00:00:00Z";

/// A named preset with its metadata.
#[derive(Debug, Clone)]
pub struct PresetData {
    pub name: String,
    pub author: String,
    pub created: String,
    pub version: String,
    pub values: PresetValues,
}

/// The stored parameter values of a preset.
///
/// Continuous values are held as `f32` bit patterns; `input_mode_*`,
/// `note_*`, `routing` and `oversampling` are variant indices of the
/// corresponding choice parameters.
#[derive(Debug, Clone, Copy, PartialEq, Eq, Structural)]
pub struct PresetValues {
    pub input_level_db: F32Bits,
    pub output_level_db: F32Bits,
    pub input_mode_l: u8,
    pub input_mode_r: u8,
    pub delay_time_l: F32Bits,
    pub delay_time_r: F32Bits,
    pub note_l: u8,
    pub note_r: u8,
    pub deviation_l: F32Bits,
    pub deviation_r: F32Bits,
    pub halve_l: bool,
    pub halve_r: bool,
    pub double_l: bool,
    pub double_r: bool,
    pub low_cut_l: F32Bits,
    pub low_cut_r: F32Bits,
    pub low_cut_slope_l: F32Bits,
    pub low_cut_slope_r: F32Bits,
    pub high_cut_l: F32Bits,
    pub high_cut_r: F32Bits,
    pub high_cut_slope_l: F32Bits,
    pub high_cut_slope_r: F32Bits,
    pub feedback_l: F32Bits,
    pub feedback_r: F32Bits,
    pub feedback_phase_l: bool,
    pub feedback_phase_r: bool,
    pub crossfeed_lr: F32Bits,
    pub crossfeed_rl: F32Bits,
    pub crossfeed_phase_lr: bool,
    pub crossfeed_phase_rl: bool,
    pub routing: u8,
    pub oversampling: u8,
    pub tempo_sync: bool,
    pub stereo_link: bool,
    pub output_mix_l: F32Bits,
    pub output_mix_r: F32Bits,
}

/// Default left input mode: `Left` (index 1).
pub fn default_input_l() -> (r: u8)
    ensures
        r == 1,
{
    1
}

/// Default delay time: 0.5 s.
pub fn default_delay_time() -> (r: F32Bits)
    ensures
        r == F32_HALF,
{
    F32_HALF
}

/// Default note: quarter note (index 3).
pub fn default_note() -> (r: u8)
    ensures
        r == 3,
{
    3
}

/// Default low-cut frequency: 20 Hz.
pub fn default_low_cut() -> (r: F32Bits)
    ensures
        r == F32_TWENTY,
{
    F32_TWENTY
}

/// Default high-cut frequency: 20 kHz.
pub fn default_high_cut() -> (r: F32Bits)
    ensures
        r == F32_TWENTY_THOUSAND,
{
    F32_TWENTY_THOUSAND
}

/// Default filter slope: 12 dB/oct.
pub fn default_filter_slope() -> (r: F32Bits)
    ensures
        r == F32_TWELVE,
{
    F32_TWELVE
}

/// Default feedback: 0.4.
pub fn default_feedback() -> (r: F32Bits)
    ensures
        r == F32_POINT_FOUR,
{
    F32_POINT_FOUR
}

/// Default output level: 1.0.
pub fn default_mix() -> (r: F32Bits)
    ensures
        r == F32_ONE,
{
    F32_ONE
}

/// Default routing: `Straight` (index 1).
pub fn default_routing() -> (r: u8)
    ensures
        r == 1,
{
    1
}

impl PresetValues {
    /// The default preset values.
    pub open spec fn default_spec() -> PresetValues {
        PresetValues {
            input_level_db: F32_ZERO,
            output_level_db: F32_ZERO,
            input_mode_l: 1,
            input_mode_r: 0,
            delay_time_l: F32_HALF,
            delay_time_r: F32_HALF,
            note_l: 3,
            note_r: 3,
            deviation_l: F32_ZERO,
            deviation_r: F32_ZERO,
            halve_l: false,
            halve_r: false,
            double_l: false,
            double_r: false,
            low_cut_l: F32_TWENTY,
            low_cut_r: F32_TWENTY,
            low_cut_slope_l: F32_TWELVE,
            low_cut_slope_r: F32_TWELVE,
            high_cut_l: F32_TWENTY_THOUSAND,
            high_cut_r: F32_TWENTY_THOUSAND,
            high_cut_slope_l: F32_TWELVE,
            high_cut_slope_r: F32_TWELVE,
            feedback_l: F32_POINT_FOUR,
            feedback_r: F32_ZERO,
            feedback_phase_l: false,
            feedback_phase_r: false,
            crossfeed_lr: F32_ZERO,
            crossfeed_rl: F32_ZERO,
            crossfeed_phase_lr: false,
            crossfeed_phase_rl: false,
            routing: 1,
            oversampling: 0,
            tempo_sync: false,
            stereo_link: false,
            output_mix_l: F32_ONE,
            output_mix_r: F32_ONE,
        }
    }

    /// The parameter snapshot that loading these values gives the mono
    /// plugin: only the left-side values and the global values are read.
    pub open spec fn mono_snapshot_spec(self) -> ParamSnapshot {
        ParamSnapshot {
            input_level_db: self.input_level_db,
            output_level_db: self.output_level_db,
            delay_time_l: self.delay_time_l,
            note_l: self.note_l as usize,
            halve_l: self.halve_l,
            double_l: self.double_l,
            low_cut_l: self.low_cut_l,
            low_cut_slope_l: self.low_cut_slope_l,
            high_cut_l: self.high_cut_l,
            high_cut_slope_l: self.high_cut_slope_l,
            feedback_l: self.feedback_l,
            feedback_phase_l: self.feedback_phase_l,
            oversampling: self.oversampling as usize,
            tempo_sync: self.tempo_sync,
            output_mix_l: self.output_mix_l,
            output_mix_r: self.output_mix_r,
        }
    }

    /// The parameter values that loading this preset sets on the mono
    /// plugin. Right-side, crossfeed, deviation, routing and link values
    /// are fixed by the plugin (left input, straight routing, no
    /// crossfeed) and so are not part of the result.
    pub fn mono_snapshot(&self) -> (r: ParamSnapshot)
        ensures
            r == self.mono_snapshot_spec(),
            r.input_level_db == self.input_level_db,
            r.output_level_db == self.output_level_db,
            r.delay_time_l == self.delay_time_l,
            r.halve_l == self.halve_l,
            r.double_l == self.double_l,
            r.low_cut_l == self.low_cut_l,
            r.low_cut_slope_l == self.low_cut_slope_l,
            r.high_cut_l == self.high_cut_l,
            r.high_cut_slope_l == self.high_cut_slope_l,
            r.feedback_l == self.feedback_l,
            r.feedback_phase_l == self.feedback_phase_l,
            r.tempo_sync == self.tempo_sync,
            r.output_mix_l == self.output_mix_l,
            r.output_mix_r == self.output_mix_r,
            r.note_l == self.note_l as usize,
            r.oversampling == self.oversampling as usize,
    {
        ParamSnapshot {
            input_level_db: self.input_level_db,
            output_level_db: self.output_level_db,
            delay_time_l: self.delay_time_l,
            note_l: self.note_l as usize,
            halve_l: self.halve_l,
            double_l: self.double_l,
            low_cut_l: self.low_cut_l,
            low_cut_slope_l: self.low_cut_slope_l,
            high_cut_l: self.high_cut_l,
            high_cut_slope_l: self.high_cut_slope_l,
            feedback_l: self.feedback_l,
            feedback_phase_l: self.feedback_phase_l,
            oversampling: self.oversampling as usize,
            tempo_sync: self.tempo_sync,
            output_mix_l: self.output_mix_l,
            output_mix_r: self.output_mix_r,
        }
    }
}

impl Default for PresetValues {
    /// The default preset values: those of [`ParamSnapshot::default_values`]
    /// on both sides, left input, straight routing, no feedback on the right.
    fn default() -> (r: Self)
        ensures
            r == PresetValues::default_spec(),
    {
        PresetValues {
            input_level_db: F32_ZERO,
            output_level_db: F32_ZERO,
            input_mode_l: default_input_l(),
            input_mode_r: 0,
            delay_time_l: default_delay_time(),
            delay_time_r: default_delay_time(),
            note_l: default_note(),
            note_r: default_note(),
            deviation_l: F32_ZERO,
            deviation_r: F32_ZERO,
            halve_l: false,
            halve_r: false,
            double_l: false,
            double_r: false,
            low_cut_l: default_low_cut(),
            low_cut_r: default_low_cut(),
            low_cut_slope_l: default_filter_slope(),
            low_cut_slope_r: default_filter_slope(),
            high_cut_l: default_high_cut(),
            high_cut_r: default_high_cut(),
            high_cut_slope_l: default_filter_slope(),
            high_cut_slope_r: default_filter_slope(),
            feedback_l: default_feedback(),
            feedback_r: F32_ZERO,
            feedback_phase_l: false,
            feedback_phase_r: false,
            crossfeed_lr: F32_ZERO,
            crossfeed_rl: F32_ZERO,
            crossfeed_phase_lr: false,
            crossfeed_phase_rl: false,
            routing: default_routing(),
            oversampling: 0,
            tempo_sync: false,
            stereo_link: false,
            output_mix_l: default_mix(),
            output_mix_r: default_mix(),
        }
    }
}

/// Loading a preset reads its left-side and global values one to one: the
/// loaded dry level is the preset's `output_mix_l`, the wet level its
/// `output_mix_r`, and each other field of the snapshot is the preset field
/// of the same name (choice indices widened). The right-side, crossfeed,
/// deviation, routing, input and link values of a preset make no
/// difference to what is loaded.
pub proof fn lemma_mono_snapshot_reads_left(v: PresetValues, w: PresetValues)
    ensures
        v.mono_snapshot_spec().input_level_db == v.input_level_db,
        v.mono_snapshot_spec().output_level_db == v.output_level_db,
        v.mono_snapshot_spec().delay_time_l == v.delay_time_l,
        v.mono_snapshot_spec().halve_l == v.halve_l,
        v.mono_snapshot_spec().double_l == v.double_l,
        v.mono_snapshot_spec().low_cut_l == v.low_cut_l,
        v.mono_snapshot_spec().low_cut_slope_l == v.low_cut_slope_l,
        v.mono_snapshot_spec().high_cut_l == v.high_cut_l,
        v.mono_snapshot_spec().high_cut_slope_l == v.high_cut_slope_l,
        v.mono_snapshot_spec().feedback_l == v.feedback_l,
        v.mono_snapshot_spec().feedback_phase_l == v.feedback_phase_l,
        v.mono_snapshot_spec().tempo_sync == v.tempo_sync,
        v.mono_snapshot_spec().output_mix_l == v.output_mix_l,
        v.mono_snapshot_spec().output_mix_r == v.output_mix_r,
        v.mono_snapshot_spec().note_l == v.note_l as usize,
        v.mono_snapshot_spec().oversampling == v.oversampling as usize,
        ({
            &&& v.input_level_db == w.input_level_db
            &&& v.output_level_db == w.output_level_db
            &&& v.delay_time_l == w.delay_time_l
            &&& v.note_l == w.note_l
            &&& v.halve_l == w.halve_l
            &&& v.double_l == w.double_l
            &&& v.low_cut_l == w.low_cut_l
            &&& v.low_cut_slope_l == w.low_cut_slope_l
            &&& v.high_cut_l == w.high_cut_l
            &&& v.high_cut_slope_l == w.high_cut_slope_l
            &&& v.feedback_l == w.feedback_l
            &&& v.feedback_phase_l == w.feedback_phase_l
            &&& v.oversampling == w.oversampling
            &&& v.tempo_sync == w.tempo_sync
            &&& v.output_mix_l == w.output_mix_l
            &&& v.output_mix_r == w.output_mix_r
        }) ==> v.mono_snapshot_spec() == w.mono_snapshot_spec(),
{
}

/// Loading the default preset values gives the plugin's default parameter
/// snapshot.
pub proof fn lemma_default_preset_is_default_snapshot()
    ensures
        PresetValues::default_spec().mono_snapshot_spec() == ParamSnapshot::default_spec(),
{
}

/// A factory or user preset record.
pub open spec fn preset_record(
    data: PresetData,
    name: Seq<char>,
    author: Seq<char>,
    created: Seq<char>,
    values: PresetValues,
) -> bool {
    &&& data.name@ == name
    &&& data.author@ == author
    &&& data.created@ == created
    &&& data.version@ == PRESET_VERSION@
    &&& data.values == values
}

/// A factory preset named `name` with the given values.
pub fn preset(name: &str, values: PresetValues) -> (r: PresetData)
    ensures
        preset_record(r, name@, FACTORY_AUTHOR@, FACTORY_CREATED@, values),
{
    PresetData {
        name: String::from_str(name),
        author: String::from_str(FACTORY_AUTHOR),
        created: String::from_str(FACTORY_CREATED),
        version: String::from_str(PRESET_VERSION),
        values,
    }
}

/// A user preset named `name` by `author`, stamped `created`: the record
/// that saving a user preset writes.
pub fn user_preset(name: &str, author: &str, created: String, values: PresetValues) -> (r:
    PresetData)
    ensures
        preset_record(r, name@, author@, created@, values),
{
    PresetData {
        name: String::from_str(name),
        author: String::from_str(author),
        created,
        version: String::from_str(PRESET_VERSION),
        values,
    }
}

/// What distinguishes one mono factory preset from the defaults.
#[derive(Debug, Clone, Copy, PartialEq, Eq, Structural)]
pub struct MonoPresetSpec {
    pub delay_time: F32Bits,
    pub note: u8,
    pub feedback: F32Bits,
    pub low_cut: F32Bits,
    pub high_cut: F32Bits,
    pub mix: F32Bits,
    pub tempo_sync: bool,
    pub phase_invert: bool,
}

/// The preset values of a mono preset: the defaults, with the spec's delay
/// time, note, low cut and high cut on both sides, its feedback, tempo sync
/// and phase on the left, full dry level and the spec's mix as wet level.
pub open spec fn mono_values(spec: MonoPresetSpec) -> PresetValues {
    let d = PresetValues::default_spec();
    PresetValues {
        delay_time_l: spec.delay_time,
        delay_time_r: spec.delay_time,
        note_l: spec.note,
        note_r: spec.note,
        feedback_l: spec.feedback,
        low_cut_l: spec.low_cut,
        low_cut_r: spec.low_cut,
        high_cut_l: spec.high_cut,
        high_cut_r: spec.high_cut,
        output_mix_l: F32_ONE,
        output_mix_r: spec.mix,
        tempo_sync: spec.tempo_sync,
        feedback_phase_l: spec.phase_invert,
        ..d
    }
}

/// Build the preset values of a mono preset.
pub fn values(spec: MonoPresetSpec) -> (r: PresetValues)
    ensures
        r == mono_values(spec),
{
    PresetValues {
        delay_time_l: spec.delay_time,
        delay_time_r: spec.delay_time,
        note_l: spec.note,
        note_r: spec.note,
        feedback_l: spec.feedback,
        low_cut_l: spec.low_cut,
        low_cut_r: spec.low_cut,
        high_cut_l: spec.high_cut,
        high_cut_r: spec.high_cut,
        output_mix_l: F32_ONE,
        output_mix_r: spec.mix,
        tempo_sync: spec.tempo_sync,
        feedback_phase_l: spec.phase_invert,
        ..PresetValues::default()
    }
}

/// Number of factory presets.
pub const FACTORY_PRESET_COUNT: usize = 10;

/// Names of the factory presets, in bank order.
pub open spec fn factory_names() -> Seq<Seq<char>> {
    seq![
        "Init"@,
        "Simple Slap"@,
        "Ambient Wash"@,
        "Dub Echo"@,
        "Tape Throw"@,
        "Tight Doubler"@,
        "Space Echo"@,
        "Phase Drift"@,
        "Rhythmic Delay"@,
        "Vintage Tape"@,
    ]
}

/// The mono specs of the factory presets after the first ("Init", which
/// holds the defaults), in bank order.
/// Delay time, note, feedback, low cut, high cut, wet level:
/// - Simple Slap: 0.075 s, 1/8, 5 %, 80 Hz, 12 kHz, 45 %
/// - Ambient Wash: 1.2 s, 1/2, 72 %, 220 Hz, 6 kHz, 78 %, synced
/// - Dub Echo: 0.38 s, 1/8, 68 %, 120 Hz, 4.8 kHz, 72 %, synced
/// - Tape Throw: 0.32 s, 1/8, 48 %, 160 Hz, 4.2 kHz, 64 %
/// - Tight Doubler: 0.018 s, 1/64, 0 %, 90 Hz, 12 kHz, 42 %
/// - Space Echo: 0.42 s, 1/8, 56 %, 120 Hz, 4.5 kHz, 74 %, synced
/// - Phase Drift: 0.024 s, 1/64, 18 %, 140 Hz, 9 kHz, 55 %, phase inverted
/// - Rhythmic Delay: 0.5 s, 1/8T, 52 %, 150 Hz, 7 kHz, 68 %, synced
/// - Vintage Tape: 0.28 s, 1/8, 60 %, 200 Hz, 3 kHz, 72 %, synced
pub open spec fn factory_specs() -> Seq<MonoPresetSpec> {
    seq![
        MonoPresetSpec {
            delay_time: 0x3D99_999A,
            note: 5,
            feedback: 0x3D4C_CCCD,
            low_cut: 0x42A0_0000,
            high_cut: 0x463B_8000,
            mix: 0x3EE6_6666,
            tempo_sync: false,
            phase_invert: false,
        },
        MonoPresetSpec {
            delay_time: 0x3F99_999A,
            note: 1,
            feedback: 0x3F38_51EC,
            low_cut: 0x435C_0000,
            high_cut: 0x45BB_8000,
            mix: 0x3F47_AE14,
            tempo_sync: true,
            phase_invert: false,
        },
        MonoPresetSpec {
            delay_time: 0x3EC2_8F5C,
            note: 5,
            feedback: 0x3F2E_147B,
            low_cut: 0x42F0_0000,
            high_cut: 0x4596_0000,
            mix: 0x3F38_51EC,
            tempo_sync: true,
            phase_invert: false,
        },
        MonoPresetSpec {
            delay_time: 0x3EA3_D70A,
            note: 5,
            feedback: 0x3EF5_C28F,
            low_cut: 0x4320_0000,
            high_cut: 0x4583_4000,
            mix: 0x3F23_D70A,
            tempo_sync: false,
            phase_invert: false,
        },
        MonoPresetSpec {
            delay_time: 0x3C93_74BC,
            note: 11,
            feedback: 0x0000_0000,
            low_cut: 0x42B4_0000,
            high_cut: 0x463B_8000,
            mix: 0x3ED7_0A3D,
            tempo_sync: false,
            phase_invert: false,
        },
        MonoPresetSpec {
            delay_time: 0x3ED7_0A3D,
            note: 5,
            feedback: 0x3F0F_5C29,
            low_cut: 0x42F0_0000,
            high_cut: 0x458C_A000,
            mix: 0x3F3D_70A4,
            tempo_sync: true,
            phase_invert: false,
        },
        MonoPresetSpec {
            delay_time: 0x3CC4_9BA6,
            note: 11,
            feedback: 0x3E38_51EC,
            low_cut: 0x430C_0000,
            high_cut: 0x460C_A000,
            mix: 0x3F0C_CCCD,
            tempo_sync: false,
            phase_invert: true,
        },
        MonoPresetSpec {
            delay_time: 0x3F00_0000,
            note: 6,
            feedback: 0x3F05_1EB8,
            low_cut: 0x4316_0000,
            high_cut: 0x45DA_C000,
            mix: 0x3F2E_147B,
            tempo_sync: true,
            phase_invert: false,
        },
        MonoPresetSpec {
            delay_time: 0x3E8F_5C29,
            note: 5,
            feedback: 0x3F19_999A,
            low_cut: 0x4348_0000,
            high_cut: 0x453B_8000,
            mix: 0x3F38_51EC,
            tempo_sync: true,
            phase_invert: false,
        },
    ]
}

/// The values of factory preset `i`.
pub open spec fn factory_values(i: int) -> PresetValues {
    if i == 0 {
        PresetValues::default_spec()
    } else {
        mono_values(factory_specs()[i - 1])
    }
}

/// The factory preset bank, in menu order.
pub fn build_factory_presets() -> (r: Vec<PresetData>)
    ensures
        r@.len() == FACTORY_PRESET_COUNT,
        forall|i: int|
            0 <= i < FACTORY_PRESET_COUNT ==> preset_record(
                #[trigger] r@[i],
                factory_names()[i],
                FACTORY_AUTHOR@,
                FACTORY_CREATED@,
                factory_values(i),
            ),
{
    let mut bank: Vec<PresetData> = Vec::new();
    bank.push(preset("Init", PresetValues::default()));
    bank.push(
        preset(
            "Simple Slap",
            values(
                MonoPresetSpec {
                    delay_time: 0x3D99_999A,
                    note: 5,
                    feedback: 0x3D4C_CCCD,
                    low_cut: 0x42A0_0000,
                    high_cut: 0x463B_8000,
                    mix: 0x3EE6_6666,
                    tempo_sync: false,
                    phase_invert: false,
                },
            ),
        ),
    );
    bank.push(
        preset(
            "Ambient Wash",
            values(
                MonoPresetSpec {
                    delay_time: 0x3F99_999A,
                    note: 1,
                    feedback: 0x3F38_51EC,
                    low_cut: 0x435C_0000,
                    high_cut: 0x45BB_8000,
                    mix: 0x3F47_AE14,
                    tempo_sync: true,
                    phase_invert: false,
                },
            ),
        ),
    );
    bank.push(
        preset(
            "Dub Echo",
            values(
                MonoPresetSpec {
                    delay_time: 0x3EC2_8F5C,
                    note: 5,
                    feedback: 0x3F2E_147B,
                    low_cut: 0x42F0_0000,
                    high_cut: 0x4596_0000,
                    mix: 0x3F38_51EC,
                    tempo_sync: true,
                    phase_invert: false,
                },
            ),
        ),
    );
    bank.push(
        preset(
            "Tape Throw",
            values(
                MonoPresetSpec {
                    delay_time: 0x3EA3_D70A,
                    note: 5,
                    feedback: 0x3EF5_C28F,
                    low_cut: 0x4320_0000,
                    high_cut: 0x4583_4000,
                    mix: 0x3F23_D70A,
                    tempo_sync: false,
                    phase_invert: false,
                },
            ),
        ),
    );
    bank.push(
        preset(
            "Tight Doubler",
            values(
                MonoPresetSpec {
                    delay_time: 0x3C93_74BC,
                    note: 11,
                    feedback: 0x0000_0000,
                    low_cut: 0x42B4_0000,
                    high_cut: 0x463B_8000,
                    mix: 0x3ED7_0A3D,
                    tempo_sync: false,
                    phase_invert: false,
                },
            ),
        ),
    );
    bank.push(
        preset(
            "Space Echo",
            values(
                MonoPresetSpec {
                    delay_time: 0x3ED7_0A3D,
                    note: 5,
                    feedback: 0x3F0F_5C29,
                    low_cut: 0x42F0_0000,
                    high_cut: 0x458C_A000,
                    mix: 0x3F3D_70A4,
                    tempo_sync: true,
                    phase_invert: false,
                },
            ),
        ),
    );
    bank.push(
        preset(
            "Phase Drift",
            values(
                MonoPresetSpec {
                    delay_time: 0x3CC4_9BA6,
                    note: 11,
                    feedback: 0x3E38_51EC,
                    low_cut: 0x430C_0000,
                    high_cut: 0x460C_A000,
                    mix: 0x3F0C_CCCD,
                    tempo_sync: false,
                    phase_invert: true,
                },
            ),
        ),
    );
    bank.push(
        preset(
            "Rhythmic Delay",
            values(
                MonoPresetSpec {
                    delay_time: 0x3F00_0000,
                    note: 6,
                    feedback: 0x3F05_1EB8,
                    low_cut: 0x4316_0000,
                    high_cut: 0x45DA_C000,
                    mix: 0x3F2E_147B,
                    tempo_sync: true,
                    phase_invert: false,
                },
            ),
        ),
    );
    bank.push(
        preset(
            "Vintage Tape",
            values(
                MonoPresetSpec {
                    delay_time: 0x3E8F_5C29,
                    note: 5,
                    feedback: 0x3F19_999A,
                    low_cut: 0x4348_0000,
                    high_cut: 0x453B_8000,
                    mix: 0x3F38_51EC,
                    tempo_sync: true,
                    phase_invert: false,
                },
            ),
        ),
    );
    bank
}

/// The factory bank's contents, preset by preset (delay time, note,
/// feedback, filters and levels as `f32` bit patterns; the decimal values
/// are given beside them). Every preset after "Init" plays at full dry
/// level, keeps the other values at their defaults (see
/// [`lemma_factory_bank_well_formed`]) and mirrors its delay time, note and
/// filters to the legacy right side.
pub proof fn lemma_factory_bank_contents()
    ensures
        factory_names()[0] == "Init"@,
        factory_values(0) == PresetValues::default_spec(),
        // Simple Slap: 0.075 s, Eighth, feedback 0.05, 80 Hz to 12 kHz, wet 0.45
        factory_names()[1] == "Simple Slap"@,
        factory_values(1).delay_time_l == 0x3D99_999A && factory_values(1).delay_time_r == 0x3D99_999A,
        NoteValueParam::at_index(factory_values(1).note_l as nat) == NoteValueParam::Eighth,
        factory_values(1).note_r == factory_values(1).note_l,
        factory_values(1).feedback_l == 0x3D4C_CCCD,
        factory_values(1).low_cut_l == 0x42A0_0000 && factory_values(1).high_cut_l == 0x463B_8000,
        factory_values(1).output_mix_l == F32_ONE && factory_values(1).output_mix_r == 0x3EE6_6666,
        factory_values(1).tempo_sync == false && factory_values(1).feedback_phase_l == false,
        // Ambient Wash: 1.2 s, Half, feedback 0.72, 220 Hz to 6 kHz, wet 0.78
        factory_names()[2] == "Ambient Wash"@,
        factory_values(2).delay_time_l == 0x3F99_999A && factory_values(2).delay_time_r == 0x3F99_999A,
        NoteValueParam::at_index(factory_values(2).note_l as nat) == NoteValueParam::Half,
        factory_values(2).note_r == factory_values(2).note_l,
        factory_values(2).feedback_l == 0x3F38_51EC,
        factory_values(2).low_cut_l == 0x435C_0000 && factory_values(2).high_cut_l == 0x45BB_8000,
        factory_values(2).output_mix_l == F32_ONE && factory_values(2).output_mix_r == 0x3F47_AE14,
        factory_values(2).tempo_sync == true && factory_values(2).feedback_phase_l == false,
        // Dub Echo: 0.38 s, Eighth, feedback 0.68, 120 Hz to 4.8 kHz, wet 0.72
        factory_names()[3] == "Dub Echo"@,
        factory_values(3).delay_time_l == 0x3EC2_8F5C && factory_values(3).delay_time_r == 0x3EC2_8F5C,
        NoteValueParam::at_index(factory_values(3).note_l as nat) == NoteValueParam::Eighth,
        factory_values(3).note_r == factory_values(3).note_l,
        factory_values(3).feedback_l == 0x3F2E_147B,
        factory_values(3).low_cut_l == 0x42F0_0000 && factory_values(3).high_cut_l == 0x4596_0000,
        factory_values(3).output_mix_l == F32_ONE && factory_values(3).output_mix_r == 0x3F38_51EC,
        factory_values(3).tempo_sync == true && factory_values(3).feedback_phase_l == false,
        // Tape Throw: 0.32 s, Eighth, feedback 0.48, 160 Hz to 4.2 kHz, wet 0.64
        factory_names()[4] == "Tape Throw"@,
        factory_values(4).delay_time_l == 0x3EA3_D70A && factory_values(4).delay_time_r == 0x3EA3_D70A,
        NoteValueParam::at_index(factory_values(4).note_l as nat) == NoteValueParam::Eighth,
        factory_values(4).note_r == factory_values(4).note_l,
        factory_values(4).feedback_l == 0x3EF5_C28F,
        factory_values(4).low_cut_l == 0x4320_0000 && factory_values(4).high_cut_l == 0x4583_4000,
        factory_values(4).output_mix_l == F32_ONE && factory_values(4).output_mix_r == 0x3F23_D70A,
        factory_values(4).tempo_sync == false && factory_values(4).feedback_phase_l == false,
        // Tight Doubler: 0.018 s, SixtyFourth, feedback 0.0, 90 Hz to 12 kHz, wet 0.42
        factory_names()[5] == "Tight Doubler"@,
        factory_values(5).delay_time_l == 0x3C93_74BC && factory_values(5).delay_time_r == 0x3C93_74BC,
        NoteValueParam::at_index(factory_values(5).note_l as nat) == NoteValueParam::SixtyFourth,
        factory_values(5).note_r == factory_values(5).note_l,
        factory_values(5).feedback_l == 0x0000_0000,
        factory_values(5).low_cut_l == 0x42B4_0000 && factory_values(5).high_cut_l == 0x463B_8000,
        factory_values(5).output_mix_l == F32_ONE && factory_values(5).output_mix_r == 0x3ED7_0A3D,
        factory_values(5).tempo_sync == false && factory_values(5).feedback_phase_l == false,
        // Space Echo: 0.42 s, Eighth, feedback 0.56, 120 Hz to 4.5 kHz, wet 0.74
        factory_names()[6] == "Space Echo"@,
        factory_values(6).delay_time_l == 0x3ED7_0A3D && factory_values(6).delay_time_r == 0x3ED7_0A3D,
        NoteValueParam::at_index(factory_values(6).note_l as nat) == NoteValueParam::Eighth,
        factory_values(6).note_r == factory_values(6).note_l,
        factory_values(6).feedback_l == 0x3F0F_5C29,
        factory_values(6).low_cut_l == 0x42F0_0000 && factory_values(6).high_cut_l == 0x458C_A000,
        factory_values(6).output_mix_l == F32_ONE && factory_values(6).output_mix_r == 0x3F3D_70A4,
        factory_values(6).tempo_sync == true && factory_values(6).feedback_phase_l == false,
        // Phase Drift: 0.024 s, SixtyFourth, feedback 0.18, 140 Hz to 9 kHz, wet 0.55
        factory_names()[7] == "Phase Drift"@,
        factory_values(7).delay_time_l == 0x3CC4_9BA6 && factory_values(7).delay_time_r == 0x3CC4_9BA6,
        NoteValueParam::at_index(factory_values(7).note_l as nat) == NoteValueParam::SixtyFourth,
        factory_values(7).note_r == factory_values(7).note_l,
        factory_values(7).feedback_l == 0x3E38_51EC,
        factory_values(7).low_cut_l == 0x430C_0000 && factory_values(7).high_cut_l == 0x460C_A000,
        factory_values(7).output_mix_l == F32_ONE && factory_values(7).output_mix_r == 0x3F0C_CCCD,
        factory_values(7).tempo_sync == false && factory_values(7).feedback_phase_l == true,
        // Rhythmic Delay: 0.5 s, EighthTriplet, feedback 0.52, 150 Hz to 7 kHz, wet 0.68
        factory_names()[8] == "Rhythmic Delay"@,
        factory_values(8).delay_time_l == 0x3F00_0000 && factory_values(8).delay_time_r == 0x3F00_0000,
        NoteValueParam::at_index(factory_values(8).note_l as nat) == NoteValueParam::EighthTriplet,
        factory_values(8).note_r == factory_values(8).note_l,
        factory_values(8).feedback_l == 0x3F05_1EB8,
        factory_values(8).low_cut_l == 0x4316_0000 && factory_values(8).high_cut_l == 0x45DA_C000,
        factory_values(8).output_mix_l == F32_ONE && factory_values(8).output_mix_r == 0x3F2E_147B,
        factory_values(8).tempo_sync == true && factory_values(8).feedback_phase_l == false,
        // Vintage Tape: 0.28 s, Eighth, feedback 0.6, 200 Hz to 3 kHz, wet 0.72
        factory_names()[9] == "Vintage Tape"@,
        factory_values(9).delay_time_l == 0x3E8F_5C29 && factory_values(9).delay_time_r == 0x3E8F_5C29,
        NoteValueParam::at_index(factory_values(9).note_l as nat) == NoteValueParam::Eighth,
        factory_values(9).note_r == factory_values(9).note_l,
        factory_values(9).feedback_l == 0x3F19_999A,
        factory_values(9).low_cut_l == 0x4348_0000 && factory_values(9).high_cut_l == 0x453B_8000,
        factory_values(9).output_mix_l == F32_ONE && factory_values(9).output_mix_r == 0x3F38_51EC,
        factory_values(9).tempo_sync == true && factory_values(9).feedback_phase_l == false,
{
}

/// The metadata of the factory presets: author, creation stamp and preset
/// format version.
pub proof fn lemma_factory_metadata()
    ensures
        FACTORY_AUTHOR@ == "Nebula Audio"@,
        FACTORY_CREATED@ == "2026-05-19T00:00:00Z"@,
        PRESET_VERSION@ == "1.0.0"@,
{
}

/// What the default preset values select: the left input alone, a quarter
/// note, straight routing, no oversampling, no right-side feedback, no
/// crossfeed, every switch off, and full dry and wet levels.
pub proof fn lemma_default_preset_meaning()
    ensures
        ({
            let d = PresetValues::default_spec();
            &&& crate::parameters::InputModeParam::at_index(d.input_mode_l as nat)
                == crate::parameters::InputModeParam::Left
            &&& crate::parameters::InputModeParam::at_index(d.input_mode_r as nat)
                == crate::parameters::InputModeParam::Off
            &&& NoteValueParam::at_index(d.note_l as nat) == NoteValueParam::Quarter
            &&& d.note_r == d.note_l
            &&& crate::parameters::RoutingModeParam::at_index(d.routing as nat)
                == crate::parameters::RoutingModeParam::Straight
            &&& crate::parameters::OversamplingParam::at_index(d.oversampling as nat)
                == crate::parameters::OversamplingParam::Off
            &&& d.feedback_r == F32_ZERO && d.crossfeed_lr == F32_ZERO && d.crossfeed_rl
                == F32_ZERO
            &&& d.deviation_l == F32_ZERO && d.deviation_r == F32_ZERO
            &&& !d.halve_l && !d.halve_r && !d.double_l && !d.double_r
            &&& !d.feedback_phase_l && !d.feedback_phase_r && !d.crossfeed_phase_lr
                && !d.crossfeed_phase_rl
            &&& !d.tempo_sync && !d.stereo_link
            &&& d.output_mix_l == F32_ONE && d.output_mix_r == F32_ONE
            &&& d.input_level_db == F32_ZERO && d.output_level_db == F32_ZERO
        }),
{
}

/// Whether every choice index in `v` names a variant, so that loading the
/// values never meets an index its parameter lacks.
pub open spec fn choice_indices_valid(v: PresetValues) -> bool {
    &&& v.input_mode_l < crate::parameters::INPUT_MODE_COUNT
    &&& v.input_mode_r < crate::parameters::INPUT_MODE_COUNT
    &&& v.note_l < crate::parameters::NOTE_VALUE_COUNT
    &&& v.note_r < crate::parameters::NOTE_VALUE_COUNT
    &&& v.routing < crate::parameters::ROUTING_MODE_COUNT
    &&& v.oversampling < crate::parameters::OVERSAMPLING_COUNT
}

/// Whether the legacy right-side values of `v` mirror its left side, as a
/// mono preset stores them.
pub open spec fn mirrors_left(v: PresetValues) -> bool {
    &&& v.delay_time_r == v.delay_time_l
    &&& v.note_r == v.note_l
    &&& v.low_cut_r == v.low_cut_l
    &&& v.high_cut_r == v.high_cut_l
    &&& v.low_cut_slope_r == v.low_cut_slope_l
    &&& v.high_cut_slope_r == v.high_cut_slope_l
}

/// The factory bank is well formed: its first preset ("Init") holds the
/// defaults, every preset's choice indices are valid and its right side
/// mirrors its left, and no two presets share a name.
pub proof fn lemma_factory_bank_well_formed()
    ensures
        factory_names()[0] == "Init"@,
        factory_values(0) == PresetValues::default_spec(),
        forall|i: int|
            0 <= i < FACTORY_PRESET_COUNT ==> choice_indices_valid(#[trigger] factory_values(i))
                && mirrors_left(factory_values(i)),
        forall|i: int, j: int|
            0 <= i < j < FACTORY_PRESET_COUNT ==> #[trigger] factory_names()[i]
                != #[trigger] factory_names()[j],
{
    reveal_strlit("Init");
    reveal_strlit("Simple Slap");
    reveal_strlit("Ambient Wash");
    reveal_strlit("Dub Echo");
    reveal_strlit("Tape Throw");
    reveal_strlit("Tight Doubler");
    reveal_strlit("Space Echo");
    reveal_strlit("Phase Drift");
    reveal_strlit("Rhythmic Delay");
    reveal_strlit("Vintage Tape");
    assert forall|i: int|
        0 <= i < FACTORY_PRESET_COUNT implies choice_indices_valid(#[trigger] factory_values(i))
        && mirrors_left(factory_values(i)) by {
        if i > 0 {
            assert(factory_specs()[i - 1].note < 17);
        }
    }
    assert forall|i: int, j: int|
        0 <= i < j < FACTORY_PRESET_COUNT implies #[trigger] factory_names()[i]
        != #[trigger] factory_names()[j] by {
        assert(factory_names()[i][0] != factory_names()[j][0] || factory_names()[i].len()
            != factory_names()[j].len() || factory_names()[i][1] != factory_names()[j][1]);
    }
}

// ───────────────────────────────────────────────────────────────────────────
// Preset file names
// ───────────────────────────────────────────────────────────────────────────

/// Whether `c` is an ASCII letter or digit.
pub open spec fn is_ascii_alnum(c: char) -> bool {
    ('0' <= c && c <= '9') || ('a' <= c && c <= 'z') || ('A' <= c && c <= 'Z')
}

/// Whether a preset name keeps `c` in its file name.
pub open spec fn is_kept_in_file_name(c: char) -> bool {
    is_ascii_alnum(c) || c == '-' || c == '_' || c == ' '
}

/// `c` as it appears in a file name: itself when kept, `_` otherwise.
pub open spec fn file_name_char(c: char) -> char {
    if is_kept_in_file_name(c) {
        c
    } else {
        '_'
    }
}

/// `c` with a space turned into `_`.
pub open spec fn space_to_underscore(c: char) -> char {
    if c == ' ' {
        '_'
    } else {
        c
    }
}

/// The file name stem of a preset named `name`: every character but ASCII
/// letters, digits, `-`, `_` and space becomes `_`; the result is trimmed,
/// and its remaining spaces become `_`.
pub open spec fn preset_file_stem(name: Seq<char>) -> Seq<char> {
    crate::text::trimmed(name.map_values(|c: char| file_name_char(c))).map_values(
        |c: char| space_to_underscore(c),
    )
}

/// The file name of a preset named `name`: its stem and `.json`.
pub open spec fn preset_file_name(name: Seq<char>) -> Seq<char> {
    preset_file_stem(name) + ".json"@
}

fn keep_or_underscore(c: char) -> (r: char)
    ensures
        r == file_name_char(c),
{
    if ('0' <= c && c <= '9') || ('a' <= c && c <= 'z') || ('A' <= c && c <= 'Z') || c == '-'
        || c == '_' || c == ' ' {
        c
    } else {
        '_'
    }
}

/// The file name under which a user preset named `name` is stored.
pub fn preset_filename(name: &str) -> (r: String)
    ensures
        r@ == preset_file_name(name@),
{
    let n = name.unicode_len();
    let mut safe = String::new();
    let mut i: usize = 0;
    while i < n
        invariant
            n == name@.len(),
            i <= n,
            safe@ == name@.subrange(0, i as int).map_values(|c: char| file_name_char(c)),
        decreases n - i,
    {
        let c = name.get_char(i);
        crate::text::push_char(&mut safe, keep_or_underscore(c));
        i = i + 1;
        assert(safe@ =~= name@.subrange(0, i as int).map_values(|c: char| file_name_char(c)));
    }
    assert(name@.subrange(0, n as int) =~= name@);
    let trimmed = crate::text::trim_text(safe.as_str());
    let m = trimmed.unicode_len();
    let mut out = String::new();
    let mut j: usize = 0;
    while j < m
        invariant
            m == trimmed@.len(),
            j <= m,
            out@ == trimmed@.subrange(0, j as int).map_values(|c: char| space_to_underscore(c)),
        decreases m - j,
    {
        let c = trimmed.get_char(j);
        let d = if c == ' ' {
            '_'
        } else {
            c
        };
        crate::text::push_char(&mut out, d);
        j = j + 1;
        assert(out@ =~= trimmed@.subrange(0, j as int).map_values(
            |c: char| space_to_underscore(c),
        ));
    }
    assert(trimmed@.subrange(0, m as int) =~= trimmed@);
    out.append(".json");
    out
}

/// Whether `c` may appear in a preset file name stem: an ASCII letter or
/// digit, `-` or `_`.
pub open spec fn is_stem_char(c: char) -> bool {
    is_ascii_alnum(c) || c == '-' || c == '_'
}

/// Preset file names stay inside the preset folder: the stem holds only
/// ASCII letters, digits, `-` and `_` (so no path separator, no dot and no
/// space), and the name is the stem followed by `.json`.
pub proof fn lemma_preset_file_name_is_safe(name: Seq<char>)
    ensures
        forall|k: int|
            0 <= k < preset_file_stem(name).len() ==> is_stem_char(
                #[trigger] preset_file_stem(name)[k],
            ),
        preset_file_name(name).subrange(0, preset_file_stem(name).len() as int)
            == preset_file_stem(name),
        preset_file_name(name).subrange(
            preset_file_stem(name).len() as int,
            preset_file_name(name).len() as int,
        ) == ".json"@,
{
    let mapped = name.map_values(|c: char| file_name_char(c));
    let (a, b) = crate::text::lemma_trimmed_is_infix(mapped);
    let t = crate::text::trimmed(mapped);
    assert forall|k: int| 0 <= k < t.len() implies is_kept_in_file_name(t[k]) by {
        assert(t[k] == mapped[a + k]);
    }
    let stem = preset_file_stem(name);
    assert forall|k: int| 0 <= k < stem.len() implies is_stem_char(#[trigger] stem[k]) by {
        assert(stem[k] == space_to_underscore(t[k]));
    }
    assert(preset_file_name(name).subrange(0, stem.len() as int) =~= stem);
    assert(preset_file_name(name).subrange(stem.len() as int, preset_file_name(name).len() as int)
        =~= ".json"@);
}

/// A name made only of ASCII letters, digits, `-` and `_` is its own file
/// name stem.
pub proof fn lemma_safe_name_is_own_stem(name: Seq<char>)
    requires
        forall|k: int| 0 <= k < name.len() ==> is_stem_char(#[trigger] name[k]),
    ensures
        preset_file_stem(name) == name,
{
    let mapped = name.map_values(|c: char| file_name_char(c));
    assert(mapped =~= name);
    if name.len() > 0 {
        assert(is_stem_char(name[0]));
        assert(is_stem_char(name.last()));
    }
    crate::text::lemma_trimmed_identity(name);
    assert(name.map_values(|c: char| space_to_underscore(c)) =~= name);
}

// ───────────────────────────────────────────────────────────────────────────
// Creation stamps
// ───────────────────────────────────────────────────────────────────────────

#[verifier::external_type_specification]
#[verifier::external_body]
pub struct ExSystemTime(std::time::SystemTime);

/// `SystemTime::now`: the current system clock reading. Nothing is claimed
/// of it: it depends on the clock.
#[verifier::external_body]
fn system_time_now() -> std::time::SystemTime {
    std::time::SystemTime::now()
}

/// `SystemTime::duration_since(UNIX_EPOCH)`: the time elapsed since the Unix
/// epoch, or `None` for a reading before it. Nothing is claimed of the
/// value: it depends on the clock reading, which is opaque here.
#[verifier::external_body]
fn elapsed_since_unix_epoch(t: &std::time::SystemTime) -> Option<std::time::Duration> {
    t.duration_since(std::time::UNIX_EPOCH).ok()
}

/// `Duration::as_secs`: the whole seconds of a duration. Nothing is claimed
/// of the value: durations are opaque here.
#[verifier::external_body]
fn whole_seconds(d: &std::time::Duration) -> u64 {
    d.as_secs()
}

/// The creation stamp for a clock reading of `seconds` whole seconds since
/// the Unix epoch (`None` for a reading before the epoch): the decimal
/// numeral of the seconds, or "0" without a reading.
pub fn creation_stamp(seconds: Option<u64>) -> (r: String)
    ensures
        r@ == crate::text::decimal_digits(
            match seconds {
                Some(s) => s as nat,
                None => 0,
            },
        ),
{
    let secs = match seconds {
        Some(s) => s,
        None => 0,
    };
    crate::text::decimal_string(secs)
}

/// The creation stamp of a newly saved user preset: [`creation_stamp`] of
/// the system clock's reading.
pub fn now_iso8601() -> (r: String)
    ensures
        exists|secs: u64| r@ == crate::text::decimal_digits(secs as nat),
{
    let now = system_time_now();
    let seconds = match elapsed_since_unix_epoch(&now) {
        Some(d) => Some(whole_seconds(&d)),
        None => None,
    };
    let r = creation_stamp(seconds);
    proof {
        let secs: u64 = match seconds {
            Some(s) => s,
            None => 0,
        };
        assert(r@ == crate::text::decimal_digits(secs as nat));
    }
    r
}

// ───────────────────────────────────────────────────────────────────────────
// Ordering of user presets
// ───────────────────────────────────────────────────────────────────────────

/// The sort key of a preset: its name in lower case.
pub open spec fn name_key(p: PresetData) -> Seq<char> {
    crate::text::lowercase(p.name@)
}

/// The presets whose sort key is `key`, in their order in `s`.
pub open spec fn with_key(s: Seq<PresetData>, key: Seq<char>) -> Seq<PresetData> {
    s.filter(|p: PresetData| name_key(p) == key)
}

/// Whether `s` is in ascending order of sort keys.
pub open spec fn sorted_by_name(s: Seq<PresetData>) -> bool {
    forall|i: int, j: int|
        0 <= i < j < s.len() ==> crate::text::text_le(
            #[trigger] name_key(s[i]),
            #[trigger] name_key(s[j]),
        )
}

proof fn lemma_with_key_push(s: Seq<PresetData>, x: PresetData, key: Seq<char>)
    ensures
        with_key(s.push(x), key) == if name_key(x) == key {
            with_key(s, key).push(x)
        } else {
            with_key(s, key)
        },
{
    s.lemma_filter_push(x, |p: PresetData| name_key(p) == key);
}

proof fn lemma_with_key_insert(s: Seq<PresetData>, pos: int, x: PresetData, key: Seq<char>)
    requires
        0 <= pos <= s.len(),
        forall|j: int| pos <= j < s.len() ==> name_key(#[trigger] s[j]) != name_key(x),
    ensures
        with_key(s.insert(pos, x), key) == if name_key(x) == key {
            with_key(s, key).push(x)
        } else {
            with_key(s, key)
        },
{
    let pred = |p: PresetData| name_key(p) == key;
    let front = s.subrange(0, pos);
    let back = s.subrange(pos, s.len() as int);
    assert(s.insert(pos, x) =~= front.push(x) + back);
    assert(s =~= front + back);
    Seq::filter_distributes_over_add(front.push(x), back, pred);
    Seq::filter_distributes_over_add(front, back, pred);
    front.lemma_filter_push(x, pred);
    if name_key(x) == key {
        assert forall|j: int| 0 <= j < back.len() implies !pred(back[j]) by {
            assert(back[j] == s[pos + j]);
        }
        back.lemma_all_neg_filter_empty(pred);
        assert(front.filter(pred).push(x) + back.filter(pred) =~= front.filter(pred).push(x));
        assert(front.filter(pred) + back.filter(pred) =~= front.filter(pred));
    }
}

/// Sort presets by lower-cased name, keeping presets of equal keys in their
/// given order (a stable sort).
pub fn sort_presets_by_name(presets: Vec<PresetData>) -> (r: Vec<PresetData>)
    ensures
        r@.len() == presets@.len(),
        sorted_by_name(r@),
        forall|key: Seq<char>| #[trigger] with_key(r@, key) == with_key(presets@, key),
{
    let ghost input = presets@;
    let mut rest = presets;
    let mut sorted: Vec<PresetData> = Vec::new();
    let mut keys: Vec<String> = Vec::new();
    let ghost mut done: int = 0;
    while rest.len() > 0
        invariant
            0 <= done <= input.len(),
            rest@ == input.subrange(done, input.len() as int),
            sorted@.len() == done,
            keys@.len() == sorted@.len(),
            forall|j: int| 0 <= j < keys@.len() ==> (#[trigger] keys@[j])@ == name_key(sorted@[j]),
            sorted_by_name(sorted@),
            forall|key: Seq<char>|
                #[trigger] with_key(sorted@, key) == with_key(input.subrange(0, done), key),
        decreases rest@.len(),
    {
        let x = rest.remove(0);
        let kx = crate::text::lowercase_text(x.name.as_str());
        let mut pos = sorted.len();
        while pos > 0 && !crate::text::text_le_exec(keys[pos - 1].as_str(), kx.as_str())
            invariant
                pos <= sorted@.len(),
                keys@.len() == sorted@.len(),
                forall|j: int| 0 <= j < keys@.len() ==> (#[trigger] keys@[j])@ == name_key(sorted@[j]),
                kx@ == name_key(x),
                forall|j: int|
                    pos <= j < sorted@.len() ==> !crate::text::text_le(
                        name_key(#[trigger] sorted@[j]),
                        name_key(x),
                    ),
            decreases pos,
        {
            pos = pos - 1;
        }
        let ghost old_sorted = sorted@;
        proof {
            assert forall|j: int| pos <= j < old_sorted.len() implies name_key(
                #[trigger] old_sorted[j],
            ) != name_key(x) by {
                crate::text::lemma_text_le_reflexive(name_key(x), 0);
            }
            assert forall|key: Seq<char>| #[trigger]
                with_key(old_sorted.insert(pos as int, x), key) == with_key(
                    input.subrange(0, done + 1),
                    key,
                ) by {
                lemma_with_key_insert(old_sorted, pos as int, x, key);
                assert(input.subrange(0, done + 1) =~= input.subrange(0, done).push(x));
                lemma_with_key_push(input.subrange(0, done), x, key);
            }
            assert forall|i: int, j: int|
                0 <= i < j < old_sorted.len() + 1 implies crate::text::text_le(
                #[trigger] name_key(old_sorted.insert(pos as int, x)[i]),
                #[trigger] name_key(old_sorted.insert(pos as int, x)[j]),
            ) by {
                let s2 = old_sorted.insert(pos as int, x);
                if j < pos {
                    assert(s2[i] == old_sorted[i] && s2[j] == old_sorted[j]);
                } else if i > pos {
                    assert(s2[i] == old_sorted[i - 1] && s2[j] == old_sorted[j - 1]);
                } else if i == pos {
                    assert(s2[j] == old_sorted[j - 1]);
                    crate::text::lemma_text_le_total(name_key(x), name_key(old_sorted[j - 1]), 0);
                } else if j == pos {
                    assert(s2[i] == old_sorted[i]);
                    if i < pos - 1 {
                        crate::text::lemma_text_le_transitive(
                            name_key(old_sorted[i]),
                            name_key(old_sorted[pos - 1]),
                            name_key(x),
                            0,
                        );
                    }
                } else {
                    assert(s2[i] == old_sorted[i] && s2[j] == old_sorted[j - 1]);
                }
            }
        }
        sorted.insert(pos, x);
        keys.insert(pos, kx);
        proof {
            assert(sorted@ == old_sorted.insert(pos as int, x));
            done = done + 1;
            assert(rest@ =~= input.subrange(done, input.len() as int));
        }
    }
    assert(input.subrange(0, done) =~= input);
    sorted
}

} // verus!
