use nebula_delay::parameters::{NoteValueParam, ParamSnapshot};
use nebula_delay::preset::{
    build_factory_presets, default_delay_time, default_feedback, default_filter_slope,
    default_high_cut, default_input_l, default_low_cut, default_mix, default_note,
    default_routing, creation_stamp, now_iso8601, preset, preset_filename, sort_presets_by_name, user_preset,
    values, MonoPresetSpec, PresetData, PresetValues, FACTORY_AUTHOR, FACTORY_CREATED,
    PRESET_VERSION,
};
use nebula_delay::text::{decimal_string, text_le_exec};

#[test]
fn preset_defaults() {
    assert_eq!(default_input_l(), 1);
    assert_eq!(default_note(), 3);
    assert_eq!(default_routing(), 1);
    assert_eq!(f32::from_bits(default_delay_time()), 0.5);
    assert_eq!(f32::from_bits(default_low_cut()), 20.0);
    assert_eq!(f32::from_bits(default_high_cut()), 20_000.0);
    assert_eq!(f32::from_bits(default_filter_slope()), 12.0);
    assert_eq!(f32::from_bits(default_feedback()), 0.4);
    assert_eq!(f32::from_bits(default_mix()), 1.0);
    let v = PresetValues::default();
    assert_eq!(v.input_mode_r, 0);
    assert_eq!(f32::from_bits(v.feedback_r), 0.0);
    assert_eq!(v.oversampling, 0);
    assert!(!v.stereo_link);
}

#[test]
fn default_preset_loads_default_snapshot() {
    assert_eq!(PresetValues::default().mono_snapshot(), ParamSnapshot::default_values());
}

#[test]
fn mono_snapshot_reads_left_side() {
    let mut v = PresetValues::default();
    v.note_l = 6;
    v.note_r = 9;
    v.delay_time_r = 1.5f32.to_bits();
    v.oversampling = 4;
    v.feedback_phase_l = true;
    let s = v.mono_snapshot();
    assert_eq!(s.note_l, 6);
    assert_eq!(s.oversampling, 4);
    assert!(s.feedback_phase_l);
    assert_eq!(f32::from_bits(s.delay_time_l), 0.5);
}

#[test]
fn factory_bank_contents() {
    let bank = build_factory_presets();
    let names: Vec<&str> = bank.iter().map(|p| p.name.as_str()).collect();
    assert_eq!(
        names,
        vec![
            "Init",
            "Simple Slap",
            "Ambient Wash",
            "Dub Echo",
            "Tape Throw",
            "Tight Doubler",
            "Space Echo",
            "Phase Drift",
            "Rhythmic Delay",
            "Vintage Tape"
        ]
    );
    for p in &bank {
        assert_eq!(p.author, "Nebula Audio");
        assert_eq!(p.created, "2026-05-19T00:00:00Z");
        assert_eq!(p.version, "1.0.0");
        assert!((p.values.note_l as usize) < 17);
        assert_eq!(p.values.note_r, p.values.note_l);
    }
    assert_eq!(bank[0].values, PresetValues::default());
    let slap = &bank[1].values;
    assert_eq!(f32::from_bits(slap.delay_time_l), 0.075);
    assert_eq!(f32::from_bits(slap.delay_time_r), 0.075);
    assert_eq!(slap.note_l, 5);
    assert_eq!(f32::from_bits(slap.feedback_l), 0.05);
    assert_eq!(f32::from_bits(slap.low_cut_l), 80.0);
    assert_eq!(f32::from_bits(slap.high_cut_r), 12_000.0);
    assert_eq!(f32::from_bits(slap.output_mix_l), 1.0);
    assert_eq!(f32::from_bits(slap.output_mix_r), 0.45);
    assert!(!slap.tempo_sync);
    let drift = &bank[7].values;
    assert!(drift.feedback_phase_l);
    assert_eq!(NoteValueParam::from_index(drift.note_l as usize), NoteValueParam::SixtyFourth);
    let vintage = &bank[9].values;
    assert_eq!(f32::from_bits(vintage.high_cut_l), 3_000.0);
    assert!(vintage.tempo_sync);
}

#[test]
fn preset_and_values_builders() {
    let spec = MonoPresetSpec {
        delay_time: 0.25f32.to_bits(),
        note: 2,
        feedback: 0.3f32.to_bits(),
        low_cut: 100.0f32.to_bits(),
        high_cut: 8000.0f32.to_bits(),
        mix: 0.5f32.to_bits(),
        tempo_sync: true,
        phase_invert: true,
    };
    let v = values(spec);
    assert_eq!(f32::from_bits(v.delay_time_r), 0.25);
    assert_eq!(v.note_r, 2);
    assert_eq!(f32::from_bits(v.feedback_r), 0.0);
    assert_eq!(f32::from_bits(v.output_mix_r), 0.5);
    assert!(v.feedback_phase_l);
    assert!(!v.feedback_phase_r);
    let p = preset("Mine", v);
    assert_eq!(p.name, "Mine");
    assert_eq!(p.author, FACTORY_AUTHOR);
    assert_eq!(p.created, FACTORY_CREATED);
    assert_eq!(p.version, PRESET_VERSION);
    let u = user_preset("Song A", "me", "1700000000".to_string(), v);
    assert_eq!(u.name, "Song A");
    assert_eq!(u.author, "me");
    assert_eq!(u.created, "1700000000");
    assert_eq!(u.version, "1.0.0");
}

#[test]
fn preset_filenames() {
    assert_eq!(preset_filename("My Preset"), "My_Preset.json");
    assert_eq!(preset_filename("  Dub Echo  "), "Dub_Echo.json");
    assert_eq!(preset_filename("a/b\\c.d"), "a_b_c_d.json");
    assert_eq!(preset_filename("Ünïcode é"), "_n_code__.json");
    assert_eq!(preset_filename("tab\there"), "tab_here.json");
    assert_eq!(preset_filename("keep-this_one9"), "keep-this_one9.json");
    assert_eq!(preset_filename(""), ".json");
    assert_eq!(preset_filename("../../etc"), "______etc.json");
}

#[test]
fn creation_stamp_is_decimal_seconds() {
    let stamp = now_iso8601();
    assert!(!stamp.is_empty());
    assert!(stamp.chars().all(|c| c.is_ascii_digit()));
    let secs: u64 = stamp.parse().unwrap();
    assert!(secs > 1_600_000_000);
}

#[test]
fn decimal_numerals() {
    assert_eq!(decimal_string(0), "0");
    assert_eq!(decimal_string(7), "7");
    assert_eq!(decimal_string(1234), "1234");
    assert_eq!(decimal_string(u64::MAX), "18446744073709551615");
}

fn named(name: &str, note: u8) -> PresetData {
    let mut v = PresetValues::default();
    v.note_l = note;
    preset(name, v)
}

#[test]
fn user_presets_sort_by_lowercase_name_stably() {
    let input = vec![
        named("beta", 0),
        named("Alpha", 1),
        named("alpha", 2),
        named("ALPHA", 3),
        named("Ärger", 4),
        named("zeta", 5),
    ];
    let sorted = sort_presets_by_name(input);
    let order: Vec<(&str, u8)> =
        sorted.iter().map(|p| (p.name.as_str(), p.values.note_l)).collect();
    assert_eq!(
        order,
        vec![("Alpha", 1), ("alpha", 2), ("ALPHA", 3), ("beta", 0), ("zeta", 5), ("Ärger", 4)]
    );
    assert!(sort_presets_by_name(Vec::new()).is_empty());
}

#[test]
fn text_order() {
    assert!(text_le_exec("abc", "abd"));
    assert!(text_le_exec("ab", "abc"));
    assert!(!text_le_exec("abc", "ab"));
    assert!(text_le_exec("", ""));
    assert!(text_le_exec("Z", "a"));
}

#[test]
fn creation_stamps() {
    assert_eq!(creation_stamp(Some(1_700_000_000)), "1700000000");
    assert_eq!(creation_stamp(Some(0)), "0");
    assert_eq!(creation_stamp(None), "0");
}
