use nebula_delay::dsp;
use nebula_delay::parameters::{
    double_from_string, double_to_string, halve_from_string, halve_to_string, phase_from_string,
    phase_to_string, sync_from_string, sync_to_string, AbSnapshots, InputModeParam,
    NoteValueParam, OversamplingParam, ParamSnapshot, RoutingModeParam, UndoRedoStack,
};

// ── Enum round-trip conversions ─────────────────────────────────

#[test]
fn input_mode_param_round_trip() {
    for i in 0..5 {
        let param = InputModeParam::from_index(i);
        assert_eq!(param.to_index(), i);
    }
}

#[test]
fn note_value_param_round_trip() {
    for i in 0..17 {
        let param = NoteValueParam::from_index(i);
        assert_eq!(param.to_index(), i);
    }
}

#[test]
fn routing_mode_param_round_trip() {
    for i in 0..11 {
        let param = RoutingModeParam::from_index(i);
        assert_eq!(param.to_index(), i);
    }
}

#[test]
fn oversampling_param_round_trip() {
    for i in 0..5 {
        let param = OversamplingParam::from_index(i);
        assert_eq!(param.to_index(), i);
    }
}

// ── Enum → DSP conversion ──────────────────────────────────────

#[test]
fn input_mode_to_dsp() {
    assert_eq!(dsp::InputMode::from(InputModeParam::Off), dsp::InputMode::Off);
    assert_eq!(dsp::InputMode::from(InputModeParam::Left), dsp::InputMode::Left);
    assert_eq!(dsp::InputMode::from(InputModeParam::Right), dsp::InputMode::Right);
    assert_eq!(
        dsp::InputMode::from(InputModeParam::LeftPlusRight),
        dsp::InputMode::LeftPlusRight
    );
    assert_eq!(
        dsp::InputMode::from(InputModeParam::LeftMinusRight),
        dsp::InputMode::LeftMinusRight
    );
}

#[test]
fn note_value_to_dsp() {
    assert_eq!(dsp::NoteValue::from(NoteValueParam::Quarter), dsp::NoteValue::Quarter);
    assert_eq!(
        dsp::NoteValue::from(NoteValueParam::EighthTriplet),
        dsp::NoteValue::EighthTriplet
    );
    assert_eq!(
        dsp::NoteValue::from(NoteValueParam::EighthDotted),
        dsp::NoteValue::EighthDotted
    );
}

#[test]
fn routing_mode_to_dsp() {
    assert_eq!(
        dsp::RoutingMode::from(RoutingModeParam::Customized),
        dsp::RoutingMode::Customized
    );
    assert_eq!(dsp::RoutingMode::from(RoutingModeParam::PingPong), dsp::RoutingMode::PingPong);
    assert_eq!(dsp::RoutingMode::from(RoutingModeParam::PingPongR), dsp::RoutingMode::PingPongR);
}

// ── Undo/Redo stack ────────────────────────────────────────────

#[test]
fn undo_redo_basic() {
    let mut stack = UndoRedoStack::default();
    let snap_a = ParamSnapshot::default_values();
    let mut snap_b = snap_a.clone();
    snap_b.feedback_l = 0.8f32.to_bits();

    stack.push_undo(snap_a.clone());
    assert_eq!(stack.undo.len(), 1);
    assert_eq!(stack.redo.len(), 0);

    let result = stack.undo(snap_b.clone());
    assert!(result.is_some());
    assert_eq!(f32::from_bits(result.unwrap().feedback_l), 0.4);
    assert_eq!(stack.redo.len(), 1);

    let result = stack.redo(snap_a.clone());
    assert!(result.is_some());
    assert_eq!(f32::from_bits(result.unwrap().feedback_l), 0.8);
}

#[test]
fn undo_stack_max_depth() {
    let mut stack = UndoRedoStack::default();
    let snap = ParamSnapshot::default_values();

    for _ in 0..60 {
        stack.push_undo(snap.clone());
    }
    assert_eq!(stack.undo.len(), UndoRedoStack::MAX_DEPTH);
}

// ── Snapshot defaults ──────────────────────────────────────────

#[test]
fn snapshot_default_values() {
    let snap = ParamSnapshot::default_values();
    assert_eq!(f32::from_bits(snap.delay_time_l), 0.5);
    assert_eq!(f32::from_bits(snap.feedback_l), 0.4);
    assert_eq!(f32::from_bits(snap.output_mix_l), 1.0);
    assert_eq!(snap.oversampling, 0);
    assert!(!snap.tempo_sync);
}

// ── A/B snapshots default ──────────────────────────────────────

#[test]
fn ab_snapshots_default() {
    let ab = AbSnapshots::default();
    assert_eq!(f32::from_bits(ab.a.feedback_l), 0.4);
    assert_eq!(f32::from_bits(ab.b.feedback_l), 0.4);
}

// ── Bool param display names ───────────────────────────────────

#[test]
fn bool_display_halve() {
    assert_eq!(halve_to_string(false), "Off");
    assert_eq!(halve_to_string(true), ":2");
}

#[test]
fn bool_display_double() {
    assert_eq!(double_to_string(false), "Off");
    assert_eq!(double_to_string(true), "x2");
}

#[test]
fn bool_display_phase() {
    assert_eq!(phase_to_string(false), "Normal");
    assert_eq!(phase_to_string(true), "Inverted");
}

#[test]
fn bool_display_sync() {
    assert_eq!(sync_to_string(false), "Free");
    assert_eq!(sync_to_string(true), "Sync");
}

#[test]
fn bool_display_link() {
    // The mono plugin has no stereo-link switch; this checks the display
    // convention that its stereo sibling uses for it.
    let format_link = |v: bool| {
        if v {
            "Linked".to_string()
        } else {
            "Unlinked".to_string()
        }
    };
    assert_eq!(format_link(false), "Unlinked");
    assert_eq!(format_link(true), "Linked");
}

// ── Further checks ─────────────────────────────────────────────

#[test]
fn enum_index_values() {
    assert_eq!(NoteValueParam::Quarter.to_index(), 3);
    assert_eq!(NoteValueParam::from_index(16), NoteValueParam::ThirtySecondDotted);
    assert_eq!(RoutingModeParam::from_index(1), RoutingModeParam::Straight);
    assert_eq!(InputModeParam::from_index(1), InputModeParam::Left);
    assert_eq!(OversamplingParam::SixX.to_index(), 3);
}

#[test]
fn oversampling_factors() {
    assert_eq!(OversamplingParam::Off.factor(), 1);
    assert_eq!(OversamplingParam::TwoX.factor(), 2);
    assert_eq!(OversamplingParam::FourX.factor(), 4);
    assert_eq!(OversamplingParam::SixX.factor(), 6);
    assert_eq!(OversamplingParam::EightX.factor(), 8);
}

#[test]
fn bool_text_parsing() {
    assert_eq!(halve_from_string(":2"), Some(true));
    assert_eq!(halve_from_string("  ON "), Some(true));
    assert_eq!(halve_from_string("True"), Some(true));
    assert_eq!(halve_from_string("Off"), Some(false));
    assert_eq!(halve_from_string("x2"), Some(false));
    assert_eq!(double_from_string(" X2"), Some(true));
    assert_eq!(double_from_string(":2"), Some(false));
    assert_eq!(phase_from_string("Inverted"), Some(true));
    assert_eq!(phase_from_string("INV\t"), Some(true));
    assert_eq!(phase_from_string("Normal"), Some(false));
    assert_eq!(sync_from_string("Sync"), Some(true));
    assert_eq!(sync_from_string("Free"), Some(false));
    assert_eq!(sync_from_string(""), Some(false));
}

#[test]
fn bool_text_round_trip() {
    for v in [false, true] {
        assert_eq!(halve_from_string(&halve_to_string(v)), Some(v));
        assert_eq!(double_from_string(&double_to_string(v)), Some(v));
        assert_eq!(phase_from_string(&phase_to_string(v)), Some(v));
        assert_eq!(sync_from_string(&sync_to_string(v)), Some(v));
    }
}

#[test]
fn undo_redo_round_trip_restores_history() {
    let mut stack = UndoRedoStack::default();
    let a = ParamSnapshot::default_values();
    let mut b = a;
    b.note_l = 7;
    let mut c = a;
    c.tempo_sync = true;
    stack.push_undo(a);
    stack.push_undo(b);
    let undone = stack.undo(c).unwrap();
    assert_eq!(undone, b);
    let redone = stack.redo(undone).unwrap();
    assert_eq!(redone, c);
    assert_eq!(stack.undo, vec![a, b]);
    assert!(stack.redo.is_empty());
}

#[test]
fn undo_on_empty_history_keeps_current_for_redo() {
    let mut stack = UndoRedoStack::default();
    let a = ParamSnapshot::default_values();
    assert_eq!(stack.undo(a), None);
    assert_eq!(stack.redo, vec![a]);
    assert!(stack.undo.is_empty());
}

#[test]
fn push_discards_oldest_and_clears_redo() {
    let mut stack = UndoRedoStack::default();
    for i in 0..51 {
        let mut s = ParamSnapshot::default_values();
        s.note_l = i;
        stack.push_undo(s);
    }
    assert_eq!(stack.undo.len(), 50);
    assert_eq!(stack.undo[0].note_l, 1);
    assert_eq!(stack.undo[49].note_l, 50);
    let cur = ParamSnapshot::default_values();
    stack.undo(cur);
    assert_eq!(stack.redo.len(), 1);
    stack.push_undo(cur);
    assert!(stack.redo.is_empty());
}

#[test]
fn redo_keeps_max_depth() {
    let mut stack = UndoRedoStack::default();
    for i in 0..50 {
        let mut s = ParamSnapshot::default_values();
        s.note_l = i;
        stack.push_undo(s);
    }
    let mut current = ParamSnapshot::default_values();
    current.note_l = 99;
    assert_eq!(stack.redo(current), None);
    assert_eq!(stack.undo.len(), UndoRedoStack::MAX_DEPTH);
    assert_eq!(stack.undo[0].note_l, 1);
    assert_eq!(stack.undo[49].note_l, 99);
}

#[test]
fn redo_after_undo_on_full_history() {
    let mut stack = UndoRedoStack::default();
    for i in 0..50 {
        let mut s = ParamSnapshot::default_values();
        s.note_l = i;
        stack.push_undo(s);
    }
    let mut current = ParamSnapshot::default_values();
    current.note_l = 77;
    let undone = stack.undo(current).unwrap();
    assert_eq!(undone.note_l, 49);
    let redone = stack.redo(undone).unwrap();
    assert_eq!(redone.note_l, 77);
    assert_eq!(stack.undo.len(), 50);
    assert_eq!(stack.undo[0].note_l, 0);
    assert!(stack.redo.is_empty());
}

#[test]
fn ab_toggle_twice_restores() {
    let mut bank = AbSnapshots::default();
    let mut first = ParamSnapshot::default_values();
    first.halve_l = true;
    let mut second = ParamSnapshot::default_values();
    second.double_l = true;
    let (slot, to_apply) = bank.toggle_from(0, first);
    assert_eq!(slot, 1);
    assert_eq!(to_apply, ParamSnapshot::default_values());
    assert_eq!(bank.a, first);
    let (slot, to_apply) = bank.toggle_from(slot, second);
    assert_eq!(slot, 0);
    assert_eq!(to_apply, first);
    assert_eq!(bank.b, second);
}

#[test]
fn ab_save_to_slot() {
    let mut bank = AbSnapshots::default();
    let mut s = ParamSnapshot::default_values();
    s.oversampling = 2;
    bank.save_to_slot(7, s);
    assert_eq!(bank.b, s);
    assert_eq!(bank.a, ParamSnapshot::default_values());
    bank.save_to_slot(0, s);
    assert_eq!(bank.a, s);
}

#[test]
fn default_snapshot_other_fields() {
    let snap = ParamSnapshot::default_values();
    assert_eq!(f32::from_bits(snap.input_level_db), 0.0);
    assert_eq!(f32::from_bits(snap.low_cut_l), 20.0);
    assert_eq!(f32::from_bits(snap.high_cut_l), 20000.0);
    assert_eq!(f32::from_bits(snap.low_cut_slope_l), 12.0);
    assert_eq!(f32::from_bits(snap.high_cut_slope_l), 12.0);
    assert_eq!(f32::from_bits(snap.output_mix_r), 1.0);
    assert_eq!(NoteValueParam::from_index(snap.note_l), NoteValueParam::Quarter);
}
