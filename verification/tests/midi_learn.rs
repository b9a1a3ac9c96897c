use nebula_cluster::midi::{MidiLearnShared, MIDI_WAITING_FOR_CONTROL, UNMAPPED_CC};
use nebula_cluster::model::ControlId;

#[test]
fn midi_learn_syncs_audio_thread_binding_to_gui_mapping() {
    let mut midi_learn = MidiLearnShared::new();

    midi_learn.learn_cc(74, ControlId::DistSaturation);

    assert_eq!(
        midi_learn.binding_for_cc(74),
        Some(ControlId::DistSaturation)
    );
    midi_learn.sync_mutex_from_atomic_if_needed();
    assert_eq!(
        midi_learn.mapping(74),
        Some(ControlId::DistSaturation.index() as u8)
    );
}

#[test]
fn midi_learn_syncs_gui_cleanup_to_atomic_bindings() {
    let mut midi_learn = MidiLearnShared::new();
    midi_learn.learn_cc(11, ControlId::GlobalMix);
    midi_learn.sync_mutex_from_atomic_if_needed();

    midi_learn.clear_all_mappings();

    assert_eq!(midi_learn.binding_for_cc(11), None);
}

#[test]
fn midi_learn_save_current_mapping_updates_rollback_state() {
    let mut midi_learn = MidiLearnShared::new();

    midi_learn.learn_cc(21, ControlId::OutputLevel);
    midi_learn.save_current_mapping();

    assert_eq!(
        midi_learn.saved_mapping(21),
        Some(ControlId::OutputLevel.index() as u8)
    );
}

// Closing the editor saves the current mapping: what its drop does.
#[test]
fn editor_close_saves_current_midi_mapping_for_rollback() {
    let mut midi_learn = MidiLearnShared::new();

    midi_learn.learn_cc(71, ControlId::FilterLpf);
    midi_learn.save_current_mapping();

    assert_eq!(
        midi_learn.saved_mapping(71),
        Some(ControlId::FilterLpf.index() as u8)
    );
}

// Closing the plugin saves the current mapping: what its drop does.
#[test]
fn plugin_close_saves_current_midi_mapping_for_rollback() {
    let mut midi_learn = MidiLearnShared::new();

    midi_learn.learn_cc(22, ControlId::InputPan);
    midi_learn.save_current_mapping();

    assert_eq!(
        midi_learn.saved_mapping(22),
        Some(ControlId::InputPan.index() as u8)
    );
}

#[test]
fn new_state_is_unmapped_and_enabled() {
    let midi = MidiLearnShared::new();
    assert!(midi.midi_enabled());
    assert_eq!(midi.learning_target(), UNMAPPED_CC);
    for cc in 0..128 {
        assert_eq!(midi.binding_for_cc(cc), None);
    }
    assert!(midi.sorted_mappings().is_empty());
}

#[test]
fn learn_workflow_binds_moved_controller() {
    let mut midi = MidiLearnShared::new();
    midi.toggle_learning();
    assert_eq!(midi.learning_target(), MIDI_WAITING_FOR_CONTROL);
    assert_eq!(midi.learn_label(), "Pick Control");
    assert!(midi.pick_control(ControlId::CompRatio));
    assert_eq!(midi.learning_target(), ControlId::CompRatio.index() as i32);
    assert_eq!(midi.learn_label(), "Move MIDI");
    midi.handle_cc(7, 0x3f00_0000);
    assert_eq!(midi.learning_target(), UNMAPPED_CC);
    assert_eq!(midi.learn_label(), "MIDI Learn");
    assert_eq!(midi.binding_for_cc(7), Some(ControlId::CompRatio));
    let changes = midi.take_pending_changes();
    assert_eq!(changes, vec![(ControlId::CompRatio, 0x3f00_0000)]);
    assert!(midi.take_pending_changes().is_empty());
}

#[test]
fn pick_only_while_waiting_select_while_active() {
    let mut midi = MidiLearnShared::new();
    assert!(!midi.pick_control(ControlId::InputLevel));
    assert!(!midi.select_control(ControlId::InputLevel));
    assert_eq!(midi.learning_target(), UNMAPPED_CC);
    midi.set_learning_target(3);
    assert!(!midi.pick_control(ControlId::InputLevel));
    assert!(midi.select_control(ControlId::GlobalMix));
    assert_eq!(midi.learning_target(), 4);
    midi.toggle_learning();
    assert_eq!(midi.learning_target(), UNMAPPED_CC);
}

#[test]
fn disabled_midi_ignores_controllers() {
    let mut midi = MidiLearnShared::new();
    midi.learn_cc(1, ControlId::DistMix);
    midi.set_midi_enabled(false);
    midi.handle_cc(1, 99);
    assert!(midi.take_pending_changes().is_empty());
    midi.set_midi_enabled(true);
    assert!(midi.take_pending_changes().is_empty());
}

#[test]
fn high_controller_numbers_share_the_last_slot() {
    let mut midi = MidiLearnShared::new();
    midi.learn_cc(127, ControlId::CompHold);
    midi.handle_cc(200, 5);
    assert_eq!(midi.binding_for_cc(300), Some(ControlId::CompHold));
    assert_eq!(midi.take_pending_changes(), vec![(ControlId::CompHold, 5)]);
}

#[test]
fn pending_changes_follow_controller_order_and_skip_unbound() {
    let mut midi = MidiLearnShared::new();
    midi.learn_cc(9, ControlId::Harmonic2);
    midi.learn_cc(3, ControlId::Harmonic3);
    midi.handle_cc(9, 90);
    midi.handle_cc(5, 50);
    midi.handle_cc(3, 30);
    assert_eq!(
        midi.take_pending_changes(),
        vec![(ControlId::Harmonic3, 30), (ControlId::Harmonic2, 90)]
    );
}

#[test]
fn roll_back_restores_saved_mapping() {
    let mut midi = MidiLearnShared::new();
    midi.learn_cc(10, ControlId::FilterHpf);
    midi.save_current_mapping();
    midi.learn_cc(11, ControlId::FilterLpf);
    midi.learn_cc(10, ControlId::FilterHpRes);
    midi.sync_mutex_from_atomic_if_needed();
    assert_eq!(midi.mapping(11), Some(ControlId::FilterLpf.index() as u8));
    midi.roll_back();
    assert_eq!(midi.mapping(11), None);
    assert_eq!(midi.binding_for_cc(11), None);
    assert_eq!(midi.binding_for_cc(10), Some(ControlId::FilterHpf));
}

#[test]
fn delete_mapping_unbinds_only_that_controller() {
    let mut midi = MidiLearnShared::new();
    midi.learn_cc(20, ControlId::CompKnee);
    midi.learn_cc(2, ControlId::CompBoost);
    midi.sync_mutex_from_atomic_if_needed();
    assert_eq!(
        midi.sorted_mappings(),
        vec![
            (2, ControlId::CompBoost.index() as u8),
            (20, ControlId::CompKnee.index() as u8)
        ]
    );
    midi.delete_mapping(20);
    assert_eq!(midi.binding_for_cc(20), None);
    assert_eq!(midi.binding_for_cc(2), Some(ControlId::CompBoost));
}

#[test]
fn sync_without_changes_keeps_mapping() {
    let mut midi = MidiLearnShared::new();
    midi.learn_cc(30, ControlId::GlobalPhase);
    midi.sync_mutex_from_atomic_if_needed();
    midi.delete_mapping(30);
    midi.sync_mutex_from_atomic_if_needed();
    assert_eq!(midi.mapping(30), None);
}
