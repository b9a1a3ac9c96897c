use nebula_cluster::editor::{
    cleanup_action, control_cell_slot, midi_context_action, next_chaos_bits, Accent, CleanupAction,
    EditorKey, EditorState, KeyOutcome, MidiMenuAction, Tab, CHAOS_SEED,
};
use nebula_cluster::history::{UndoHistory, MAX_UNDO};
use nebula_cluster::midi::{MidiLearnShared, UNMAPPED_CC};
use nebula_cluster::model::ControlId;

#[test]
fn tabs_list_their_controls() {
    assert_eq!(Tab::ALL, [Tab::Global, Tab::Distortion, Tab::Filter, Tab::Compressor]);
    assert_eq!(Tab::Global.label(), "Global");
    assert_eq!(Tab::Compressor.label(), "Compressor");
    assert_eq!(Tab::Filter.accent(), Accent::Purple);
    assert_eq!(Tab::Distortion.accent(), Accent::Magenta);
    assert_eq!(Tab::Global.controls().len(), 7);
    assert_eq!(Tab::Distortion.controls().len(), 14);
    assert_eq!(Tab::Filter.controls()[3], ControlId::FilterHpRes);
    assert_eq!(Tab::Compressor.controls()[10], ControlId::CompHold);
}

#[test]
fn undo_then_redo_brings_states_back() {
    let mut history: UndoHistory<u32> = UndoHistory::new();
    history.push(1);
    history.push(1);
    assert_eq!(history.undo_len(), 1);
    history.push(2);
    assert_eq!(history.undo(3), Some(2));
    assert_eq!(history.redo_len(), 1);
    assert_eq!(history.redo(2), Some(3));
    assert_eq!(history.undo(3), Some(2));
    history.push(9);
    assert_eq!(history.redo_len(), 0);
    assert_eq!(history.redo(4), None);
    assert_eq!(history.undo(4), Some(9));
    assert_eq!(history.undo(9), Some(1));
    assert_eq!(history.undo(1), None);
}

#[test]
fn undo_keeps_the_last_sixty_four() {
    let mut history: UndoHistory<usize> = UndoHistory::new();
    for step in 0..100 {
        history.push(step);
    }
    assert_eq!(history.undo_len(), MAX_UNDO);
    assert_eq!(history.undo(100), Some(99));
    let mut last = None;
    while let Some(s) = history.undo(0) {
        last = Some(s);
    }
    assert_eq!(last, Some(36));
    assert_eq!(history.redo_len(), MAX_UNDO);
}

#[test]
fn record_if_changed_skips_unchanged_drags() {
    let mut history: UndoHistory<i8> = UndoHistory::new();
    history.record_if_changed(5, 5);
    assert_eq!(history.undo_len(), 0);
    history.record_if_changed(5, 6);
    assert_eq!(history.undo(6), Some(5));
}

#[test]
fn ab_switching_keeps_both_states() {
    let mut editor: EditorState<u32> = EditorState::new(0);
    assert_eq!(editor.ab_label(), "A/B  A");
    assert_eq!(editor.toggle_ab(10), 0);
    assert_eq!(editor.ab_label(), "A/B  B");
    assert_eq!(editor.toggle_ab(20), 10);
    assert_eq!(editor.toggle_ab(10), 20);
    assert_eq!(editor.undo(20), Some(10));
}

#[test]
fn presets_get_unique_names() {
    let mut editor: EditorState<u32> = EditorState::new(0);
    editor.open_preset_save();
    assert_eq!(editor.preset_name_input(), Some(String::from("Preset 1")));
    editor.save_preset("Preset 1", 7);
    assert_eq!(editor.preset_name_input(), None);
    editor.save_preset("  preset 1 ", 8);
    editor.save_preset("PRESET 1", 9);
    editor.save_preset("", 10);
    assert_eq!(editor.preset_count(), 4);
    assert_eq!(editor.preset_name(0), "Preset 1");
    assert_eq!(editor.preset_name(1), "preset 1 2");
    assert_eq!(editor.preset_name(2), "PRESET 1 3");
    assert_eq!(editor.preset_name(3), "Preset 4");
    assert_eq!(editor.selected_preset(), Some(3));
    editor.open_preset_save();
    assert_eq!(editor.preset_name_input(), Some(String::from("Preset 5")));
}

#[test]
fn choosing_and_deleting_presets() {
    let mut editor: EditorState<u32> = EditorState::new(0);
    editor.save_preset("a", 1);
    editor.save_preset("b", 2);
    editor.save_preset("c", 3);
    editor.toggle_preset_menu();
    assert_eq!(editor.choose_preset(5, 42), None);
    assert!(editor.preset_menu_open());
    assert_eq!(editor.choose_preset(1, 42), Some(2));
    assert!(!editor.preset_menu_open());
    assert_eq!(editor.selected_preset(), Some(1));
    assert_eq!(editor.undo(2), Some(42));
    editor.delete_selected_preset();
    assert_eq!(editor.preset_count(), 2);
    assert_eq!(editor.selected_preset(), Some(1));
    assert_eq!(editor.preset_name(1), "c");
    editor.delete_selected_preset();
    assert_eq!(editor.selected_preset(), Some(0));
    editor.delete_selected_preset();
    assert_eq!(editor.preset_count(), 0);
    assert_eq!(editor.selected_preset(), None);
    editor.delete_selected_preset();
    assert_eq!(editor.preset_count(), 0);
}

#[test]
fn typing_into_fields() {
    let mut editor: EditorState<u32> = EditorState::new(0);
    editor.char_input('x');
    editor.open_numeric_input(ControlId::CompRatio, String::from("2.00:1"));
    editor.char_input('\u{7}');
    editor.char_input('5');
    assert_eq!(
        editor.numeric_input(),
        Some((ControlId::CompRatio, String::from("2.00:15")))
    );
    editor.key_down(EditorKey::Backspace, 0);
    editor.key_down(EditorKey::Backspace, 0);
    match editor.key_down(EditorKey::Enter, 0) {
        KeyOutcome::ConfirmNumeric(id, text) => {
            assert_eq!(id, ControlId::CompRatio);
            assert_eq!(text, "2.00:");
        }
        other => panic!("unexpected {other:?}"),
    }
    assert_eq!(editor.numeric_input(), None);

    editor.open_preset_save();
    for _ in 0..100 {
        editor.char_input('é');
    }
    let name = editor.preset_name_input().unwrap();
    assert_eq!(name.len(), 48);
    assert!(matches!(editor.key_down(EditorKey::Enter, 5), KeyOutcome::PresetSaved));
    assert_eq!(editor.preset_count(), 1);
    assert_eq!(editor.preset_snapshot(0), 5);

    editor.open_preset_save();
    editor.open_choice_dropdown(ControlId::Oversampling);
    assert!(matches!(editor.key_down(EditorKey::Escape, 5), KeyOutcome::Nothing));
    assert_eq!(editor.preset_name_input(), None);
    assert_eq!(editor.choice_dropdown(), None);
}

#[test]
fn choice_lists() {
    let mut editor: EditorState<u32> = EditorState::new(0);
    editor.toggle_choice_dropdown(ControlId::CompMode);
    assert_eq!(editor.choice_dropdown(), Some(ControlId::CompMode));
    editor.close_choice_if_matching(ControlId::Oversampling);
    assert_eq!(editor.choice_dropdown(), Some(ControlId::CompMode));
    assert_eq!(editor.choose_choice(3), Some(ControlId::CompMode));
    assert_eq!(editor.choice_dropdown(), None);
    assert_eq!(editor.undo_len(), 1);
    assert_eq!(editor.choose_choice(3), None);
    editor.toggle_choice_dropdown(ControlId::Oversampling);
    editor.toggle_choice_dropdown(ControlId::Oversampling);
    assert_eq!(editor.choice_dropdown(), None);
}

#[test]
fn chaos_draws_follow_the_generator() {
    let mut editor: EditorState<u32> = EditorState::new(0);
    let draws = editor.chaos_draws(1);
    assert_eq!(draws.len(), 40);
    let mut seed = CHAOS_SEED;
    for draw in &draws {
        let mut s = seed;
        s ^= s << 13;
        s ^= s >> 7;
        s ^= s << 17;
        assert_eq!(*draw, s >> 11);
        assert_eq!(next_chaos_bits(&mut seed), *draw);
    }
    let again = editor.chaos_draws(2);
    assert_ne!(again, draws);
    assert_eq!(editor.undo(3), Some(2));
}

#[test]
fn midi_menus() {
    assert_eq!(midi_context_action(0), MidiMenuAction::ToggleMidi);
    assert_eq!(midi_context_action(1), MidiMenuAction::CleanUp);
    assert_eq!(midi_context_action(2), MidiMenuAction::RollBack);
    assert_eq!(midi_context_action(3), MidiMenuAction::Save);
    let listed = vec![(1u8, 2u8), (5, 6)];
    assert_eq!(cleanup_action(0, &listed), CleanupAction::Remove(1));
    assert_eq!(cleanup_action(1, &listed), CleanupAction::Remove(5));
    assert_eq!(cleanup_action(2, &listed), CleanupAction::ClearAll);
    assert_eq!(cleanup_action(7, &listed), CleanupAction::ClearAll);
    let many: Vec<(u8, u8)> = (0..12).map(|cc| (cc, 0)).collect();
    assert_eq!(cleanup_action(7, &many), CleanupAction::Remove(7));
    assert_eq!(cleanup_action(8, &many), CleanupAction::ClearAll);

    let mut editor: EditorState<u32> = EditorState::new(0);
    let mut midi = MidiLearnShared::new();
    editor.toggle_midi_context_menu();
    assert!(editor.midi_context_menu_open());
    editor.midi_menu_action(MidiMenuAction::CleanUp, &mut midi);
    assert!(editor.midi_cleanup_menu_open());
    midi.learn_cc(4, ControlId::DistLpf);
    midi.sync_mutex_from_atomic_if_needed();
    editor.midi_menu_action(MidiMenuAction::Save, &mut midi);
    assert!(!editor.midi_context_menu_open());
    assert_eq!(midi.saved_mapping(4), Some(ControlId::DistLpf.index() as u8));
    editor.cleanup_menu_action(CleanupAction::ClearAll, &mut midi);
    assert_eq!(midi.binding_for_cc(4), None);
    midi.toggle_learning();
    editor.midi_menu_action(MidiMenuAction::RollBack, &mut midi);
    assert_eq!(midi.learning_target(), UNMAPPED_CC);
    assert_eq!(midi.binding_for_cc(4), Some(ControlId::DistLpf));
    editor.midi_menu_action(MidiMenuAction::ToggleMidi, &mut midi);
    assert!(!midi.midi_enabled());
}

#[test]
fn control_grid_fills_columns_top_down() {
    assert_eq!(control_cell_slot(0, 14, 4), (0, 0));
    assert_eq!(control_cell_slot(3, 14, 4), (0, 3));
    assert_eq!(control_cell_slot(4, 14, 4), (1, 0));
    assert_eq!(control_cell_slot(13, 14, 4), (3, 1));
    assert_eq!(control_cell_slot(6, 7, 1), (0, 6));
    assert_eq!(control_cell_slot(0, 0, 3), (0, 0));
}
