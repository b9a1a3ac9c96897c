use nebula_cluster::editor::EditorState;
use nebula_cluster::midi::{MidiLearnShared, MIDI_WAITING_FOR_CONTROL, UNMAPPED_CC};
use nebula_cluster::model::ControlId;
use nebula_cluster::pointer::{ModalHit, PointerOutcome, PresetMenuHit, ToolbarButton};

#[test]
fn modal_clicks() {
    let mut editor: EditorState<u32> = EditorState::new(0);
    assert!(editor.modal_click(ModalHit::Confirm, 1).is_none());

    editor.open_preset_save();
    assert!(matches!(editor.modal_click(ModalHit::Inside, 1), Some(PointerOutcome::Handled)));
    assert_eq!(editor.preset_name_input(), Some(String::from("Preset 1")));
    assert!(matches!(editor.modal_click(ModalHit::Confirm, 3), Some(PointerOutcome::Handled)));
    assert_eq!(editor.preset_count(), 1);
    assert_eq!(editor.preset_snapshot(0), 3);
    assert_eq!(editor.preset_name_input(), None);

    editor.open_preset_save();
    assert!(matches!(editor.modal_click(ModalHit::Outside, 1), Some(PointerOutcome::Handled)));
    assert_eq!(editor.preset_count(), 1);
    assert_eq!(editor.preset_name_input(), None);

    editor.open_numeric_input(ControlId::InputLevel, String::from("0.0 dB"));
    assert!(matches!(editor.modal_click(ModalHit::Cancel, 1), Some(PointerOutcome::Handled)));
    assert_eq!(editor.numeric_input(), None);
    editor.open_numeric_input(ControlId::InputLevel, String::from("-3"));
    match editor.modal_click(ModalHit::Confirm, 1) {
        Some(PointerOutcome::ConfirmNumeric(id, text)) => {
            assert_eq!(id, ControlId::InputLevel);
            assert_eq!(text, "-3");
        }
        other => panic!("unexpected {other:?}"),
    }
}

#[test]
fn choice_list_clicks() {
    let mut editor: EditorState<u32> = EditorState::new(0);
    assert!(editor.choice_list_click(Some(1), 5).is_none());
    editor.open_choice_dropdown(ControlId::Oversampling);
    assert!(matches!(
        editor.choice_list_click(Some(9), 5),
        Some(PointerOutcome::SetChoice(ControlId::Oversampling, 4))
    ));
    assert_eq!(editor.choice_dropdown(), None);
    assert_eq!(editor.undo(6), Some(5));
    editor.open_choice_dropdown(ControlId::CompMode);
    assert!(editor.choice_list_click(None, 5).is_none());
    assert_eq!(editor.choice_dropdown(), None);
    editor.open_choice_dropdown(ControlId::InputLevel);
    assert!(editor.choice_list_click(Some(0), 5).is_none());
    assert_eq!(editor.choice_dropdown(), None);
}

#[test]
fn midi_menu_clicks() {
    let mut editor: EditorState<u32> = EditorState::new(0);
    let mut midi = MidiLearnShared::new();
    assert!(!editor.context_menu_click(Some(0), &mut midi));
    editor.toggle_midi_context_menu();
    assert!(!editor.context_menu_click(None, &mut midi));
    assert!(!editor.midi_context_menu_open());
    editor.toggle_midi_context_menu();
    assert!(editor.context_menu_click(Some(1), &mut midi));
    assert!(editor.midi_cleanup_menu_open());

    midi.learn_cc(40, ControlId::DistHpSlope);
    midi.learn_cc(12, ControlId::DistLpSlope);
    assert!(!editor.cleanup_menu_click(None, &mut midi));
    assert_eq!(midi.mapping(40), Some(ControlId::DistHpSlope.index() as u8));
    assert!(editor.cleanup_menu_click(Some(1), &mut midi));
    assert_eq!(midi.mapping(40), None);
    assert_eq!(midi.binding_for_cc(12), Some(ControlId::DistLpSlope));
    midi.toggle_learning();
    assert!(editor.cleanup_menu_click(Some(5), &mut midi));
    assert_eq!(midi.binding_for_cc(12), None);
    assert_eq!(midi.learning_target(), UNMAPPED_CC);
}

#[test]
fn preset_menu_clicks() {
    let mut editor: EditorState<u32> = EditorState::new(0);
    assert_eq!(editor.preset_menu_click(PresetMenuHit::Row(0), 1), (false, None));
    editor.toggle_preset_menu();
    assert_eq!(editor.preset_menu_click(PresetMenuHit::Row(0), 1), (true, None));
    assert!(editor.preset_menu_open());
    editor.save_preset("x", 11);
    editor.toggle_preset_menu();
    assert_eq!(editor.preset_menu_click(PresetMenuHit::Row(3), 1), (true, None));
    assert_eq!(editor.preset_menu_click(PresetMenuHit::Row(0), 1), (true, Some(11)));
    assert!(!editor.preset_menu_open());
    editor.toggle_preset_menu();
    assert_eq!(editor.preset_menu_click(PresetMenuHit::Outside, 1), (false, None));
    assert!(!editor.preset_menu_open());
    editor.toggle_preset_menu();
    assert_eq!(editor.preset_menu_click(PresetMenuHit::Unavailable, 1), (true, None));
    assert!(!editor.preset_menu_open());
}

#[test]
fn toolbar_clicks() {
    let mut editor: EditorState<u32> = EditorState::new(0);
    let mut midi = MidiLearnShared::new();
    assert!(matches!(editor.toolbar_click(ToolbarButton::Undo, 1, &mut midi), PointerOutcome::Handled));
    assert!(matches!(editor.toolbar_click(ToolbarButton::Ab, 1, &mut midi), PointerOutcome::Apply(0)));
    assert!(matches!(editor.toolbar_click(ToolbarButton::Undo, 0, &mut midi), PointerOutcome::Apply(1)));
    assert!(matches!(editor.toolbar_click(ToolbarButton::Redo, 1, &mut midi), PointerOutcome::Apply(0)));
    assert!(matches!(
        editor.toolbar_click(ToolbarButton::Bypass, 2, &mut midi),
        PointerOutcome::Toggle(ControlId::FxBypass)
    ));
    match editor.toolbar_click(ToolbarButton::Chaos, 3, &mut midi) {
        PointerOutcome::ApplyChaos(draws) => assert_eq!(draws.len(), 40),
        other => panic!("unexpected {other:?}"),
    }
    assert!(matches!(editor.toolbar_click(ToolbarButton::Save, 3, &mut midi), PointerOutcome::Handled));
    assert_eq!(editor.preset_name_input(), Some(String::from("Preset 1")));
    assert!(matches!(editor.toolbar_click(ToolbarButton::Presets, 3, &mut midi), PointerOutcome::Handled));
    assert!(editor.preset_menu_open());
    assert!(matches!(editor.toolbar_click(ToolbarButton::Midi, 3, &mut midi), PointerOutcome::Handled));
    assert_eq!(midi.learning_target(), MIDI_WAITING_FOR_CONTROL);
    editor.save_preset("p", 1);
    assert!(matches!(editor.toolbar_click(ToolbarButton::Delete, 3, &mut midi), PointerOutcome::Handled));
    assert_eq!(editor.preset_count(), 0);
}

#[test]
fn control_clicks() {
    let mut editor: EditorState<u32> = EditorState::new(0);
    let mut midi = MidiLearnShared::new();
    midi.toggle_learning();
    assert!(matches!(
        editor.control_click(ControlId::DistMix, false, 1, &mut midi),
        PointerOutcome::Handled
    ));
    assert_eq!(midi.learning_target(), ControlId::DistMix.index() as i32);
    midi.toggle_learning();
    assert!(matches!(
        editor.control_click(ControlId::DistMix, true, 1, &mut midi),
        PointerOutcome::OpenNumericInput(ControlId::DistMix)
    ));
    assert!(matches!(
        editor.control_click(ControlId::DistPhase, false, 1, &mut midi),
        PointerOutcome::Toggle(ControlId::DistPhase)
    ));
    assert_eq!(editor.undo_len(), 1);
    assert!(matches!(
        editor.control_click(ControlId::CompMode, false, 1, &mut midi),
        PointerOutcome::Handled
    ));
    assert_eq!(editor.choice_dropdown(), Some(ControlId::CompMode));
    assert!(matches!(
        editor.control_click(ControlId::CompKnee, false, 1, &mut midi),
        PointerOutcome::StartDrag(ControlId::CompKnee)
    ));
}
