use vstd::prelude::*;

use crate::editor::{
    ab_slots, ab_switch, cleanup_action, cleanup_done, midi_action_done, midi_context_action,
    model_names, preset_save_opened, seed_after, selected_preset_deleted, spec_cleanup_action,
    EditorModel, EditorState, MidiMenuAction, CHAOS_DRAWS,
};
use crate::history::{recorded, spec_redo, spec_undo};
use crate::midi::{mapping_of, sorted_pairs_upto, MidiLearnShared, CC_COUNT, MIDI_WAITING_FOR_CONTROL};
use crate::model::{ControlId, ValueKind};
use crate::naming::is_chosen_name;

verus! {

/// Where a click fell relative to the open name or value field window.
#[derive(Clone, Copy, Debug, PartialEq, Eq, Structural)]
pub enum ModalHit {
    /// On its OK button.
    Confirm,
    /// On its cancel button.
    Cancel,
    /// Elsewhere inside the window.
    Inside,
    /// Outside the window.
    Outside,
}

/// Where a click fell relative to the open preset menu.
#[derive(Clone, Copy, Debug, PartialEq, Eq, Structural)]
pub enum PresetMenuHit {
    /// The menu has no room to open.
    Unavailable,
    /// Outside the menu.
    Outside,
    /// On the menu, at this row.
    Row(usize),
}

/// The buttons of the toolbar.
#[derive(Clone, Copy, Debug, PartialEq, Eq, Structural)]
pub enum ToolbarButton {
    Save,
    Presets,
    Delete,
    Undo,
    Redo,
    Ab,
    Chaos,
    Bypass,
    Midi,
}

/// What a click leaves for the host side to do to the parameters.
#[derive(Debug)]
pub enum PointerOutcome<S> {
    /// Nothing more.
    Handled,
    /// Set every parameter from this snapshot.
    Apply(S),
    /// Set every parameter from a chaos snapshot made of these draws, one per control.
    ApplyChaos(Vec<u64>),
    /// Set the choice control to this position.
    SetChoice(ControlId, usize),
    /// Read the value field's text for the control and apply it if it reads.
    ConfirmNumeric(ControlId, String),
    /// Open the value field of the control, holding its current value as text.
    OpenNumericInput(ControlId),
    /// Flip the switch control.
    Toggle(ControlId),
    /// Start dragging the knob of the control.
    StartDrag(ControlId),
}

/// The position a choice list row sets: the row, or the last label past the end.
pub open spec fn choice_position(row: int, label_count: int) -> int {
    if row < label_count {
        row
    } else if label_count > 0 {
        label_count - 1
    } else {
        0
    }
}

/// Row `k` of a choice list with `n` labels sets position `k` itself; a row past the
/// last label sets the last label, so the position always names a label.
pub proof fn lemma_choice_position(k: int, n: int)
    requires
        0 <= k,
    ensures
        k < n ==> choice_position(k, n) == k,
        0 < n <= k ==> choice_position(k, n) == n - 1,
        0 < n ==> 0 <= choice_position(k, n) < n,
{
}

/// Whether a click `hit` on the open name or value field window took the editor from `m`
/// to `f` with outcome `outcome`: confirming saves the preset or hands back the value
/// field, cancel or a click outside closes the window, and a click inside does nothing.
/// With no window open the click is left to others.
pub open spec fn modal_click_done<S>(
    m: EditorModel<S>,
    f: EditorModel<S>,
    hit: ModalHit,
    current: S,
    outcome: Option<PointerOutcome<S>>,
) -> bool {
    match m.name_input {
        Some(t) => outcome == Some(PointerOutcome::<S>::Handled) && match hit {
            ModalHit::Confirm => exists|chosen: Seq<char>|
                #![trigger is_chosen_name(model_names(m.presets), t, chosen)]
                is_chosen_name(model_names(m.presets), t, chosen) && f == (EditorModel {
                    presets: m.presets.push((chosen, current)),
                    counter: (m.counter + 1) as usize,
                    selected: Some(m.presets.len() as usize),
                    preset_menu_open: false,
                    name_input: None,
                    ..m
                }),
            ModalHit::Inside => f == m,
            _ => f == (EditorModel { name_input: None, ..m }),
        },
        None => match m.numeric_input {
            Some(field) => match hit {
                ModalHit::Confirm => (outcome matches Some(PointerOutcome::ConfirmNumeric(id, text))
                    && id == field.0 && text@ == field.1) && f == (EditorModel {
                    numeric_input: None,
                    ..m
                }),
                ModalHit::Inside => outcome == Some(PointerOutcome::<S>::Handled) && f == m,
                _ => outcome == Some(PointerOutcome::<S>::Handled) && f == (EditorModel {
                    numeric_input: None,
                    ..m
                }),
            },
            None => outcome is None && f == m,
        },
    }
}

impl<S: Copy + PartialEq> EditorState<S> {
    /// A click while the preset name or value field window is open: confirming saves the preset or
    /// hands back the value field, cancel or a click outside closes the window, and a
    /// click inside does nothing. With no window open the click is left to others.
    pub fn modal_click(&mut self, hit: ModalHit, current: S) -> (outcome: Option<PointerOutcome<S>>)
        requires
            old(self).wf(),
            old(self).view().counter < usize::MAX,
            old(self).view().presets.len() < usize::MAX,
        ensures
            final(self).wf(),
            modal_click_done(old(self).view(), final(self).view(), hit, current, outcome),
    {
        let ghost m = self.view();
        if let Some(name) = self.preset_name_input() {
            match hit {
                ModalHit::Confirm => {
                    self.cancel_preset_name();
                    self.save_preset(name.as_str(), current);
                    let ghost f = self.view();
                    let ghost chosen = f.presets.last().0;
                    assert(f == (EditorModel {
                        presets: m.presets.push((chosen, current)),
                        counter: (m.counter + 1) as usize,
                        selected: Some(m.presets.len() as usize),
                        preset_menu_open: false,
                        name_input: None,
                        ..m
                    }));
                    assert(is_chosen_name(model_names(m.presets), name@, chosen));
                    assert(m.name_input matches Some(t) && t == name@);
                    assert(exists|c: Seq<char>|
                        #![trigger is_chosen_name(model_names(m.presets), name@, c)]
                        is_chosen_name(model_names(m.presets), name@, c) && f == (EditorModel {
                            presets: m.presets.push((c, current)),
                            counter: (m.counter + 1) as usize,
                            selected: Some(m.presets.len() as usize),
                            preset_menu_open: false,
                            name_input: None,
                            ..m
                        }));
                },
                ModalHit::Inside => {
                    assert(self.view() == m);
                },
                _ => {
                    self.cancel_preset_name();
                    assert(self.view() == (EditorModel { name_input: None, ..m }));
                },
            }
            return Some(PointerOutcome::Handled);
        }
        if self.numeric_input().is_some() {
            match hit {
                ModalHit::Confirm => {
                    match self.take_numeric_input() {
                        Some((id, text)) => return Some(PointerOutcome::ConfirmNumeric(id, text)),
                        None => return Some(PointerOutcome::Handled),
                    }
                },
                ModalHit::Inside => {},
                _ => {
                    self.cancel_numeric_input();
                },
            }
            return Some(PointerOutcome::Handled);
        }
        None
    }

    /// A click while a choice list is open, on row `row` of it (`None` outside it): a row
    /// records `current` for undo, closes the list and hands back the position to set;
    /// a click outside closes the list and is left to others.
    pub fn choice_list_click(&mut self, row: Option<usize>, current: S) -> (outcome: Option<
        PointerOutcome<S>,
    >)
        requires
            old(self).wf(),
        ensures
            final(self).wf(),
            ({
                let m = old(self).view();
                let f = final(self).view();
                match m.dropdown {
                    None => outcome is None && f == m,
                    Some(id) => match id.spec_kind() {
                        ValueKind::Choice(labels) => match row {
                            None => outcome is None && f == (EditorModel { dropdown: None, ..m }),
                            Some(k) => outcome == Some(
                                PointerOutcome::<S>::SetChoice(
                                    id,
                                    choice_position(k as int, labels@.len() as int) as usize,
                                ),
                            ) && (recorded(m.history, current, f.history))
                                && f == (EditorModel { dropdown: None, history: f.history, ..m }),
                        },
                        _ => outcome is None && f == (EditorModel { dropdown: None, ..m }),
                    },
                }
            }),
    {
        let id = match self.choice_dropdown() {
            Some(id) => id,
            None => return None,
        };
        let labels = match id.kind() {
            ValueKind::Choice(labels) => labels,
            _ => {
                self.close_choice_dropdown();
                return None;
            },
        };
        let k = match row {
            Some(k) => k,
            None => {
                self.close_choice_dropdown();
                return None;
            },
        };
        let index = if k < labels.len() {
            k
        } else if labels.len() > 0 {
            labels.len() - 1
        } else {
            0
        };
        self.choose_choice(current);
        Some(PointerOutcome::SetChoice(id, index))
    }

    /// A click while the MIDI clean-up menu is open, on row `row` of it (`None` outside
    /// it): the mapping is first brought up to date, and a row removes its mapping or,
    /// past the listed ones, clears them all. Returns whether the click was taken.
    pub fn cleanup_menu_click(&mut self, row: Option<usize>, midi: &mut MidiLearnShared) -> (taken:
        bool)
        requires
            old(self).wf(),
            old(midi).wf(),
        ensures
            final(self).wf(),
            final(midi).wf(),
            final(self).view() == old(self).view(),
            !old(self).view().cleanup_menu_open ==> !taken && *final(midi) == *old(midi),
            old(self).view().cleanup_menu_open ==> ({
                let synced = if old(midi).bindings_changed() {
                    mapping_of(old(midi).bindings())
                } else {
                    old(midi).mapping_view()
                };
                match row {
                    None => !taken && final(midi).mapping_view() == synced
                        && !final(midi).bindings_changed() && final(midi).bindings() == old(
                        midi,
                    ).bindings() && final(midi).target() == old(midi).target()
                        && final(midi).enabled() == old(midi).enabled() && final(midi).saved_view()
                        == old(midi).saved_view(),
                    Some(r) => taken && exists|between: MidiLearnShared|
                        between.mapping_view() == synced && !between.bindings_changed()
                            && between.target() == old(midi).target() && between.enabled() == old(
                            midi,
                        ).enabled() && between.saved_view() == old(midi).saved_view()
                            && between.values() == old(midi).values() && between.moved() == old(
                            midi,
                        ).moved() && cleanup_done(
                            spec_cleanup_action(r as int, sorted_pairs_upto(synced, CC_COUNT as int)),
                            between,
                            *final(midi),
                        ),
                }
            }),
    {
        if !self.midi_cleanup_menu_open() {
            return false;
        }
        midi.sync_mutex_from_atomic_if_needed();
        let r = match row {
            Some(r) => r,
            None => return false,
        };
        let sorted = midi.sorted_mappings();
        let action = cleanup_action(r, &sorted);
        let ghost between = *midi;
        self.cleanup_menu_action(action, midi);
        true
    }

    /// A click while the MIDI context menu is open, on row `row` of it (`None` anywhere
    /// else): a row runs its entry; anywhere else closes the MIDI menus and is left to
    /// others. Returns whether the click was taken.
    pub fn context_menu_click(&mut self, row: Option<usize>, midi: &mut MidiLearnShared) -> (taken:
        bool)
        requires
            old(self).wf(),
            old(midi).wf(),
        ensures
            final(self).wf(),
            final(midi).wf(),
            !old(self).view().context_menu_open ==> !taken && final(self).view() == old(
                self,
            ).view() && *final(midi) == *old(midi),
            old(self).view().context_menu_open ==> match row {
                None => !taken && final(self).view() == (EditorModel {
                    context_menu_open: false,
                    cleanup_menu_open: false,
                    ..old(self).view()
                }) && *final(midi) == *old(midi),
                Some(r) => taken && midi_action_done(
                    if r == 0 {
                        MidiMenuAction::ToggleMidi
                    } else if r == 1 {
                        MidiMenuAction::CleanUp
                    } else if r == 2 {
                        MidiMenuAction::RollBack
                    } else {
                        MidiMenuAction::Save
                    },
                    old(self).view(),
                    final(self).view(),
                    *old(midi),
                    *final(midi),
                ),
            },
    {
        if !self.midi_context_menu_open() {
            return false;
        }
        match row {
            None => {
                self.close_midi_menus();
                false
            },
            Some(r) => {
                let action = midi_context_action(r);
                self.midi_menu_action(action, midi);
                true
            },
        }
    }

    /// A click while the preset menu is open: a preset row records `current` for undo,
    /// selects the preset, closes the menu and hands back its snapshot; a click outside
    /// closes the menu and is left to others. Returns whether the click was taken, and
    /// the snapshot to apply.
    pub fn preset_menu_click(&mut self, hit: PresetMenuHit, current: S) -> (result: (bool, Option<S>))
        requires
            old(self).wf(),
        ensures
            final(self).wf(),
            ({
                let m = old(self).view();
                let f = final(self).view();
                if !m.preset_menu_open {
                    result == (false, None::<S>) && f == m
                } else {
                    match hit {
                        PresetMenuHit::Unavailable => result == (true, None::<S>) && f == (
                        EditorModel { preset_menu_open: false, ..m }),
                        PresetMenuHit::Outside => result == (false, None::<S>) && f == (
                        EditorModel { preset_menu_open: false, ..m }),
                        PresetMenuHit::Row(k) => if k < m.presets.len() {
                            &&& result == (true, Some(m.presets[k as int].1))
                            &&& recorded(m.history, current, f.history)
                            &&& f == (EditorModel {
                                selected: Some(k),
                                preset_menu_open: false,
                                history: f.history,
                                ..m
                            })
                        } else {
                            result == (true, None::<S>) && f == m
                        },
                    }
                }
            }),
    {
        if !self.preset_menu_open() {
            return (false, None);
        }
        match hit {
            PresetMenuHit::Unavailable => {
                self.close_preset_menu();
                (true, None)
            },
            PresetMenuHit::Outside => {
                self.close_preset_menu();
                (false, None)
            },
            PresetMenuHit::Row(k) => {
                if self.preset_count() == 0 {
                    return (true, None);
                }
                let chosen = self.choose_preset(k, current);
                (true, chosen)
            },
        }
    }

    /// A click on a toolbar button in state `current`.
    pub fn toolbar_click(&mut self, button: ToolbarButton, current: S, midi: &mut MidiLearnShared) -> (outcome:
        PointerOutcome<S>)
        requires
            old(self).wf(),
            old(midi).wf(),
        ensures
            final(self).wf(),
            final(midi).wf(),
            button != ToolbarButton::Midi ==> *final(midi) == *old(midi),
            ({
                let m = old(self).view();
                let f = final(self).view();
                match button {
                    ToolbarButton::Save => outcome == PointerOutcome::<S>::Handled && f
                        == preset_save_opened(m),
                    ToolbarButton::Presets => outcome == PointerOutcome::<S>::Handled && f == (
                    EditorModel { preset_menu_open: !m.preset_menu_open, ..m }),
                    ToolbarButton::Delete => outcome == PointerOutcome::<S>::Handled && f
                        == selected_preset_deleted(m),
                    ToolbarButton::Undo => {
                        let (restored, history) = spec_undo(m.history, current);
                        &&& outcome == match restored {
                            Some(s) => PointerOutcome::Apply(s),
                            None => PointerOutcome::<S>::Handled,
                        }
                        &&& f == (EditorModel { history, ..m })
                    },
                    ToolbarButton::Redo => {
                        let (restored, history) = spec_redo(m.history, current);
                        &&& outcome == match restored {
                            Some(s) => PointerOutcome::Apply(s),
                            None => PointerOutcome::<S>::Handled,
                        }
                        &&& f == (EditorModel { history, ..m })
                    },
                    ToolbarButton::Ab => {
                        let (other, slots) = ab_switch(ab_slots(m), current);
                        &&& outcome == PointerOutcome::Apply(other)
                        &&& ab_slots(f) == slots
                        &&& recorded(m.history, current, f.history)
                        &&& f == (EditorModel {
                            state_a: f.state_a,
                            state_b: f.state_b,
                            a_active: f.a_active,
                            history: f.history,
                            ..m
                        })
                    },
                    ToolbarButton::Chaos => {
                        &&& outcome matches PointerOutcome::ApplyChaos(draws) && draws@.len()
                            == CHAOS_DRAWS && forall|i: int|
                            0 <= i < CHAOS_DRAWS ==> #[trigger] draws@[i] == seed_after(
                                m.seed,
                                (i + 1) as nat,
                            ) >> 11u64
                        &&& recorded(m.history, current, f.history)
                        &&& f == (EditorModel {
                            seed: seed_after(m.seed, CHAOS_DRAWS as nat),
                            history: f.history,
                            ..m
                        })
                    },
                    ToolbarButton::Bypass => {
                        &&& outcome == PointerOutcome::<S>::Toggle(ControlId::FxBypass)
                        &&& recorded(m.history, current, f.history)
                        &&& f == (EditorModel { history: f.history, ..m })
                    },
                    ToolbarButton::Midi => {
                        &&& outcome == PointerOutcome::<S>::Handled
                        &&& f == m
                        &&& final(midi).target() == if old(midi).target() >= 0 || old(
                            midi,
                        ).target() == MIDI_WAITING_FOR_CONTROL {
                            -1i32
                        } else {
                            MIDI_WAITING_FOR_CONTROL
                        }
                        &&& final(midi).enabled() == old(midi).enabled()
                        &&& final(midi).bindings() == old(midi).bindings()
                        &&& final(midi).bindings_changed() == old(midi).bindings_changed()
                        &&& final(midi).mapping_view() == old(midi).mapping_view()
                        &&& final(midi).saved_view() == old(midi).saved_view()
                        &&& final(midi).values() == old(midi).values()
                        &&& final(midi).moved() == old(midi).moved()
                    },
                }
            }),
    {
        match button {
            ToolbarButton::Save => {
                self.open_preset_save();
                PointerOutcome::Handled
            },
            ToolbarButton::Presets => {
                self.toggle_preset_menu();
                PointerOutcome::Handled
            },
            ToolbarButton::Delete => {
                self.delete_selected_preset();
                PointerOutcome::Handled
            },
            ToolbarButton::Undo => match self.undo(current) {
                Some(s) => PointerOutcome::Apply(s),
                None => PointerOutcome::Handled,
            },
            ToolbarButton::Redo => match self.redo(current) {
                Some(s) => PointerOutcome::Apply(s),
                None => PointerOutcome::Handled,
            },
            ToolbarButton::Ab => PointerOutcome::Apply(self.toggle_ab(current)),
            ToolbarButton::Chaos => PointerOutcome::ApplyChaos(self.chaos_draws(current)),
            ToolbarButton::Bypass => {
                self.push_undo_snapshot(current);
                PointerOutcome::Toggle(ControlId::FxBypass)
            },
            ToolbarButton::Midi => {
                midi.toggle_learning();
                PointerOutcome::Handled
            },
        }
    }

    /// A click on the cell of control `id` (on its value field when `on_value` holds) in
    /// state `current`: while MIDI learn waits for a control it takes this one; otherwise
    /// the value field opens, a switch flips (recorded for undo), a choice list opens, or
    /// a knob drag starts.
    pub fn control_click(
        &mut self,
        id: ControlId,
        on_value: bool,
        current: S,
        midi: &mut MidiLearnShared,
    ) -> (outcome: PointerOutcome<S>)
        requires
            old(self).wf(),
            old(midi).wf(),
        ensures
            final(self).wf(),
            final(midi).wf(),
            ({
                let m = old(self).view();
                let f = final(self).view();
                if old(midi).target() == MIDI_WAITING_FOR_CONTROL {
                    &&& outcome == PointerOutcome::<S>::Handled
                    &&& f == m
                    &&& final(midi).target() == id.spec_index() as i32
                    &&& final(midi).enabled() == old(midi).enabled()
                    &&& final(midi).bindings() == old(midi).bindings()
                    &&& final(midi).bindings_changed() == old(midi).bindings_changed()
                    &&& final(midi).mapping_view() == old(midi).mapping_view()
                    &&& final(midi).saved_view() == old(midi).saved_view()
                    &&& final(midi).values() == old(midi).values()
                    &&& final(midi).moved() == old(midi).moved()
                } else {
                    &&& *final(midi) == *old(midi)
                    &&& if on_value {
                        outcome == PointerOutcome::<S>::OpenNumericInput(id) && f == m
                    } else {
                        match id.spec_kind() {
                            ValueKind::Boolean => {
                                &&& outcome == PointerOutcome::<S>::Toggle(id)
                                &&& recorded(m.history, current, f.history)
                                &&& f == (EditorModel { history: f.history, ..m })
                            },
                            ValueKind::Choice(_) => outcome == PointerOutcome::<S>::Handled && f
                                == (EditorModel { dropdown: Some(id), ..m }),
                            _ => outcome == PointerOutcome::<S>::StartDrag(id) && f == m,
                        }
                    }
                }
            }),
    {
        if midi.pick_control(id) {
            return PointerOutcome::Handled;
        }
        if on_value {
            return PointerOutcome::OpenNumericInput(id);
        }
        match id.kind() {
            ValueKind::Boolean => {
                self.push_undo_snapshot(current);
                PointerOutcome::Toggle(id)
            },
            ValueKind::Choice(_) => {
                self.open_choice_dropdown(id);
                PointerOutcome::Handled
            },
            _ => PointerOutcome::StartDrag(id),
        }
    }
}

} // verus!
