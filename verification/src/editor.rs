use vstd::prelude::*;
use vstd::std_specs::cmp::PartialEqSpec;

use crate::history::{
    pushed, recorded, spec_push, spec_redo, spec_undo, within_cap, HistoryModel, UndoHistory,
};
use crate::midi::{bindings_of, mapping_of, MidiLearnShared, UNMAPPED_CC};
use crate::model::ControlId;
use crate::naming::{default_preset_name, is_chosen_name, preset_names};
use crate::text::{
    byte_len, decimal, is_control, is_control_char, pop_char, push_char, push_decimal, push_str,
    utf8_len,
};

verus! {

/// Longest text, in UTF-8 bytes, that the preset name and value fields take.
pub const MAX_TEXT_BYTES: usize = 48;

/// Seed of the chaos generator when the editor opens.
pub const CHAOS_SEED: u64 = 0x4e43_6c75_7374_6572;

/// Number of random draws a chaos snapshot takes: one per control.
pub const CHAOS_DRAWS: usize = 40;

/// A page of controls in the editor.
#[derive(Clone, Copy, Debug, PartialEq, Eq, Structural)]
pub enum Tab {
    Global,
    Distortion,
    Filter,
    Compressor,
}

/// The colour a part of the editor is drawn in.
#[derive(Clone, Copy, Debug, PartialEq, Eq, Structural)]
pub enum Accent {
    Cyan,
    Magenta,
    Purple,
    Green,
    Amber,
    Red,
}

/// Controls on the global page, in the order they are laid out.
pub const GLOBAL_CONTROLS: [ControlId; 7] = [
    ControlId::InputLevel,
    ControlId::InputPan,
    ControlId::OutputLevel,
    ControlId::OutputPan,
    ControlId::GlobalMix,
    ControlId::Oversampling,
    ControlId::GlobalPhase,
];

/// Controls on the distortion page, in the order they are laid out.
pub const DISTORTION_CONTROLS: [ControlId; 14] = [
    ControlId::DistortionEnabled,
    ControlId::DistSaturation,
    ControlId::Harmonic2,
    ControlId::Harmonic3,
    ControlId::Harmonic4,
    ControlId::Harmonic5,
    ControlId::Harmonic6,
    ControlId::Harmonic7,
    ControlId::DistMix,
    ControlId::DistPhase,
    ControlId::DistHpf,
    ControlId::DistHpSlope,
    ControlId::DistLpf,
    ControlId::DistLpSlope,
];

/// Controls on the filter page, in the order they are laid out.
pub const FILTER_CONTROLS: [ControlId; 7] = [
    ControlId::FilterEnabled,
    ControlId::FilterHpf,
    ControlId::FilterHpSlope,
    ControlId::FilterHpRes,
    ControlId::FilterLpf,
    ControlId::FilterLpSlope,
    ControlId::FilterLpRes,
];

/// Controls on the compressor page, in the order they are laid out.
pub const COMPRESSOR_CONTROLS: [ControlId; 11] = [
    ControlId::CompressorEnabled,
    ControlId::CompMode,
    ControlId::CompRatio,
    ControlId::CompKnee,
    ControlId::CompMakeup,
    ControlId::CompBoost,
    ControlId::CompAttackThreshold,
    ControlId::CompAttackMs,
    ControlId::CompReleaseThreshold,
    ControlId::CompReleaseMs,
    ControlId::CompHold,
];

/// The editor's name for its pages.
pub type ActiveTab = Tab;

impl Tab {
    /// The pages, in the order of the tab bar.
    pub const ALL: [Tab; 4] = [Tab::Global, Tab::Distortion, Tab::Filter, Tab::Compressor];

    pub fn label(self) -> (text: &'static str)
        ensures
            text == match self {
                Tab::Global => "Global",
                Tab::Distortion => "Distortion",
                Tab::Filter => "Filter",
                Tab::Compressor => "Compressor",
            },
    {
        match self {
            Tab::Global => "Global",
            Tab::Distortion => "Distortion",
            Tab::Filter => "Filter",
            Tab::Compressor => "Compressor",
        }
    }

    /// The controls on the page, in the order they are laid out.
    pub open spec fn spec_controls(self) -> Seq<ControlId> {
        match self {
            Tab::Global => GLOBAL_CONTROLS@,
            Tab::Distortion => DISTORTION_CONTROLS@,
            Tab::Filter => FILTER_CONTROLS@,
            Tab::Compressor => COMPRESSOR_CONTROLS@,
        }
    }

    pub fn controls(self) -> (ids: &'static [ControlId])
        ensures
            ids@ == self.spec_controls(),
    {
        match self {
            Tab::Global => &GLOBAL_CONTROLS,
            Tab::Distortion => &DISTORTION_CONTROLS,
            Tab::Filter => &FILTER_CONTROLS,
            Tab::Compressor => &COMPRESSOR_CONTROLS,
        }
    }

    pub fn accent(self) -> (a: Accent)
        ensures
            a == match self {
                Tab::Global => Accent::Cyan,
                Tab::Distortion => Accent::Magenta,
                Tab::Filter => Accent::Purple,
                Tab::Compressor => Accent::Green,
            },
    {
        match self {
            Tab::Global => Accent::Cyan,
            Tab::Distortion => Accent::Magenta,
            Tab::Filter => Accent::Purple,
            Tab::Compressor => Accent::Green,
        }
    }
}

/// Entries of the MIDI context menu.
#[derive(Clone, Copy, Debug, PartialEq, Eq, Structural)]
pub enum MidiMenuAction {
    ToggleMidi,
    CleanUp,
    RollBack,
    Save,
}

/// Entries of the MIDI clean-up menu.
#[derive(Clone, Copy, Debug, PartialEq, Eq, Structural)]
pub enum CleanupAction {
    Remove(u8),
    ClearAll,
}

/// Most mappings the clean-up menu lists.
pub const CLEANUP_ROWS: usize = 8;

/// The entry of the MIDI context menu on row `row`: MIDI on/off, clean up, roll back,
/// and save on every row past those.
pub fn midi_context_action(row: usize) -> (action: MidiMenuAction)
    ensures
        action == if row == 0 {
            MidiMenuAction::ToggleMidi
        } else if row == 1 {
            MidiMenuAction::CleanUp
        } else if row == 2 {
            MidiMenuAction::RollBack
        } else {
            MidiMenuAction::Save
        },
{
    match row {
        0 => MidiMenuAction::ToggleMidi,
        1 => MidiMenuAction::CleanUp,
        2 => MidiMenuAction::RollBack,
        _ => MidiMenuAction::Save,
    }
}

/// The entry of the clean-up menu on row `row`, for the mappings listed in controller
/// order: one row per listed mapping (at most `CLEANUP_ROWS`), then "clear all", which
/// also takes every row below it.
pub open spec fn spec_cleanup_action(row: int, mappings: Seq<(u8, u8)>) -> CleanupAction {
    let visible = if mappings.len() < CLEANUP_ROWS {
        mappings.len() as int
    } else {
        CLEANUP_ROWS as int
    };
    if row < visible {
        CleanupAction::Remove(mappings[row].0)
    } else {
        CleanupAction::ClearAll
    }
}

pub fn cleanup_action(row: usize, mappings: &Vec<(u8, u8)>) -> (action: CleanupAction)
    ensures
        action == spec_cleanup_action(row as int, mappings@),
{
    let visible = if mappings.len() < CLEANUP_ROWS {
        mappings.len()
    } else {
        CLEANUP_ROWS
    };
    if row < visible {
        CleanupAction::Remove(mappings[row].0)
    } else {
        CleanupAction::ClearAll
    }
}

/// The clean-up menu lists the mappings in the order given, at most `CLEANUP_ROWS` of
/// them, one per row; a listed row removes the controller shown on it, and the row after
/// the listed ones, or any row below it, clears every mapping.
pub proof fn lemma_cleanup_rows(row: int, mappings: Seq<(u8, u8)>)
    requires
        0 <= row,
    ensures
        CLEANUP_ROWS == 8,
        row < mappings.len() && row < CLEANUP_ROWS ==> spec_cleanup_action(row, mappings)
            == CleanupAction::Remove(mappings[row].0),
        row >= mappings.len() || row >= CLEANUP_ROWS ==> spec_cleanup_action(row, mappings)
            == CleanupAction::ClearAll,
{
}

/// The limits of the editor: text fields take 48 bytes, a chaos snapshot takes one draw
/// per control, the undo history holds 64 snapshots, and MIDI learn knows 128 controllers.
pub proof fn lemma_limits()
    ensures
        MAX_TEXT_BYTES == 48,
        CHAOS_DRAWS == crate::model::CONTROL_COUNT,
        crate::history::MAX_UNDO == 64,
        crate::midi::CC_COUNT == 128,
{
}

/// The number of rows a column of `count` controls spread over `columns` columns has.
pub open spec fn rows_per_column(count: int, columns: int) -> int {
    let rows = count / columns + if count % columns != 0 {
        1int
    } else {
        0int
    };
    if rows < 1 {
        1
    } else {
        rows
    }
}

/// The columns are as short as they can be while holding every control: at least one
/// row, enough rows for all `count` controls, and one row fewer would not be enough.
pub proof fn lemma_rows_per_column(count: int, columns: int)
    requires
        count >= 0,
        columns >= 1,
    ensures
        rows_per_column(count, columns) >= 1,
        rows_per_column(count, columns) * columns >= count,
        count > 0 ==> (rows_per_column(count, columns) - 1) * columns < count,
{
    let q = count / columns;
    let r = count % columns;
    assert(count == q * columns + r && 0 <= r < columns) by (nonlinear_arith)
        requires
            columns >= 1,
            q == count / columns,
            r == count % columns,
    ;
    let rows = rows_per_column(count, columns);
    assert(rows * columns >= count && (count > 0 ==> (rows - 1) * columns < count)) by (
    nonlinear_arith)
        requires
            count == q * columns + r,
            0 <= r < columns,
            q >= 0,
            rows == (if q + (if r != 0 { 1int } else { 0int }) < 1 {
                1
            } else {
                q + (if r != 0 { 1int } else { 0int })
            }),
            count >= 0,
    ;
}

/// The (column, row) of the `index`-th of `count` controls laid out top to bottom, then
/// left to right, in `columns` columns.
pub fn control_cell_slot(index: usize, count: usize, columns: usize) -> (slot: (usize, usize))
    requires
        columns >= 1,
    ensures
        slot.0 == (index as int) / rows_per_column(count as int, columns as int),
        slot.1 == (index as int) % rows_per_column(count as int, columns as int),
{
    let mut rows = count / columns;
    if count % columns != 0 {
        assert(count / columns < usize::MAX) by (nonlinear_arith)
            requires
                columns >= 2 || count % columns == 0,
                count % columns != 0,
                columns >= 1,
                count <= usize::MAX,
        {
            if columns == 1 {
                assert(count % columns == 0);
            }
        }
        rows = rows + 1;
    }
    if rows < 1 {
        rows = 1;
    }
    (index / rows, index % rows)
}

/// One step of the chaos generator (xorshift).
pub open spec fn xorshift(seed: u64) -> u64 {
    let a = seed ^ (seed << 13u64);
    let b = a ^ (a >> 7u64);
    b ^ (b << 17u64)
}

/// The generator's state after `k` steps from `seed`.
pub open spec fn seed_after(seed: u64, k: nat) -> u64
    decreases k,
{
    if k == 0 {
        seed
    } else {
        xorshift(seed_after(seed, (k - 1) as nat))
    }
}

/// Advances the chaos generator one step and hands out the top 53 bits of its state,
/// the numerator of a draw in [0, 1) over 2^53.
pub fn next_chaos_bits(seed: &mut u64) -> (bits: u64)
    ensures
        *final(seed) == xorshift(*old(seed)),
        bits == *final(seed) >> 11u64,
{
    let mut s = *seed;
    s = s ^ (s << 13u64);
    s = s ^ (s >> 7u64);
    s = s ^ (s << 17u64);
    *seed = s;
    s >> 11u64
}

/// Keys the editor reacts to.
#[derive(Clone, Copy, Debug, PartialEq, Eq, Structural)]
pub enum EditorKey {
    Escape,
    Enter,
    Backspace,
}

/// What a key press leaves for the host side to do.
#[derive(Debug)]
pub enum KeyOutcome {
    /// Nothing more.
    Nothing,
    /// A preset was saved from the name field.
    PresetSaved,
    /// The value field was confirmed: its control and text, to be read and applied.
    ConfirmNumeric(ControlId, String),
}

/// The two A/B comparison slots and which one is being edited.
pub struct AbSlots<S> {
    pub a: S,
    pub b: S,
    pub a_active: bool,
}

/// Switching slots in state `current`: `current` is kept in the slot being left, the
/// other slot becomes the one edited, and its snapshot is handed back to apply.
pub open spec fn ab_switch<S>(slots: AbSlots<S>, current: S) -> (S, AbSlots<S>) {
    if slots.a_active {
        (slots.b, AbSlots { a: current, b: slots.b, a_active: false })
    } else {
        (slots.a, AbSlots { a: slots.a, b: current, a_active: true })
    }
}

/// Switching slots and straight back, with no edit in between, hands back the state
/// switched away from and leaves that state in the slot being edited.
pub proof fn lemma_ab_round_trip<S>(slots: AbSlots<S>, current: S)
    ensures
        ({
            let (other, switched) = ab_switch(slots, current);
            let (back, again) = ab_switch(switched, other);
            &&& back == current
            &&& again.a_active == slots.a_active
            &&& again.a == (if slots.a_active {
                current
            } else {
                slots.a
            })
            &&& again.b == (if slots.a_active {
                slots.b
            } else {
                current
            })
        }),
{
}

/// A preset saved from a state is recalled, from the row it was saved on, as that state.
pub proof fn lemma_saved_preset_recalled<S>(presets: Seq<(Seq<char>, S)>, name: Seq<char>, current: S)
    ensures
        ({
            let saved = presets.push((name, current));
            &&& (presets.len() as int) < saved.len()
            &&& saved[presets.len() as int].1 == current
            &&& forall|row: int| 0 <= row < presets.len() ==> #[trigger] saved[row] == presets[row]
        }),
{
}

/// The slots of an editor model.
pub open spec fn ab_slots<S>(m: EditorModel<S>) -> AbSlots<S> {
    AbSlots { a: m.state_a, b: m.state_b, a_active: m.a_active }
}

/// The state of the editor, as plain values.
#[verifier::ext_equal]
pub struct EditorModel<S> {
    pub tab: Tab,
    pub presets: Seq<(Seq<char>, S)>,
    pub counter: usize,
    pub selected: Option<usize>,
    pub preset_menu_open: bool,
    pub name_input: Option<Seq<char>>,
    pub numeric_input: Option<(ControlId, Seq<char>)>,
    pub dropdown: Option<ControlId>,
    pub context_menu_open: bool,
    pub cleanup_menu_open: bool,
    pub history: HistoryModel<S>,
    pub state_a: S,
    pub state_b: S,
    pub a_active: bool,
    pub seed: u64,
}

/// The editor with the preset name field opened on "Preset" and the next preset number,
/// and the preset menu and any choice list closed.
pub open spec fn preset_save_opened<S>(m: EditorModel<S>) -> EditorModel<S> {
    EditorModel {
        name_input: Some("Preset "@ + decimal(m.counter as nat)),
        preset_menu_open: false,
        dropdown: None,
        ..m
    }
}

/// The editor with its selected preset removed: the selection moves to the preset that
/// took its place, or to the new last one, and the preset menu closes. Nothing changes
/// when no preset is selected.
pub open spec fn selected_preset_deleted<S>(m: EditorModel<S>) -> EditorModel<S> {
    match m.selected {
        None => m,
        Some(i) => {
            let rest = m.presets.remove(i as int);
            EditorModel {
                presets: rest,
                selected: if rest.len() == 0 {
                    None
                } else if i < rest.len() {
                    Some(i)
                } else {
                    Some((rest.len() - 1) as usize)
                },
                preset_menu_open: false,
                ..m
            }
        },
    }
}

/// Whether the editor went from `e0` to `e1`, and MIDI learn from `m0` to `m1`, by the
/// MIDI context menu entry `action`: "clean up" opens or closes the clean-up menu; every
/// other entry closes both menus, and MIDI on/off flips, roll back restores the saved
/// mapping and stops learning, save keeps the current mapping.
pub open spec fn midi_action_done<S>(
    action: MidiMenuAction,
    e0: EditorModel<S>,
    e1: EditorModel<S>,
    m0: MidiLearnShared,
    m1: MidiLearnShared,
) -> bool {
    &&& action == MidiMenuAction::CleanUp ==> e1 == (EditorModel {
        cleanup_menu_open: !e0.cleanup_menu_open,
        ..e0
    }) && m1 == m0
    &&& action != MidiMenuAction::CleanUp ==> e1 == (EditorModel {
        context_menu_open: false,
        cleanup_menu_open: false,
        ..e0
    })
    &&& action == MidiMenuAction::ToggleMidi ==> {
        &&& m1.enabled() == !m0.enabled()
        &&& m1.target() == m0.target()
        &&& m1.bindings() == m0.bindings()
        &&& m1.bindings_changed() == m0.bindings_changed()
        &&& m1.mapping_view() == m0.mapping_view()
        &&& m1.saved_view() == m0.saved_view()
        &&& m1.values() == m0.values()
        &&& m1.moved() == m0.moved()
    }
    &&& action == MidiMenuAction::RollBack ==> {
        &&& m1.mapping_view() == m0.saved_view()
        &&& m1.bindings() == bindings_of(m0.saved_view())
        &&& m1.target() == UNMAPPED_CC
        &&& m1.enabled() == m0.enabled()
        &&& m1.bindings_changed() == m0.bindings_changed()
        &&& m1.saved_view() == m0.saved_view()
        &&& m1.values() == m0.values()
        &&& m1.moved() == m0.moved()
    }
    &&& action == MidiMenuAction::Save ==> {
        &&& m1.mapping_view() == if m0.bindings_changed() {
            mapping_of(m0.bindings())
        } else {
            m0.mapping_view()
        }
        &&& m1.saved_view() == m1.mapping_view()
        &&& m1.bindings() == m0.bindings()
        &&& !m1.bindings_changed()
        &&& m1.target() == m0.target()
        &&& m1.enabled() == m0.enabled()
        &&& m1.values() == m0.values()
        &&& m1.moved() == m0.moved()
    }
}

/// Whether MIDI learn went from `m0` to `m1` by the clean-up menu entry `action`: one
/// mapping goes, or all of them go and learning stops; the bindings follow the mapping.
pub open spec fn cleanup_done(action: CleanupAction, m0: MidiLearnShared, m1: MidiLearnShared) -> bool {
    &&& m1.enabled() == m0.enabled()
    &&& m1.saved_view() == m0.saved_view()
    &&& m1.bindings_changed() == m0.bindings_changed()
    &&& m1.values() == m0.values()
    &&& m1.moved() == m0.moved()
    &&& m1.bindings() == bindings_of(m1.mapping_view())
    &&& match action {
        CleanupAction::Remove(cc) => m1.mapping_view() == m0.mapping_view().remove(cc)
            && m1.target() == m0.target(),
        CleanupAction::ClearAll => m1.mapping_view() == Map::<u8, u8>::empty() && m1.target()
            == UNMAPPED_CC,
    }
}

/// The names of the presets of a model.
pub open spec fn model_names<S>(presets: Seq<(Seq<char>, S)>) -> Seq<Seq<char>> {
    presets.map_values(|p: (Seq<char>, S)| p.0)
}

/// A text field after typing `c`: control characters are ignored, and the field takes
/// no more once it holds `MAX_TEXT_BYTES` bytes.
pub open spec fn typed(text: Seq<char>, c: char) -> Seq<char> {
    if !is_control(c) && byte_len(text) < MAX_TEXT_BYTES {
        text.push(c)
    } else {
        text
    }
}

/// A text field after a backspace.
pub open spec fn erased(text: Seq<char>) -> Seq<char> {
    if text.len() > 0 {
        text.drop_last()
    } else {
        text
    }
}

/// Typing into a text field: a character that is not a control character is appended,
/// exactly as typed, while the field holds fewer than `MAX_TEXT_BYTES` bytes; a control
/// character, or any character once the field is full, leaves the field as it is.
/// Backspace removes the last character, and nothing from an empty field.
pub proof fn lemma_typing(t: Seq<char>, c: char)
    ensures
        !is_control(c) && byte_len(t) < MAX_TEXT_BYTES ==> typed(t, c) == t.push(c)
            && typed(t, c).len() == t.len() + 1 && typed(t, c).last() == c,
        is_control(c) || byte_len(t) >= MAX_TEXT_BYTES ==> typed(t, c) == t,
        typed(t, c).subrange(0, t.len() as int) == t,
        t.len() > 0 ==> erased(t).len() == t.len() - 1 && erased(t) == t.subrange(
            0,
            t.len() - 1,
        ),
        t.len() == 0 ==> erased(t) == t,
{
    assert(t.push(c).subrange(0, t.len() as int) =~= t);
    assert(t.subrange(0, t.len() as int) =~= t);
    if t.len() > 0 {
        assert(t.drop_last() =~= t.subrange(0, t.len() - 1));
    }
}

/// Deleting the selected preset `i` removes exactly that preset: the presets before it
/// stay where they were and those after it move down one place. The selection stays on
/// `i`, which now holds the preset that followed, or moves to the new last preset, or
/// goes when no preset is left; the preset menu closes and nothing else changes. With
/// no preset selected nothing changes.
pub proof fn lemma_delete_selected<S>(m: EditorModel<S>)
    requires
        m.selected matches Some(i) ==> i < m.presets.len(),
    ensures
        m.selected is None ==> selected_preset_deleted(m) == m,
        m.selected matches Some(i) ==> {
            let f = selected_preset_deleted(m);
            &&& f.presets.len() == m.presets.len() - 1
            &&& forall|j: int| 0 <= j < i ==> #[trigger] f.presets[j] == m.presets[j]
            &&& forall|j: int| i <= j < f.presets.len() ==> #[trigger] f.presets[j] == m.presets[j + 1]
            &&& f.selected == if m.presets.len() == 1 {
                None
            } else if i + 1 < m.presets.len() {
                Some(i)
            } else {
                Some((i - 1) as usize)
            }
            &&& f == (EditorModel {
                presets: f.presets,
                selected: f.selected,
                preset_menu_open: false,
                ..m
            })
        },
{
}

/// The editor: the page shown, presets, the name and value fields, open menus, undo
/// history, the A/B slots and the chaos generator.
pub struct EditorState<S> {
    active_tab: Tab,
    presets: Vec<(String, S)>,
    preset_name_counter: usize,
    selected_preset: Option<usize>,
    preset_menu_open: bool,
    preset_name_input: Option<String>,
    numeric_input: Option<(ControlId, String)>,
    choice_dropdown: Option<ControlId>,
    midi_context_menu_open: bool,
    midi_cleanup_menu_open: bool,
    history: UndoHistory<S>,
    state_a: S,
    state_b: S,
    active_state_is_a: bool,
    chaos_seed: u64,
}

impl<S: Copy + PartialEq> EditorState<S> {
    pub closed spec fn view(&self) -> EditorModel<S> {
        EditorModel {
            tab: self.active_tab,
            presets: self.presets@.map_values(|p: (String, S)| (p.0@, p.1)),
            counter: self.preset_name_counter,
            selected: self.selected_preset,
            preset_menu_open: self.preset_menu_open,
            name_input: match self.preset_name_input {
                Some(t) => Some(t@),
                None => None,
            },
            numeric_input: match self.numeric_input {
                Some(n) => Some((n.0, n.1@)),
                None => None,
            },
            dropdown: self.choice_dropdown,
            context_menu_open: self.midi_context_menu_open,
            cleanup_menu_open: self.midi_cleanup_menu_open,
            history: self.history.model(),
            state_a: self.state_a,
            state_b: self.state_b,
            a_active: self.active_state_is_a,
            seed: self.chaos_seed,
        }
    }

    /// The invariant: the history keeps its cap and a selected preset exists.
    pub open spec fn wf(&self) -> bool {
        &&& within_cap(self.view().history)
        &&& self.view().selected matches Some(i) ==> i < self.view().presets.len()
    }

    /// A fresh editor: global page, no presets, both A/B slots holding `initial`.
    pub fn new(initial: S) -> (e: Self)
        ensures
            e.wf(),
            e.view() == (EditorModel {
                tab: Tab::Global,
                presets: Seq::empty(),
                counter: 1,
                selected: None,
                preset_menu_open: false,
                name_input: None,
                numeric_input: None,
                dropdown: None,
                context_menu_open: false,
                cleanup_menu_open: false,
                history: HistoryModel { undo: Seq::empty(), redo: Seq::empty() },
                state_a: initial,
                state_b: initial,
                a_active: true,
                seed: CHAOS_SEED,
            }),
    {
        let e = EditorState {
            active_tab: Tab::Global,
            presets: Vec::new(),
            preset_name_counter: 1,
            selected_preset: None,
            preset_menu_open: false,
            preset_name_input: None,
            numeric_input: None,
            choice_dropdown: None,
            midi_context_menu_open: false,
            midi_cleanup_menu_open: false,
            history: UndoHistory::new(),
            state_a: initial,
            state_b: initial,
            active_state_is_a: true,
            chaos_seed: CHAOS_SEED,
        };
        assert(e.view().presets =~= Seq::<(Seq<char>, S)>::empty());
        assert(e.view().history =~= (HistoryModel { undo: Seq::<S>::empty(), redo: Seq::<S>::empty() }));
        e
    }

    pub fn active_tab(&self) -> (tab: Tab)
        ensures
            tab == self.view().tab,
    {
        self.active_tab
    }

    pub fn set_active_tab(&mut self, tab: Tab)
        requires
            old(self).wf(),
        ensures
            final(self).wf(),
            final(self).view() == (EditorModel { tab, ..old(self).view() }),
    {
        self.active_tab = tab;
    }

    pub fn preset_count(&self) -> (n: usize)
        ensures
            n == self.view().presets.len(),
    {
        self.presets.len()
    }

    /// The name of preset `i`.
    pub fn preset_name(&self, i: usize) -> (name: String)
        requires
            i < self.view().presets.len(),
        ensures
            name@ == self.view().presets[i as int].0,
    {
        self.presets[i].0.clone()
    }

    /// The snapshot kept in preset `i`.
    pub fn preset_snapshot(&self, i: usize) -> (snapshot: S)
        requires
            i < self.view().presets.len(),
        ensures
            snapshot == self.view().presets[i as int].1,
    {
        self.presets[i].1
    }

    pub fn selected_preset(&self) -> (selected: Option<usize>)
        ensures
            selected == self.view().selected,
    {
        self.selected_preset
    }

    pub fn preset_menu_open(&self) -> (open: bool)
        ensures
            open == self.view().preset_menu_open,
    {
        self.preset_menu_open
    }

    pub fn toggle_preset_menu(&mut self)
        requires
            old(self).wf(),
        ensures
            final(self).wf(),
            final(self).view() == (EditorModel {
                preset_menu_open: !old(self).view().preset_menu_open,
                ..old(self).view()
            }),
    {
        self.preset_menu_open = !self.preset_menu_open;
    }

    pub fn close_preset_menu(&mut self)
        requires
            old(self).wf(),
        ensures
            final(self).wf(),
            final(self).view() == (EditorModel { preset_menu_open: false, ..old(self).view() }),
    {
        self.preset_menu_open = false;
    }

    /// The text of the preset name field, while it is open.
    pub fn preset_name_input(&self) -> (text: Option<String>)
        ensures
            match text {
                Some(t) => self.view().name_input == Some(t@),
                None => self.view().name_input is None,
            },
    {
        match &self.preset_name_input {
            Some(t) => Some(t.clone()),
            None => None,
        }
    }

    /// Opens the preset name field with "Preset" and the next preset number, and closes
    /// the preset menu and any choice list.
    pub fn open_preset_save(&mut self)
        requires
            old(self).wf(),
        ensures
            final(self).wf(),
            final(self).view() == preset_save_opened(old(self).view()),
    {
        let mut text = String::new();
        push_str(&mut text, "Preset ");
        push_decimal(&mut text, self.preset_name_counter);
        self.preset_name_input = Some(text);
        self.preset_menu_open = false;
        self.choice_dropdown = None;
    }

    /// Closes the preset name field without saving.
    pub fn cancel_preset_name(&mut self)
        requires
            old(self).wf(),
        ensures
            final(self).wf(),
            final(self).view() == (EditorModel { name_input: None, ..old(self).view() }),
    {
        self.preset_name_input = None;
    }

    /// Saves `current` as a preset named after `name` (see `default_preset_name`), selects
    /// it, and closes the preset menu and the name field.
    pub fn save_preset(&mut self, name: &str, current: S)
        requires
            old(self).wf(),
            old(self).view().counter < usize::MAX,
            old(self).view().presets.len() < usize::MAX,
        ensures
            final(self).wf(),
            exists|chosen: Seq<char>|
                #![trigger is_chosen_name(model_names(old(self).view().presets), name@, chosen)]
                is_chosen_name(model_names(old(self).view().presets), name@, chosen)
                    && final(self).view() == (EditorModel {
                    presets: old(self).view().presets.push((chosen, current)),
                    counter: (old(self).view().counter + 1) as usize,
                    selected: Some(old(self).view().presets.len() as usize),
                    preset_menu_open: false,
                    name_input: None,
                    ..old(self).view()
                }),
    {
        let ghost old_view = self.view();
        assert(preset_names(self.presets@) =~= model_names(old_view.presets));
        let chosen = default_preset_name(name, &self.presets);
        self.preset_name_counter = self.preset_name_counter + 1;
        self.presets.push((chosen, current));
        self.selected_preset = Some(self.presets.len() - 1);
        self.preset_menu_open = false;
        self.preset_name_input = None;
        assert(self.view().presets =~= old_view.presets.push((chosen@, current)));
        assert(self.view() =~= (EditorModel {
            presets: old_view.presets.push((chosen@, current)),
            counter: (old_view.counter + 1) as usize,
            selected: Some(old_view.presets.len() as usize),
            preset_menu_open: false,
            name_input: None,
            ..old_view
        }));
    }

    /// Adds `snapshot` as a preset named `name` exactly, leaving the selection as it is.
    pub fn store_preset(&mut self, name: String, snapshot: S)
        requires
            old(self).wf(),
        ensures
            final(self).wf(),
            final(self).view() == (EditorModel {
                presets: old(self).view().presets.push((name@, snapshot)),
                ..old(self).view()
            }),
    {
        let ghost old_view = self.view();
        let ghost n = name@;
        self.presets.push((name, snapshot));
        assert(self.view().presets =~= old_view.presets.push((n, snapshot)));
        assert(self.view() =~= (EditorModel {
            presets: old_view.presets.push((n, snapshot)),
            ..old_view
        }));
    }

    /// Removes the selected preset, if any; the selection moves to the preset that took
    /// its place, or to the new last one, and the preset menu closes.
    pub fn delete_selected_preset(&mut self)
        requires
            old(self).wf(),
        ensures
            final(self).wf(),
            final(self).view() == selected_preset_deleted(old(self).view()),
    {
        let index = match self.selected_preset {
            Some(i) => i,
            None => return ,
        };
        let ghost old_view = self.view();
        if index < self.presets.len() {
            self.presets.remove(index);
        }
        self.selected_preset = if self.presets.len() == 0 {
            None
        } else if index < self.presets.len() {
            Some(index)
        } else {
            Some(self.presets.len() - 1)
        };
        self.preset_menu_open = false;
        assert(self.view().presets =~= old_view.presets.remove(index as int));
        assert(self.view() =~= (EditorModel {
            presets: old_view.presets.remove(index as int),
            selected: self.selected_preset,
            preset_menu_open: false,
            ..old_view
        }));
    }

    /// Picks preset `row` from the preset menu while the editor is in state `current`:
    /// records `current` for undo, selects the preset, closes the menu and hands back the
    /// snapshot to apply. A row past the last preset does nothing.
    pub fn choose_preset(&mut self, row: usize, current: S) -> (chosen: Option<S>)
        requires
            old(self).wf(),
        ensures
            final(self).wf(),
            row >= old(self).view().presets.len() ==> chosen is None && final(self).view()
                == old(self).view(),
            row < old(self).view().presets.len() ==> {
                &&& chosen == Some(old(self).view().presets[row as int].1)
                &&& final(self).view().selected == Some(row)
                &&& !final(self).view().preset_menu_open
                &&& recorded(old(self).view().history, current, final(self).view().history)
                &&& final(self).view() == (EditorModel {
                    selected: Some(row),
                    preset_menu_open: false,
                    history: final(self).view().history,
                    ..old(self).view()
                })
            },
    {
        if row >= self.presets.len() {
            return None;
        }
        let snapshot = self.presets[row].1;
        let ghost old_view = self.view();
        self.history.push(current);
        self.selected_preset = Some(row);
        self.preset_menu_open = false;
        assert(self.view() =~= (EditorModel {
            selected: Some(row),
            preset_menu_open: false,
            history: self.view().history,
            ..old_view
        }));
        Some(snapshot)
    }

    /// The value field, while it is open: its control and text.
    pub fn numeric_input(&self) -> (field: Option<(ControlId, String)>)
        ensures
            match field {
                Some(f) => self.view().numeric_input == Some((f.0, f.1@)),
                None => self.view().numeric_input is None,
            },
    {
        match &self.numeric_input {
            Some(f) => Some((f.0, f.1.clone())),
            None => None,
        }
    }

    /// Opens the value field of control `id` holding `text`, and closes any choice list.
    pub fn open_numeric_input(&mut self, id: ControlId, text: String)
        requires
            old(self).wf(),
        ensures
            final(self).wf(),
            final(self).view() == (EditorModel {
                numeric_input: Some((id, text@)),
                dropdown: None,
                ..old(self).view()
            }),
    {
        self.numeric_input = Some((id, text));
        self.choice_dropdown = None;
    }

    /// Closes the value field without applying it.
    pub fn cancel_numeric_input(&mut self)
        requires
            old(self).wf(),
        ensures
            final(self).wf(),
            final(self).view() == (EditorModel { numeric_input: None, ..old(self).view() }),
    {
        self.numeric_input = None;
    }

    /// Closes the value field and hands back its control and text, to be read and applied.
    pub fn take_numeric_input(&mut self) -> (field: Option<(ControlId, String)>)
        requires
            old(self).wf(),
        ensures
            final(self).wf(),
            match field {
                Some(f) => old(self).view().numeric_input == Some((f.0, f.1@)),
                None => old(self).view().numeric_input is None,
            },
            final(self).view() == (EditorModel { numeric_input: None, ..old(self).view() }),
    {
        self.numeric_input.take()
    }

    /// A character typed on the keyboard: it goes into the preset name field if that is
    /// open, else into the value field if that is open.
    pub fn char_input(&mut self, c: char)
        requires
            old(self).wf(),
        ensures
            final(self).wf(),
            final(self).view() == match old(self).view().name_input {
                Some(t) => EditorModel { name_input: Some(typed(t, c)), ..old(self).view() },
                None => match old(self).view().numeric_input {
                    Some(f) => EditorModel {
                        numeric_input: Some((f.0, typed(f.1, c))),
                        ..old(self).view()
                    },
                    None => old(self).view(),
                },
            },
    {
        if is_control_char(c) {
            return;
        }
        if let Some(mut name) = self.preset_name_input.take() {
            if utf8_len(&name) < MAX_TEXT_BYTES {
                push_char(&mut name, c);
            }
            self.preset_name_input = Some(name);
        } else if let Some((id, mut text)) = self.numeric_input.take() {
            if utf8_len(&text) < MAX_TEXT_BYTES {
                push_char(&mut text, c);
            }
            self.numeric_input = Some((id, text));
        }
    }

    /// A key press while the editor has the focus, in state `current`. Escape closes the
    /// fields and menus; Enter saves the preset being named, or hands back the value field
    /// to be applied; Backspace erases the last character of the open field.
    pub fn key_down(&mut self, key: EditorKey, current: S) -> (outcome: KeyOutcome)
        requires
            old(self).wf(),
            old(self).view().counter < usize::MAX,
            old(self).view().presets.len() < usize::MAX,
        ensures
            final(self).wf(),
            key == EditorKey::Escape ==> outcome is Nothing && final(self).view() == (EditorModel {
                name_input: None,
                numeric_input: None,
                dropdown: None,
                context_menu_open: false,
                cleanup_menu_open: false,
                ..old(self).view()
            }),
            key == EditorKey::Backspace ==> outcome is Nothing && final(self).view() == match old(
                self,
            ).view().name_input {
                Some(t) => EditorModel { name_input: Some(erased(t)), ..old(self).view() },
                None => match old(self).view().numeric_input {
                    Some(f) => EditorModel {
                        numeric_input: Some((f.0, erased(f.1))),
                        ..old(self).view()
                    },
                    None => old(self).view(),
                },
            },
            key == EditorKey::Enter ==> match old(self).view().name_input {
                Some(t) => outcome is PresetSaved && exists|chosen: Seq<char>|
                    #![trigger is_chosen_name(model_names(old(self).view().presets), t, chosen)]
                    is_chosen_name(model_names(old(self).view().presets), t, chosen)
                        && final(self).view() == (EditorModel {
                        presets: old(self).view().presets.push((chosen, current)),
                        counter: (old(self).view().counter + 1) as usize,
                        selected: Some(old(self).view().presets.len() as usize),
                        preset_menu_open: false,
                        name_input: None,
                        ..old(self).view()
                    }),
                None => match old(self).view().numeric_input {
                    Some(f) => (outcome matches KeyOutcome::ConfirmNumeric(id, text) && id == f.0
                        && text@ == f.1) && final(self).view() == (EditorModel {
                        numeric_input: None,
                        ..old(self).view()
                    }),
                    None => outcome is Nothing && final(self).view() == old(self).view(),
                },
            },
    {
        match key {
            EditorKey::Escape => {
                self.preset_name_input = None;
                self.numeric_input = None;
                self.choice_dropdown = None;
                self.midi_context_menu_open = false;
                self.midi_cleanup_menu_open = false;
                KeyOutcome::Nothing
            },
            EditorKey::Enter => {
                if let Some(name) = self.preset_name_input.take() {
                    self.save_preset(name.as_str(), current);
                    KeyOutcome::PresetSaved
                } else if let Some((id, text)) = self.numeric_input.take() {
                    KeyOutcome::ConfirmNumeric(id, text)
                } else {
                    KeyOutcome::Nothing
                }
            },
            EditorKey::Backspace => {
                if let Some(mut name) = self.preset_name_input.take() {
                    pop_char(&mut name);
                    self.preset_name_input = Some(name);
                } else if let Some((id, mut text)) = self.numeric_input.take() {
                    pop_char(&mut text);
                    self.numeric_input = Some((id, text));
                }
                KeyOutcome::Nothing
            },
        }
    }

    /// The control whose choice list is open.
    pub fn choice_dropdown(&self) -> (id: Option<ControlId>)
        ensures
            id == self.view().dropdown,
    {
        self.choice_dropdown
    }

    /// Opens the choice list of control `id`.
    pub fn open_choice_dropdown(&mut self, id: ControlId)
        requires
            old(self).wf(),
        ensures
            final(self).wf(),
            final(self).view() == (EditorModel { dropdown: Some(id), ..old(self).view() }),
    {
        self.choice_dropdown = Some(id);
    }

    /// Closes the choice list.
    pub fn close_choice_dropdown(&mut self)
        requires
            old(self).wf(),
        ensures
            final(self).wf(),
            final(self).view() == (EditorModel { dropdown: None, ..old(self).view() }),
    {
        self.choice_dropdown = None;
    }

    /// Closes the choice list of control `id` if it is open, and otherwise opens it.
    pub fn toggle_choice_dropdown(&mut self, id: ControlId)
        requires
            old(self).wf(),
        ensures
            final(self).wf(),
            final(self).view() == (EditorModel {
                dropdown: if old(self).view().dropdown == Some(id) {
                    None
                } else {
                    Some(id)
                },
                ..old(self).view()
            }),
    {
        let same = match self.choice_dropdown {
            Some(open) => open == id,
            None => false,
        };
        if same {
            self.choice_dropdown = None;
        } else {
            self.choice_dropdown = Some(id);
        }
    }

    /// Closes the choice list if it belongs to control `id`.
    pub fn close_choice_if_matching(&mut self, id: ControlId)
        requires
            old(self).wf(),
        ensures
            final(self).wf(),
            final(self).view() == (EditorModel {
                dropdown: if old(self).view().dropdown == Some(id) {
                    None
                } else {
                    old(self).view().dropdown
                },
                ..old(self).view()
            }),
    {
        let same = match self.choice_dropdown {
            Some(open) => open == id,
            None => false,
        };
        if same {
            self.choice_dropdown = None;
        }
    }

    /// An entry of the open choice list was picked in state `current`: records `current`
    /// for undo, closes the list and hands back the control to set.
    pub fn choose_choice(&mut self, current: S) -> (id: Option<ControlId>)
        requires
            old(self).wf(),
        ensures
            final(self).wf(),
            id == old(self).view().dropdown,
            id is None ==> final(self).view() == old(self).view(),
            id is Some ==> {
                &&& recorded(old(self).view().history, current, final(self).view().history)
                &&& final(self).view() == (EditorModel {
                    dropdown: None,
                    history: final(self).view().history,
                    ..old(self).view()
                })
            },
    {
        let id = self.choice_dropdown;
        if id.is_some() {
            let ghost old_view = self.view();
            self.history.push(current);
            self.choice_dropdown = None;
            assert(self.view() =~= (EditorModel {
                dropdown: None,
                history: self.view().history,
                ..old_view
            }));
        }
        id
    }

    pub fn midi_context_menu_open(&self) -> (open: bool)
        ensures
            open == self.view().context_menu_open,
    {
        self.midi_context_menu_open
    }

    pub fn midi_cleanup_menu_open(&self) -> (open: bool)
        ensures
            open == self.view().cleanup_menu_open,
    {
        self.midi_cleanup_menu_open
    }

    /// The MIDI button was right-clicked: its context menu opens or closes, and every
    /// other menu closes.
    pub fn toggle_midi_context_menu(&mut self)
        requires
            old(self).wf(),
        ensures
            final(self).wf(),
            final(self).view() == (EditorModel {
                context_menu_open: !old(self).view().context_menu_open,
                cleanup_menu_open: false,
                preset_menu_open: false,
                dropdown: None,
                ..old(self).view()
            }),
    {
        self.midi_context_menu_open = !self.midi_context_menu_open;
        self.midi_cleanup_menu_open = false;
        self.preset_menu_open = false;
        self.choice_dropdown = None;
    }

    /// Closes the MIDI context and clean-up menus.
    pub fn close_midi_menus(&mut self)
        requires
            old(self).wf(),
        ensures
            final(self).wf(),
            final(self).view() == (EditorModel {
                context_menu_open: false,
                cleanup_menu_open: false,
                ..old(self).view()
            }),
    {
        self.midi_context_menu_open = false;
        self.midi_cleanup_menu_open = false;
    }

    /// An entry of the MIDI context menu was picked.
    pub fn midi_menu_action(&mut self, action: MidiMenuAction, midi: &mut MidiLearnShared)
        requires
            old(self).wf(),
            old(midi).wf(),
        ensures
            final(self).wf(),
            final(midi).wf(),
            midi_action_done(action, old(self).view(), final(self).view(), *old(midi), *final(midi)),
    {
        match action {
            MidiMenuAction::ToggleMidi => {
                let enabled = midi.midi_enabled();
                midi.set_midi_enabled(!enabled);
                self.midi_context_menu_open = false;
                self.midi_cleanup_menu_open = false;
            },
            MidiMenuAction::CleanUp => {
                self.midi_cleanup_menu_open = !self.midi_cleanup_menu_open;
            },
            MidiMenuAction::RollBack => {
                midi.roll_back();
                midi.set_learning_target(UNMAPPED_CC);
                self.midi_context_menu_open = false;
                self.midi_cleanup_menu_open = false;
            },
            MidiMenuAction::Save => {
                midi.save_current_mapping();
                self.midi_context_menu_open = false;
                self.midi_cleanup_menu_open = false;
            },
        }
    }

    /// An entry of the MIDI clean-up menu was picked: one mapping goes, or all of them
    /// go and MIDI learn stops.
    pub fn cleanup_menu_action(&mut self, action: CleanupAction, midi: &mut MidiLearnShared)
        requires
            old(self).wf(),
            old(midi).wf(),
        ensures
            final(self).wf(),
            final(self).view() == old(self).view(),
            final(midi).wf(),
            cleanup_done(action, *old(midi), *final(midi)),
    {
        match action {
            CleanupAction::Remove(cc) => {
                midi.delete_mapping(cc);
            },
            CleanupAction::ClearAll => {
                midi.clear_all_mappings();
                assert(midi.bindings() =~= bindings_of(Map::<u8, u8>::empty()));
                midi.set_learning_target(UNMAPPED_CC);
            },
        }
    }

    pub fn undo_len(&self) -> (n: usize)
        ensures
            n == self.view().history.undo.len(),
    {
        self.history.undo_len()
    }

    pub fn redo_len(&self) -> (n: usize)
        ensures
            n == self.view().history.redo.len(),
    {
        self.history.redo_len()
    }

    /// Records `current` as the state before a change.
    pub fn push_undo_snapshot(&mut self, current: S)
        requires
            old(self).wf(),
        ensures
            final(self).wf(),
            recorded(old(self).view().history, current, final(self).view().history),
            final(self).view() == (EditorModel {
                history: final(self).view().history,
                ..old(self).view()
            }),
    {
        let ghost old_view = self.view();
        self.history.push(current);
        assert(self.view() =~= (EditorModel { history: self.view().history, ..old_view }));
    }

    /// After a drag that began in `before` and ended in `current`: records `before` if the
    /// drag changed anything.
    pub fn record_undo_if_changed(&mut self, before: S, current: S)
        requires
            old(self).wf(),
        ensures
            final(self).wf(),
            S::obeys_eq_spec() ==> final(self).view().history == if current.eq_spec(&before) {
                old(self).view().history
            } else {
                spec_push(old(self).view().history, before)
            },
            final(self).view().history == old(self).view().history || final(self).view().history
                == pushed(old(self).view().history, before),
            final(self).view() == (EditorModel {
                history: final(self).view().history,
                ..old(self).view()
            }),
    {
        let ghost old_view = self.view();
        self.history.record_if_changed(before, current);
        assert(self.view() =~= (EditorModel { history: self.view().history, ..old_view }));
    }

    /// Undo from state `current`: hands back the snapshot to apply, if any.
    pub fn undo(&mut self, current: S) -> (restored: Option<S>)
        requires
            old(self).wf(),
        ensures
            final(self).wf(),
            (restored, final(self).view().history) == spec_undo(old(self).view().history, current),
            final(self).view() == (EditorModel {
                history: final(self).view().history,
                ..old(self).view()
            }),
    {
        let ghost old_view = self.view();
        let r = self.history.undo(current);
        assert(self.view() =~= (EditorModel { history: self.view().history, ..old_view }));
        r
    }

    /// Redo from state `current`: hands back the snapshot to apply, if any.
    pub fn redo(&mut self, current: S) -> (restored: Option<S>)
        requires
            old(self).wf(),
        ensures
            final(self).wf(),
            (restored, final(self).view().history) == spec_redo(old(self).view().history, current),
            final(self).view() == (EditorModel {
                history: final(self).view().history,
                ..old(self).view()
            }),
    {
        let ghost old_view = self.view();
        let r = self.history.redo(current);
        assert(self.view() =~= (EditorModel { history: self.view().history, ..old_view }));
        r
    }

    /// Whether slot A is the one being edited.
    pub fn a_active(&self) -> (a: bool)
        ensures
            a == self.view().a_active,
    {
        self.active_state_is_a
    }

    /// The caption of the A/B button.
    pub fn ab_label(&self) -> (label: &'static str)
        ensures
            label == if self.view().a_active {
                "A/B  A"
            } else {
                "A/B  B"
            },
    {
        if self.active_state_is_a {
            "A/B  A"
        } else {
            "A/B  B"
        }
    }

    /// Switches between the A and B slots in state `current`: `current` is kept in the
    /// slot being left and recorded for undo, and the other slot is handed back to apply.
    pub fn toggle_ab(&mut self, current: S) -> (other: S)
        requires
            old(self).wf(),
        ensures
            final(self).wf(),
            (other, ab_slots(final(self).view())) == ab_switch(ab_slots(old(self).view()), current),
            recorded(old(self).view().history, current, final(self).view().history),
            final(self).view() == (EditorModel {
                state_a: if old(self).view().a_active {
                    current
                } else {
                    old(self).view().state_a
                },
                state_b: if old(self).view().a_active {
                    old(self).view().state_b
                } else {
                    current
                },
                a_active: !old(self).view().a_active,
                history: final(self).view().history,
                ..old(self).view()
            }),
    {
        let ghost old_view = self.view();
        let other;
        if self.active_state_is_a {
            self.state_a = current;
            self.active_state_is_a = false;
            self.history.push(current);
            other = self.state_b;
        } else {
            self.state_b = current;
            self.active_state_is_a = true;
            self.history.push(current);
            other = self.state_a;
        }
        assert(self.view() =~= (EditorModel {
            state_a: if old_view.a_active {
                current
            } else {
                old_view.state_a
            },
            state_b: if old_view.a_active {
                old_view.state_b
            } else {
                current
            },
            a_active: !old_view.a_active,
            history: self.view().history,
            ..old_view
        }));
        other
    }

    /// The chaos button in state `current`: records `current` for undo and hands out one
    /// draw of the generator per control, in control order.
    pub fn chaos_draws(&mut self, current: S) -> (draws: Vec<u64>)
        requires
            old(self).wf(),
        ensures
            final(self).wf(),
            draws@.len() == CHAOS_DRAWS,
            forall|i: int|
                0 <= i < CHAOS_DRAWS ==> #[trigger] draws@[i] == seed_after(
                    old(self).view().seed,
                    (i + 1) as nat,
                ) >> 11u64,
            recorded(old(self).view().history, current, final(self).view().history),
            final(self).view() == (EditorModel {
                seed: seed_after(old(self).view().seed, CHAOS_DRAWS as nat),
                history: final(self).view().history,
                ..old(self).view()
            }),
    {
        let ghost old_view = self.view();
        self.history.push(current);
        let mut seed = self.chaos_seed;
        let mut draws: Vec<u64> = Vec::new();
        let mut i: usize = 0;
        while i < CHAOS_DRAWS
            invariant
                i <= CHAOS_DRAWS,
                draws@.len() == i,
                seed == seed_after(old_view.seed, i as nat),
                forall|k: int|
                    0 <= k < i ==> #[trigger] draws@[k] == seed_after(old_view.seed, (k + 1) as nat)
                        >> 11u64,
            decreases CHAOS_DRAWS - i,
        {
            let bits = next_chaos_bits(&mut seed);
            draws.push(bits);
            i = i + 1;
        }
        self.chaos_seed = seed;
        assert(self.view() =~= (EditorModel {
            seed: seed_after(old_view.seed, CHAOS_DRAWS as nat),
            history: self.view().history,
            ..old_view
        }));
        draws
    }
}

} // verus!
