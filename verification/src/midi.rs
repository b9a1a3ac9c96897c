use vstd::prelude::*;

use std::collections::HashMap;

use crate::model::{ControlId, CONTROL_COUNT};

verus! {

broadcast use vstd::std_specs::hash::group_hash_axioms;

/// Number of MIDI continuous controllers.
pub const CC_COUNT: usize = 128;

/// Binding of a controller that drives no control; also the learning target when
/// MIDI learn is off.
pub const UNMAPPED_CC: i32 = -1;

/// Learning target while MIDI learn waits for the user to pick a control.
pub const MIDI_WAITING_FOR_CONTROL: i32 = -2;

/// The control that a stored binding names, if it names one.
pub open spec fn binding_control(binding: i32) -> Option<ControlId> {
    if binding >= 0 {
        ControlId::spec_from_index(binding as int)
    } else {
        None
    }
}

/// Whether a stored binding is `UNMAPPED_CC` or the index of a control.
pub open spec fn valid_binding(binding: i32) -> bool {
    binding == UNMAPPED_CC || 0 <= binding < CONTROL_COUNT
}

/// Whether every controller has a valid binding.
pub open spec fn valid_bindings(bindings: Seq<i32>) -> bool {
    &&& bindings.len() == CC_COUNT
    &&& forall|cc: int| 0 <= cc < CC_COUNT ==> valid_binding(#[trigger] bindings[cc])
}

/// Whether a controller-to-control mapping names controllers and controls that exist.
pub open spec fn valid_mapping(m: Map<u8, u8>) -> bool {
    forall|cc: u8| #[trigger] m.contains_key(cc) ==> cc < CC_COUNT && m[cc] < CONTROL_COUNT
}

/// The mapping that the bindings describe: each bound controller to its control's index.
pub open spec fn mapping_of(bindings: Seq<i32>) -> Map<u8, u8> {
    Map::new(
        |cc: u8| cc < bindings.len() && bindings[cc as int] >= 0,
        |cc: u8| bindings[cc as int] as u8,
    )
}

/// The bindings that a mapping describes: every controller unbound but those it maps.
pub open spec fn bindings_of(m: Map<u8, u8>) -> Seq<i32> {
    Seq::new(
        CC_COUNT as nat,
        |cc: int|
            if m.contains_key(cc as u8) {
                m[cc as u8] as i32
            } else {
                UNMAPPED_CC
            },
    )
}

/// The pairs of a mapping among the first `n` controllers, in controller order.
pub open spec fn sorted_pairs_upto(m: Map<u8, u8>, n: int) -> Seq<(u8, u8)>
    decreases n,
{
    if n <= 0 {
        Seq::empty()
    } else {
        let rest = sorted_pairs_upto(m, n - 1);
        if m.contains_key((n - 1) as u8) {
            rest.push(((n - 1) as u8, m[(n - 1) as u8]))
        } else {
            rest
        }
    }
}

/// The controller slot that an incoming controller number is stored in.
pub open spec fn cc_slot(cc: int) -> int {
    if cc < CC_COUNT {
        cc
    } else {
        CC_COUNT - 1
    }
}

/// The control changes that the first `n` controllers ask for: each controller that
/// moved and is bound, in controller order, with the raw value it sent.
pub open spec fn pending_upto(bindings: Seq<i32>, dirty: Seq<bool>, values: Seq<u32>, n: int) -> Seq<
    (ControlId, u32),
>
    decreases n,
{
    if n <= 0 {
        Seq::empty()
    } else {
        let rest = pending_upto(bindings, dirty, values, n - 1);
        if dirty[n - 1] && binding_control(bindings[n - 1]) is Some {
            rest.push((binding_control(bindings[n - 1])->0, values[n - 1]))
        } else {
            rest
        }
    }
}

/// Every incoming controller number lands on a controller slot: its own when it names a
/// controller, the last one past the end.
pub proof fn lemma_cc_slot(cc: int)
    requires
        0 <= cc,
    ensures
        0 <= cc_slot(cc) < CC_COUNT,
        cc < CC_COUNT ==> cc_slot(cc) == cc,
        cc >= CC_COUNT ==> cc_slot(cc) == CC_COUNT - 1,
{
}

/// The pending control changes among the first `n` controllers: there is no more than one
/// per controller and none when nothing moved; each one is the control of a controller that
/// moved and is bound, with the value that controller sent; and every controller that
/// moved and is bound gives one.
pub proof fn lemma_pending_changes(bindings: Seq<i32>, dirty: Seq<bool>, values: Seq<u32>, n: int)
    requires
        0 <= n <= bindings.len(),
        n <= dirty.len(),
        n <= values.len(),
    ensures
        pending_upto(bindings, dirty, values, n).len() <= n,
        (forall|k: int| 0 <= k < n ==> !#[trigger] dirty[k]) ==> pending_upto(
            bindings,
            dirty,
            values,
            n,
        ).len() == 0,
        forall|i: int|
            0 <= i < pending_upto(bindings, dirty, values, n).len() ==> exists|cc: int|
                0 <= cc < n && #[trigger] dirty[cc] && binding_control(bindings[cc]) == Some(
                    (#[trigger] pending_upto(bindings, dirty, values, n)[i]).0,
                ) && values[cc] == pending_upto(bindings, dirty, values, n)[i].1,
        forall|cc: int|
            0 <= cc < n && #[trigger] dirty[cc] && binding_control(bindings[cc]) is Some ==> exists|
                i: int,
            |
                0 <= i < pending_upto(bindings, dirty, values, n).len() && #[trigger] pending_upto(
                    bindings,
                    dirty,
                    values,
                    n,
                )[i] == (binding_control(bindings[cc])->0, values[cc]),
    decreases n,
{
    if n > 0 {
        lemma_pending_changes(bindings, dirty, values, n - 1);
        let rest = pending_upto(bindings, dirty, values, n - 1);
        let all = pending_upto(bindings, dirty, values, n);
        assert forall|i: int| 0 <= i < all.len() implies exists|cc: int|
            0 <= cc < n && #[trigger] dirty[cc] && binding_control(bindings[cc]) == Some(
                (#[trigger] all[i]).0,
            ) && values[cc] == all[i].1 by {
            if i < rest.len() {
                assert(all[i] == rest[i]);
                let cc = choose|cc: int|
                    0 <= cc < n - 1 && #[trigger] dirty[cc] && binding_control(bindings[cc]) == Some(
                        (#[trigger] rest[i]).0,
                    ) && values[cc] == rest[i].1;
                assert(dirty[cc]);
            } else {
                assert(dirty[n - 1]);
            }
        }
        assert forall|cc: int|
            0 <= cc < n && #[trigger] dirty[cc] && binding_control(bindings[cc]) is Some implies exists|
                i: int,
            | 0 <= i < all.len() && #[trigger] all[i] == (binding_control(bindings[cc])->0, values[cc]) by {
            if cc < n - 1 {
                let i = choose|i: int|
                    0 <= i < rest.len() && #[trigger] rest[i] == (
                        binding_control(bindings[cc])->0,
                        values[cc],
                    );
                assert(all[i] == rest[i]);
            } else {
                assert(all[rest.len() as int] == (binding_control(bindings[cc])->0, values[cc]));
            }
        }
    }
}

proof fn lemma_mapping_of_valid(bindings: Seq<i32>)
    requires
        valid_bindings(bindings),
    ensures
        valid_mapping(mapping_of(bindings)),
{
    assert forall|cc: u8| #[trigger] mapping_of(bindings).contains_key(cc) implies cc < CC_COUNT
        && mapping_of(bindings)[cc] < CONTROL_COUNT by {
        assert(valid_binding(bindings[cc as int]));
    }
}

proof fn lemma_bindings_of_valid(m: Map<u8, u8>)
    requires
        valid_mapping(m),
    ensures
        valid_bindings(bindings_of(m)),
{
    assert forall|cc: int| 0 <= cc < CC_COUNT implies valid_binding(#[trigger] bindings_of(m)[cc]) by {
        if m.contains_key(cc as u8) {
            assert(m[cc as u8] < CONTROL_COUNT);
        }
    }
}

/// Binding a controller to a control makes the controller drive exactly that control.
pub proof fn lemma_learned_binding(bindings: Seq<i32>, cc: int, control: ControlId)
    requires
        0 <= cc < bindings.len(),
    ensures
        binding_control(bindings.update(cc, control.spec_index() as i32)[cc]) == Some(control),
{
    crate::model::lemma_index_round_trip(control, 0);
}

/// MIDI learn end to end: picking a control makes its index the target, the target names
/// that control, and the controller that moves next is bound to it.
pub proof fn lemma_learn_workflow(id: ControlId, bindings: Seq<i32>, cc: int)
    requires
        0 <= cc < bindings.len(),
    ensures
        id.spec_index() as i32 >= 0,
        binding_control(id.spec_index() as i32) == Some(id),
        binding_control(bindings.update(cc, id.spec_index() as i32)[cc]) == Some(id),
{
    crate::model::lemma_index_round_trip(id, 0);
}

/// Bringing the mapping up to date from valid bindings, then setting the bindings from
/// that mapping, gives back the same bindings.
pub proof fn lemma_bindings_round_trip(bindings: Seq<i32>)
    requires
        valid_bindings(bindings),
    ensures
        bindings_of(mapping_of(bindings)) == bindings,
{
    assert forall|cc: int| 0 <= cc < CC_COUNT implies #[trigger] bindings_of(mapping_of(bindings))[cc]
        == bindings[cc] by {
        assert(valid_binding(bindings[cc]));
        assert((cc as u8) as int == cc);
    }
    assert(bindings_of(mapping_of(bindings)) =~= bindings);
}

/// Setting the bindings from a valid mapping, then bringing the mapping up to date from
/// them, gives back the same mapping.
pub proof fn lemma_mapping_round_trip(m: Map<u8, u8>)
    requires
        valid_mapping(m),
    ensures
        mapping_of(bindings_of(m)) == m,
{
    assert forall|cc: u8| #[trigger] mapping_of(bindings_of(m)).contains_key(cc) <==> m.contains_key(cc) by {
        if m.contains_key(cc) {
            assert(m[cc] < CONTROL_COUNT);
        }
    }
    assert forall|cc: u8| #[trigger] m.contains_key(cc) implies mapping_of(bindings_of(m))[cc] == m[cc] by {
        assert(m[cc] < CONTROL_COUNT);
    }
    assert(mapping_of(bindings_of(m)) =~= m);
}

/// A controller left out of a mapping drives no control once the bindings are set from
/// that mapping.
pub proof fn lemma_unmapped_unbound(m: Map<u8, u8>, cc: u8)
    requires
        cc < CC_COUNT,
        !m.contains_key(cc),
    ensures
        binding_control(bindings_of(m)[cc as int]) is None,
{
}

/// MIDI learn: which controller drives which control, the mapping shown to the user and
/// the one kept for rolling back, and the latest value each controller sent.
pub struct MidiLearnShared {
    learning_target: i32,
    mappings: HashMap<u8, u8>,
    saved_mappings: HashMap<u8, u8>,
    midi_enabled: bool,
    cc_values: Vec<u32>,
    cc_dirty: Vec<bool>,
    cc_bindings: Vec<i32>,
    bindings_dirty: bool,
}

impl MidiLearnShared {
    /// The control index that MIDI learn assigns next (`>= 0`), or `UNMAPPED_CC`, or
    /// `MIDI_WAITING_FOR_CONTROL`.
    pub closed spec fn target(&self) -> i32 {
        self.learning_target
    }

    /// The binding of each controller: a control index or `UNMAPPED_CC`.
    pub closed spec fn bindings(&self) -> Seq<i32> {
        self.cc_bindings@
    }

    /// Whether a binding changed since the mapping was last brought up to date.
    pub closed spec fn bindings_changed(&self) -> bool {
        self.bindings_dirty
    }

    /// The controller-to-control mapping shown to the user.
    pub closed spec fn mapping_view(&self) -> Map<u8, u8> {
        self.mappings@
    }

    /// The mapping kept for rolling back.
    pub closed spec fn saved_view(&self) -> Map<u8, u8> {
        self.saved_mappings@
    }

    /// Whether incoming controller messages are taken into account.
    pub closed spec fn enabled(&self) -> bool {
        self.midi_enabled
    }

    /// The latest raw value received on each controller.
    pub closed spec fn values(&self) -> Seq<u32> {
        self.cc_values@
    }

    /// Whether each controller moved since its value was last handed on.
    pub closed spec fn moved(&self) -> Seq<bool> {
        self.cc_dirty@
    }

    /// The invariant: one entry per controller, valid bindings and valid mappings.
    pub closed spec fn wf(&self) -> bool {
        &&& valid_bindings(self.cc_bindings@)
        &&& self.cc_values@.len() == CC_COUNT
        &&& self.cc_dirty@.len() == CC_COUNT
        &&& valid_mapping(self.mappings@)
        &&& valid_mapping(self.saved_mappings@)
    }

    pub proof fn lemma_wf(&self)
        requires
            self.wf(),
        ensures
            valid_bindings(self.bindings()),
            self.values().len() == CC_COUNT,
            self.moved().len() == CC_COUNT,
            valid_mapping(self.mapping_view()),
            valid_mapping(self.saved_view()),
    {
    }

    pub fn new() -> (s: Self)
        ensures
            s.wf(),
            s.target() == UNMAPPED_CC,
            s.bindings() == Seq::new(CC_COUNT as nat, |cc: int| UNMAPPED_CC),
            !s.bindings_changed(),
            s.mapping_view() == Map::<u8, u8>::empty(),
            s.saved_view() == Map::<u8, u8>::empty(),
            s.enabled(),
            s.values() == Seq::new(CC_COUNT as nat, |cc: int| 0u32),
            s.moved() == Seq::new(CC_COUNT as nat, |cc: int| false),
    {
        let mut cc_values: Vec<u32> = Vec::new();
        let mut cc_dirty: Vec<bool> = Vec::new();
        let mut cc_bindings: Vec<i32> = Vec::new();
        let mut i: usize = 0;
        while i < CC_COUNT
            invariant
                i <= CC_COUNT,
                cc_values@ == Seq::new(i as nat, |cc: int| 0u32),
                cc_dirty@ == Seq::new(i as nat, |cc: int| false),
                cc_bindings@ == Seq::new(i as nat, |cc: int| UNMAPPED_CC),
            decreases CC_COUNT - i,
        {
            cc_values.push(0);
            cc_dirty.push(false);
            cc_bindings.push(UNMAPPED_CC);
            i = i + 1;
            assert(cc_values@ =~= Seq::new(i as nat, |cc: int| 0u32));
            assert(cc_dirty@ =~= Seq::new(i as nat, |cc: int| false));
            assert(cc_bindings@ =~= Seq::new(i as nat, |cc: int| UNMAPPED_CC));
        }
        MidiLearnShared {
            learning_target: UNMAPPED_CC,
            mappings: HashMap::new(),
            saved_mappings: HashMap::new(),
            midi_enabled: true,
            cc_values,
            cc_dirty,
            cc_bindings,
            bindings_dirty: false,
        }
    }

    /// The control that controller `cc` drives; numbers past the last controller read
    /// the last one.
    pub fn binding_for_cc(&self, cc: usize) -> (id: Option<ControlId>)
        requires
            self.wf(),
        ensures
            id == binding_control(self.bindings()[cc_slot(cc as int)]),
    {
        let slot = if cc < CC_COUNT {
            cc
        } else {
            CC_COUNT - 1
        };
        let binding = self.cc_bindings[slot];
        if binding >= 0 {
            ControlId::from_index(binding as usize)
        } else {
            None
        }
    }

    /// Binds controller `cc` to `control`.
    pub fn learn_cc(&mut self, cc: u8, control: ControlId)
        requires
            old(self).wf(),
            cc < CC_COUNT,
        ensures
            final(self).wf(),
            final(self).bindings() == old(self).bindings().update(cc as int, control.spec_index() as i32),
            final(self).bindings_changed(),
            final(self).target() == old(self).target(),
            final(self).mapping_view() == old(self).mapping_view(),
            final(self).saved_view() == old(self).saved_view(),
            final(self).enabled() == old(self).enabled(),
            final(self).values() == old(self).values(),
            final(self).moved() == old(self).moved(),
    {
        let index = control.index();
        self.cc_bindings.set(cc as usize, index as i32);
        self.bindings_dirty = true;
    }

    /// Brings the mapping up to date with the bindings, if a binding changed since the
    /// last time.
    pub fn sync_mutex_from_atomic_if_needed(&mut self)
        requires
            old(self).wf(),
        ensures
            final(self).wf(),
            final(self).mapping_view() == if old(self).bindings_changed() {
                mapping_of(old(self).bindings())
            } else {
                old(self).mapping_view()
            },
            !final(self).bindings_changed(),
            final(self).bindings() == old(self).bindings(),
            final(self).target() == old(self).target(),
            final(self).saved_view() == old(self).saved_view(),
            final(self).enabled() == old(self).enabled(),
            final(self).values() == old(self).values(),
            final(self).moved() == old(self).moved(),
    {
        if !self.bindings_dirty {
            return;
        }
        let mut mappings: HashMap<u8, u8> = HashMap::new();
        let mut cc: usize = 0;
        while cc < CC_COUNT
            invariant
                cc <= CC_COUNT,
                valid_bindings(self.cc_bindings@),
                mappings@ == mapping_of(self.cc_bindings@.take(cc as int)),
            decreases CC_COUNT - cc,
        {
            let value = self.cc_bindings[cc];
            if value >= 0 {
                mappings.insert(cc as u8, value as u8);
            }
            assert(mappings@ =~= mapping_of(self.cc_bindings@.take(cc + 1)));
            cc = cc + 1;
        }
        assert(self.cc_bindings@.take(CC_COUNT as int) =~= self.cc_bindings@);
        proof {
            lemma_mapping_of_valid(self.cc_bindings@);
        }
        self.bindings_dirty = false;
        self.mappings = mappings;
    }

    /// Sets every binding from the mapping: mapped controllers to their control, all
    /// others unbound.
    pub fn sync_atomic_from_mutex(&mut self)
        requires
            old(self).wf(),
        ensures
            final(self).wf(),
            final(self).bindings() == bindings_of(old(self).mapping_view()),
            final(self).bindings_changed() == old(self).bindings_changed(),
            final(self).mapping_view() == old(self).mapping_view(),
            final(self).target() == old(self).target(),
            final(self).saved_view() == old(self).saved_view(),
            final(self).enabled() == old(self).enabled(),
            final(self).values() == old(self).values(),
            final(self).moved() == old(self).moved(),
    {
        let mut bindings: Vec<i32> = Vec::new();
        let mut cc: usize = 0;
        while cc < CC_COUNT
            invariant
                cc <= CC_COUNT,
                valid_mapping(self.mappings@),
                bindings@ == bindings_of(self.mappings@).take(cc as int),
            decreases CC_COUNT - cc,
        {
            let binding = match self.mappings.get(&(cc as u8)) {
                Some(index) => *index as i32,
                None => UNMAPPED_CC,
            };
            bindings.push(binding);
            assert(bindings@ =~= bindings_of(self.mappings@).take(cc + 1));
            cc = cc + 1;
        }
        assert(bindings@ =~= bindings_of(self.mappings@));
        proof {
            lemma_bindings_of_valid(self.mappings@);
        }
        self.cc_bindings = bindings;
    }

    /// Brings the mapping up to date and keeps it for rolling back.
    pub fn save_current_mapping(&mut self)
        requires
            old(self).wf(),
        ensures
            final(self).wf(),
            final(self).mapping_view() == if old(self).bindings_changed() {
                mapping_of(old(self).bindings())
            } else {
                old(self).mapping_view()
            },
            final(self).saved_view() == final(self).mapping_view(),
            !final(self).bindings_changed(),
            final(self).bindings() == old(self).bindings(),
            final(self).target() == old(self).target(),
            final(self).enabled() == old(self).enabled(),
            final(self).values() == old(self).values(),
            final(self).moved() == old(self).moved(),
    {
        self.sync_mutex_from_atomic_if_needed();
        self.saved_mappings = self.mappings.clone();
    }

    /// The index of the control that controller `cc` is mapped to.
    pub fn mapping(&self, cc: u8) -> (index: Option<u8>)
        ensures
            index == (if self.mapping_view().contains_key(cc) {
                Some(self.mapping_view()[cc])
            } else {
                None
            }),
    {
        match self.mappings.get(&cc) {
            Some(index) => Some(*index),
            None => None,
        }
    }

    /// The index of the control that controller `cc` is mapped to in the mapping kept for
    /// rolling back.
    pub fn saved_mapping(&self, cc: u8) -> (index: Option<u8>)
        ensures
            index == (if self.saved_view().contains_key(cc) {
                Some(self.saved_view()[cc])
            } else {
                None
            }),
    {
        match self.saved_mappings.get(&cc) {
            Some(index) => Some(*index),
            None => None,
        }
    }

    /// The mapping as (controller, control index) pairs in controller order.
    pub fn sorted_mappings(&self) -> (pairs: Vec<(u8, u8)>)
        requires
            self.wf(),
        ensures
            pairs@ == sorted_pairs_upto(self.mapping_view(), CC_COUNT as int),
            forall|i: int, j: int| 0 <= i < j < pairs@.len() ==> pairs@[i].0 < pairs@[j].0,
            forall|i: int|
                0 <= i < pairs@.len() ==> #[trigger] self.mapping_view().contains_key(pairs@[i].0)
                    && self.mapping_view()[pairs@[i].0] == pairs@[i].1,
            forall|cc: u8|
                #[trigger] self.mapping_view().contains_key(cc) ==> exists|i: int|
                    0 <= i < pairs@.len() && #[trigger] pairs@[i] == (cc, self.mapping_view()[cc]),
    {
        let mut pairs: Vec<(u8, u8)> = Vec::new();
        let mut cc: usize = 0;
        while cc < CC_COUNT
            invariant
                cc <= CC_COUNT,
                valid_mapping(self.mappings@),
                pairs@ == sorted_pairs_upto(self.mappings@, cc as int),
                forall|i: int| 0 <= i < pairs@.len() ==> #[trigger] pairs@[i].0 < cc,
                forall|i: int, j: int| 0 <= i < j < pairs@.len() ==> pairs@[i].0 < pairs@[j].0,
                forall|i: int|
                    0 <= i < pairs@.len() ==> #[trigger] self.mappings@.contains_key(pairs@[i].0)
                        && self.mappings@[pairs@[i].0] == pairs@[i].1,
                forall|k: u8|
                    k < cc && #[trigger] self.mappings@.contains_key(k) ==> exists|i: int|
                        0 <= i < pairs@.len() && #[trigger] pairs@[i] == (k, self.mappings@[k]),
            decreases CC_COUNT - cc,
        {
            let ghost before = pairs@;
            match self.mappings.get(&(cc as u8)) {
                Some(index) => {
                    pairs.push((cc as u8, *index));
                    assert(pairs@[pairs@.len() - 1] == (cc as u8, self.mappings@[cc as u8]));
                },
                None => {},
            }
            assert forall|k: u8| k < cc + 1 && #[trigger] self.mappings@.contains_key(k) implies exists|
                i: int,
            | 0 <= i < pairs@.len() && #[trigger] pairs@[i] == (k, self.mappings@[k]) by {
                if k == cc as u8 {
                    assert(pairs@[pairs@.len() - 1] == (k, self.mappings@[k]));
                } else {
                    let i = choose|i: int|
                        0 <= i < before.len() && #[trigger] before[i] == (k, self.mappings@[k]);
                    assert(pairs@[i] == before[i]);
                }
            }
            cc = cc + 1;
        }
        pairs
    }

    /// Removes controller `cc` from the mapping and rebinds every controller from it.
    pub fn delete_mapping(&mut self, cc: u8)
        requires
            old(self).wf(),
        ensures
            final(self).wf(),
            final(self).mapping_view() == old(self).mapping_view().remove(cc),
            final(self).bindings() == bindings_of(final(self).mapping_view()),
            final(self).bindings_changed() == old(self).bindings_changed(),
            final(self).target() == old(self).target(),
            final(self).saved_view() == old(self).saved_view(),
            final(self).enabled() == old(self).enabled(),
            final(self).values() == old(self).values(),
            final(self).moved() == old(self).moved(),
    {
        self.mappings.remove(&cc);
        self.sync_atomic_from_mutex();
    }

    /// Empties the mapping and unbinds every controller.
    pub fn clear_all_mappings(&mut self)
        requires
            old(self).wf(),
        ensures
            final(self).wf(),
            final(self).mapping_view() == Map::<u8, u8>::empty(),
            final(self).bindings() == Seq::new(CC_COUNT as nat, |cc: int| UNMAPPED_CC),
            final(self).bindings_changed() == old(self).bindings_changed(),
            final(self).target() == old(self).target(),
            final(self).saved_view() == old(self).saved_view(),
            final(self).enabled() == old(self).enabled(),
            final(self).values() == old(self).values(),
            final(self).moved() == old(self).moved(),
    {
        self.mappings.clear();
        self.sync_atomic_from_mutex();
        assert(self.cc_bindings@ =~= Seq::new(CC_COUNT as nat, |cc: int| UNMAPPED_CC));
    }

    /// Brings back the mapping kept for rolling back and rebinds every controller from it.
    pub fn roll_back(&mut self)
        requires
            old(self).wf(),
        ensures
            final(self).wf(),
            final(self).mapping_view() == old(self).saved_view(),
            final(self).bindings() == bindings_of(old(self).saved_view()),
            final(self).bindings_changed() == old(self).bindings_changed(),
            final(self).target() == old(self).target(),
            final(self).saved_view() == old(self).saved_view(),
            final(self).enabled() == old(self).enabled(),
            final(self).values() == old(self).values(),
            final(self).moved() == old(self).moved(),
    {
        self.mappings = self.saved_mappings.clone();
        self.sync_atomic_from_mutex();
    }

    /// Whether incoming controller messages are taken into account.
    pub fn midi_enabled(&self) -> (on: bool)
        ensures
            on == self.enabled(),
    {
        self.midi_enabled
    }

    /// Turns the handling of incoming controller messages on or off.
    pub fn set_midi_enabled(&mut self, on: bool)
        requires
            old(self).wf(),
        ensures
            final(self).wf(),
            final(self).enabled() == on,
            final(self).target() == old(self).target(),
            final(self).bindings() == old(self).bindings(),
            final(self).bindings_changed() == old(self).bindings_changed(),
            final(self).mapping_view() == old(self).mapping_view(),
            final(self).saved_view() == old(self).saved_view(),
            final(self).values() == old(self).values(),
            final(self).moved() == old(self).moved(),
    {
        self.midi_enabled = on;
    }

    /// The current learning target.
    pub fn learning_target(&self) -> (t: i32)
        ensures
            t == self.target(),
    {
        self.learning_target
    }

    /// Sets the learning target.
    pub fn set_learning_target(&mut self, target: i32)
        requires
            old(self).wf(),
        ensures
            final(self).wf(),
            final(self).target() == target,
            final(self).enabled() == old(self).enabled(),
            final(self).bindings() == old(self).bindings(),
            final(self).bindings_changed() == old(self).bindings_changed(),
            final(self).mapping_view() == old(self).mapping_view(),
            final(self).saved_view() == old(self).saved_view(),
            final(self).values() == old(self).values(),
            final(self).moved() == old(self).moved(),
    {
        self.learning_target = target;
    }

    /// Whether MIDI learn is on: waiting for a control, or for a controller to move.
    pub fn learning_active(&self) -> (active: bool)
        ensures
            active == (self.target() >= 0 || self.target() == MIDI_WAITING_FOR_CONTROL),
    {
        self.learning_target >= 0 || self.learning_target == MIDI_WAITING_FOR_CONTROL
    }

    /// The MIDI learn button: turns learning off while it is on, and otherwise starts
    /// waiting for a control.
    pub fn toggle_learning(&mut self)
        requires
            old(self).wf(),
        ensures
            final(self).wf(),
            final(self).target() == if old(self).target() >= 0 || old(self).target()
                == MIDI_WAITING_FOR_CONTROL {
                UNMAPPED_CC
            } else {
                MIDI_WAITING_FOR_CONTROL
            },
            final(self).enabled() == old(self).enabled(),
            final(self).bindings() == old(self).bindings(),
            final(self).bindings_changed() == old(self).bindings_changed(),
            final(self).mapping_view() == old(self).mapping_view(),
            final(self).saved_view() == old(self).saved_view(),
            final(self).values() == old(self).values(),
            final(self).moved() == old(self).moved(),
    {
        if self.learning_active() {
            self.learning_target = UNMAPPED_CC;
        } else {
            self.learning_target = MIDI_WAITING_FOR_CONTROL;
        }
    }

    /// A control was picked while MIDI learn waits for one: it becomes the target.
    /// Returns whether the pick was taken for learning.
    pub fn pick_control(&mut self, id: ControlId) -> (taken: bool)
        requires
            old(self).wf(),
        ensures
            final(self).wf(),
            taken == (old(self).target() == MIDI_WAITING_FOR_CONTROL),
            !taken ==> *final(self) == *old(self),
            final(self).target() == if taken {
                id.spec_index() as i32
            } else {
                old(self).target()
            },
            final(self).enabled() == old(self).enabled(),
            final(self).bindings() == old(self).bindings(),
            final(self).bindings_changed() == old(self).bindings_changed(),
            final(self).mapping_view() == old(self).mapping_view(),
            final(self).saved_view() == old(self).saved_view(),
            final(self).values() == old(self).values(),
            final(self).moved() == old(self).moved(),
    {
        if self.learning_target == MIDI_WAITING_FOR_CONTROL {
            self.learning_target = id.index() as i32;
            true
        } else {
            false
        }
    }

    /// A control was clicked while MIDI learn is on (waiting for a control, or already
    /// holding one): it becomes the target. Returns whether the click was taken.
    pub fn select_control(&mut self, id: ControlId) -> (taken: bool)
        requires
            old(self).wf(),
        ensures
            final(self).wf(),
            taken == (old(self).target() >= 0 || old(self).target() == MIDI_WAITING_FOR_CONTROL),
            final(self).target() == if taken {
                id.spec_index() as i32
            } else {
                old(self).target()
            },
            final(self).enabled() == old(self).enabled(),
            final(self).bindings() == old(self).bindings(),
            final(self).bindings_changed() == old(self).bindings_changed(),
            final(self).mapping_view() == old(self).mapping_view(),
            final(self).saved_view() == old(self).saved_view(),
            final(self).values() == old(self).values(),
            final(self).moved() == old(self).moved(),
    {
        if self.learning_active() {
            self.learning_target = id.index() as i32;
            true
        } else {
            false
        }
    }

    /// The caption of the MIDI learn button.
    pub fn learn_label(&self) -> (label: &'static str)
        ensures
            label == if self.target() == MIDI_WAITING_FOR_CONTROL {
                "Pick Control"
            } else if self.target() >= 0 {
                "Move MIDI"
            } else {
                "MIDI Learn"
            },
    {
        if self.learning_target == MIDI_WAITING_FOR_CONTROL {
            "Pick Control"
        } else if self.learning_target >= 0 {
            "Move MIDI"
        } else {
            "MIDI Learn"
        }
    }

    /// An incoming controller message with its raw value. Unless MIDI is off, the value
    /// is stored on the controller's slot and marked as moved; if MIDI learn holds a
    /// target, learning ends and the controller is bound to the target's control.
    pub fn handle_cc(&mut self, cc: u8, value_bits: u32)
        requires
            old(self).wf(),
            old(self).enabled() && old(self).target() >= 0 && ControlId::spec_from_index(
                old(self).target() as int,
            ) is Some ==> cc < CC_COUNT,
        ensures
            final(self).wf(),
            !old(self).enabled() ==> *final(self) == *old(self),
            old(self).enabled() ==> {
                &&& final(self).values() == old(self).values().update(cc_slot(cc as int), value_bits)
                &&& final(self).moved() == old(self).moved().update(cc_slot(cc as int), true)
                &&& final(self).target() == if old(self).target() >= 0 {
                    UNMAPPED_CC
                } else {
                    old(self).target()
                }
                &&& final(self).bindings() == match binding_control(old(self).target()) {
                    Some(control) => old(self).bindings().update(cc as int, control.spec_index() as i32),
                    None => old(self).bindings(),
                }
                &&& final(self).bindings_changed() == (old(self).bindings_changed()
                    || binding_control(old(self).target()) is Some)
                &&& final(self).enabled()
                &&& final(self).mapping_view() == old(self).mapping_view()
                &&& final(self).saved_view() == old(self).saved_view()
            },
    {
        if !self.midi_enabled {
            return;
        }
        let slot: usize = if (cc as usize) < CC_COUNT {
            cc as usize
        } else {
            CC_COUNT - 1
        };
        self.cc_values.set(slot, value_bits);
        self.cc_dirty.set(slot, true);
        let target = self.learning_target;
        if target >= 0 {
            self.learning_target = UNMAPPED_CC;
            if let Some(control) = ControlId::from_index(target as usize) {
                self.learn_cc(cc, control);
            }
        }
    }

    /// The control changes that moved controllers ask for: unless MIDI is off, every
    /// controller that moved is marked as handled, and each one that is bound gives its
    /// control and raw value, in controller order.
    pub fn take_pending_changes(&mut self) -> (changes: Vec<(ControlId, u32)>)
        requires
            old(self).wf(),
        ensures
            final(self).wf(),
            !old(self).enabled() ==> *final(self) == *old(self) && changes@.len() == 0,
            old(self).enabled() ==> {
                &&& changes@ == pending_upto(
                    old(self).bindings(),
                    old(self).moved(),
                    old(self).values(),
                    CC_COUNT as int,
                )
                &&& final(self).moved() == Seq::new(CC_COUNT as nat, |cc: int| false)
                &&& final(self).values() == old(self).values()
                &&& final(self).target() == old(self).target()
                &&& final(self).bindings() == old(self).bindings()
                &&& final(self).bindings_changed() == old(self).bindings_changed()
                &&& final(self).enabled()
                &&& final(self).mapping_view() == old(self).mapping_view()
                &&& final(self).saved_view() == old(self).saved_view()
            },
    {
        let mut changes: Vec<(ControlId, u32)> = Vec::new();
        if !self.midi_enabled {
            return changes;
        }
        let ghost old_moved = self.cc_dirty@;
        let mut cc: usize = 0;
        while cc < CC_COUNT
            invariant
                cc <= CC_COUNT,
                self.wf(),
                self.cc_dirty@.len() == CC_COUNT,
                old_moved.len() == CC_COUNT,
                old_moved == old(self).cc_dirty@,
                self.cc_bindings@ == old(self).cc_bindings@,
                self.cc_values@ == old(self).cc_values@,
                self.learning_target == old(self).learning_target,
                self.bindings_dirty == old(self).bindings_dirty,
                self.midi_enabled == old(self).midi_enabled,
                self.mappings@ == old(self).mappings@,
                self.saved_mappings@ == old(self).saved_mappings@,
                forall|k: int| 0 <= k < cc ==> !#[trigger] self.cc_dirty@[k],
                forall|k: int| cc <= k < CC_COUNT ==> #[trigger] self.cc_dirty@[k] == old_moved[k],
                changes@ == pending_upto(self.cc_bindings@, old_moved, self.cc_values@, cc as int),
            decreases CC_COUNT - cc,
        {
            let was_moved = self.cc_dirty[cc];
            self.cc_dirty.set(cc, false);
            if was_moved {
                match self.binding_for_cc(cc) {
                    Some(id) => {
                        changes.push((id, self.cc_values[cc]));
                    },
                    None => {},
                }
            }
            cc = cc + 1;
        }
        assert(self.cc_dirty@ =~= Seq::new(CC_COUNT as nat, |cc: int| false));
        changes
    }
}

} // verus!
