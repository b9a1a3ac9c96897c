use vstd::prelude::*;

use crate::text::{
    ascii_lower, chars_of, digit_char, decimal, eq_ignore_ascii_case, lower, push_decimal, push_str, trim, trimmed,
};

verus! {

/// The names of the presets, in order.
pub open spec fn preset_names<S>(presets: Seq<(String, S)>) -> Seq<Seq<char>> {
    presets.map_values(|p: (String, S)| p.0@)
}

/// Whether some name equals `name` when ASCII case is ignored.
pub open spec fn name_taken(names: Seq<Seq<char>>, name: Seq<char>) -> bool {
    exists|i: int| 0 <= i < names.len() && lower(#[trigger] names[i]) == lower(name)
}

/// The name a preset gets before any clash is resolved: the typed name without
/// surrounding whitespace, or "Preset" and the next preset number when nothing was typed.
pub open spec fn base_name(input: Seq<char>, count: nat) -> Seq<char> {
    if trim(input).len() == 0 {
        "Preset "@ + decimal(count + 1)
    } else {
        trim(input)
    }
}

/// The base name with the number `k` appended after a space.
pub open spec fn suffixed(base: Seq<char>, k: nat) -> Seq<char> {
    base + " "@ + decimal(k)
}

/// Whether `k` is the smallest number from 2 on whose suffixed name is free.
pub open spec fn is_first_free_suffix(names: Seq<Seq<char>>, base: Seq<char>, k: nat) -> bool {
    &&& 2 <= k < usize::MAX
    &&& !name_taken(names, suffixed(base, k))
    &&& forall|j: nat| 2 <= j < k ==> name_taken(names, #[trigger] suffixed(base, j))
}

/// Whether `name` is the name a new preset typed as `input` gets next to the presets
/// named `names`: the base name if it is free, otherwise the base name with the smallest
/// free number from 2 on (the base name itself should every number be taken).
pub open spec fn is_chosen_name(names: Seq<Seq<char>>, input: Seq<char>, name: Seq<char>) -> bool {
    let base = base_name(input, names.len());
    if !name_taken(names, base) {
        name == base
    } else {
        ||| exists|k: nat| is_first_free_suffix(names, base, k) && name == #[trigger] suffixed(base, k)
        ||| (forall|j: nat| 2 <= j < usize::MAX ==> name_taken(names, #[trigger] suffixed(base, j)))
            && name == base
    }
}

proof fn lemma_decimal_nonempty(n: nat)
    ensures
        decimal(n).len() >= 1,
    decreases n,
{
    if n >= 10 {
        lemma_decimal_nonempty(n / 10);
    }
}

proof fn lemma_decimal_injective(a: nat, b: nat)
    requires
        decimal(a) == decimal(b),
    ensures
        a == b,
    decreases a + b,
{
    if a < 10 && b < 10 {
        assert(decimal(a)[0] == digit_char(a));
        assert(decimal(b)[0] == digit_char(b));
        assert(digit_char(a) as u32 == 48 + a);
        assert(digit_char(b) as u32 == 48 + b);
    } else if a < 10 {
        lemma_decimal_nonempty(b / 10);
        assert(decimal(b).len() >= 2);
    } else if b < 10 {
        lemma_decimal_nonempty(a / 10);
        assert(decimal(a).len() >= 2);
    } else {
        let da = decimal(a);
        let db = decimal(b);
        assert(da.last() == digit_char(a % 10));
        assert(db.last() == digit_char(b % 10));
        assert(digit_char(a % 10) as u32 == 48 + a % 10);
        assert(digit_char(b % 10) as u32 == 48 + b % 10);
        assert(da.drop_last() =~= decimal(a / 10));
        assert(db.drop_last() =~= decimal(b / 10));
        lemma_decimal_injective(a / 10, b / 10);
    }
}

proof fn lemma_lower_decimal(n: nat)
    ensures
        lower(decimal(n)) == decimal(n),
    decreases n,
{
    if n >= 10 {
        lemma_lower_decimal(n / 10);
        assert(digit_char(n % 10) as u32 == 48 + n % 10);
        assert(lower(decimal(n)) =~= lower(decimal(n / 10)).push(ascii_lower(digit_char(n % 10))));
    } else {
        assert(digit_char(n) as u32 == 48 + n);
    }
    assert(lower(decimal(n)) =~= decimal(n));
}

proof fn lemma_lower_suffixed(base: Seq<char>, k: nat)
    ensures
        lower(suffixed(base, k)) == lower(base) + " "@.map_values(|c: char| ascii_lower(c)) + decimal(k),
{
    lemma_lower_decimal(k);
    assert(lower(suffixed(base, k)) =~= lower(base) + " "@.map_values(|c: char| ascii_lower(c))
        + lower(decimal(k)));
}

/// Distinct numbers give names that differ even when ASCII case is ignored.
proof fn lemma_suffixed_distinct(base: Seq<char>, j: nat, k: nat)
    requires
        lower(suffixed(base, j)) == lower(suffixed(base, k)),
    ensures
        j == k,
{
    lemma_lower_suffixed(base, j);
    lemma_lower_suffixed(base, k);
    let prefix = lower(base) + " "@.map_values(|c: char| ascii_lower(c));
    let lj = lower(suffixed(base, j));
    assert(lj.subrange(prefix.len() as int, lj.len() as int) =~= decimal(j));
    let lk = lower(suffixed(base, k));
    assert(lk.subrange(prefix.len() as int, lk.len() as int) =~= decimal(k));
    lemma_decimal_injective(j, k);
}

/// Among `names.len() + 1` numbered names, one is always free.
proof fn lemma_some_suffix_free(names: Seq<Seq<char>>, base: Seq<char>)
    ensures
        exists|j: nat| 2 <= j < names.len() + 3 && !name_taken(names, #[trigger] suffixed(base, j)),
{
    let n = names.len() as int;
    if forall|j: nat| 2 <= j < n + 3 ==> name_taken(names, #[trigger] suffixed(base, j)) {
        let owner = |j: int|
            choose|i: int|
                0 <= i < names.len() && lower(#[trigger] names[i]) == lower(suffixed(base, j as nat));
        let numbers = vstd::set_lib::set_int_range(2, n + 3);
        let owners = numbers.map(owner);
        vstd::set_lib::lemma_int_range(2, n + 3);
        vstd::set_lib::lemma_int_range(0, n);
        assert forall|j: int| numbers.contains(j) implies 0 <= #[trigger] owner(j) < n && lower(
            names[owner(j)],
        ) == lower(suffixed(base, j as nat)) by {
            assert(name_taken(names, suffixed(base, j as nat)));
        }
        assert(vstd::relations::injective_on(owner, numbers)) by {
            assert forall|a: int, b: int|
                numbers.contains(a) && numbers.contains(b) && #[trigger] owner(a) == #[trigger] owner(
                    b,
                ) implies a == b by {
                lemma_suffixed_distinct(base, a as nat, b as nat);
            }
        }
        vstd::set_lib::lemma_map_size(numbers, owners, owner);
        assert(owners.subset_of(vstd::set_lib::set_int_range(0, n)));
        vstd::set_lib::lemma_len_subset(owners, vstd::set_lib::set_int_range(0, n));
        assert(false);
    }
}

/// A new preset never takes a name that an existing preset already has, ignoring ASCII
/// case.
pub proof fn lemma_chosen_name_is_free(names: Seq<Seq<char>>, input: Seq<char>, name: Seq<char>)
    requires
        is_chosen_name(names, input, name),
        names.len() + 3 < usize::MAX,
    ensures
        !name_taken(names, name),
{
    let base = base_name(input, names.len());
    if name_taken(names, base) {
        lemma_some_suffix_free(names, base);
        let j = choose|j: nat| 2 <= j < names.len() + 3 && !name_taken(names, #[trigger] suffixed(base, j));
        if name == base {
            assert(!(forall|k: nat| 2 <= k < usize::MAX ==> name_taken(names, #[trigger] suffixed(base, k))));
        }
    }
}

/// Whether a preset already has the name `name`, ignoring ASCII case.
pub fn preset_name_taken<S>(presets: &Vec<(String, S)>, name: &Vec<char>) -> (taken: bool)
    ensures
        taken == name_taken(preset_names(presets@), name@),
{
    let mut i: usize = 0;
    while i < presets.len()
        invariant
            i <= presets@.len(),
            forall|j: int|
                0 <= j < i ==> lower(#[trigger] preset_names(presets@)[j]) != lower(name@),
        decreases presets@.len() - i,
    {
        let existing = chars_of(presets[i].0.as_str());
        if eq_ignore_ascii_case(&existing, name) {
            assert(lower(preset_names(presets@)[i as int]) == lower(name@));
            return true;
        }
        i = i + 1;
    }
    false
}

/// The name a new preset typed as `input` gets: the typed name, trimmed, or a numbered
/// default when nothing was typed, made unique among the presets by a number suffix.
pub fn default_preset_name<S>(input: &str, presets: &Vec<(String, S)>) -> (name: String)
    requires
        presets@.len() < usize::MAX,
    ensures
        is_chosen_name(preset_names(presets@), input@, name@),
{
    let ghost names = preset_names(presets@);
    let typed = trimmed(&chars_of(input));
    let mut base = String::new();
    if typed.len() == 0 {
        push_str(&mut base, "Preset ");
        push_decimal(&mut base, presets.len() + 1);
    } else {
        let mut k: usize = 0;
        while k < typed.len()
            invariant
                k <= typed@.len(),
                base@ == typed@.take(k as int),
            decreases typed@.len() - k,
        {
            crate::text::push_char(&mut base, typed[k]);
            assert(typed@.take(k + 1) =~= typed@.take(k as int).push(typed@[k as int]));
            k = k + 1;
        }
        assert(typed@.take(typed@.len() as int) =~= typed@);
    }
    assert(base@ == base_name(input@, names.len()));
    if !preset_name_taken(presets, &chars_of(base.as_str())) {
        return base;
    }
    let mut suffix: usize = 2;
    while suffix < usize::MAX
        invariant
            2 <= suffix,
            names == preset_names(presets@),
            base@ == base_name(input@, names.len()),
            name_taken(names, base@),
            forall|j: nat| 2 <= j < suffix ==> name_taken(names, #[trigger] suffixed(base@, j)),
        decreases usize::MAX - suffix,
    {
        let mut candidate = base.clone();
        push_str(&mut candidate, " ");
        push_decimal(&mut candidate, suffix);
        assert(candidate@ == suffixed(base@, suffix as nat));
        if !preset_name_taken(presets, &chars_of(candidate.as_str())) {
            assert(is_first_free_suffix(names, base@, suffix as nat));
            return candidate;
        }
        suffix = suffix + 1;
    }
    base
}

} // verus!
