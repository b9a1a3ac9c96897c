use vstd::prelude::*;

use crate::model::{ControlId, ValueKind};
use crate::text::{
    chars_of, contains_chars, contains_run, eq_ignore_ascii_case, lower, lowered, same_chars,
    string_of, trim, trimmed,
};

verus! {

/// Whether `c` may be part of the number typed into a value field.
pub open spec fn is_numeric_char(c: char) -> bool {
    ('0' <= c <= '9') || c == '-' || c == '+' || c == '.'
}

/// The run of numeric characters at the very start of `s`.
pub open spec fn leading_number(s: Seq<char>) -> Seq<char>
    decreases s.len(),
{
    if s.len() > 0 && is_numeric_char(s[0]) {
        seq![s[0]] + leading_number(s.drop_first())
    } else {
        Seq::empty()
    }
}

/// The first run of numeric characters in `s`, empty where there is none: the text a
/// typed value is read from.
pub open spec fn numeric_prefix(s: Seq<char>) -> Seq<char>
    decreases s.len(),
{
    if s.len() == 0 {
        Seq::empty()
    } else if is_numeric_char(s[0]) {
        leading_number(s)
    } else {
        numeric_prefix(s.drop_first())
    }
}

/// The switch state that a (trimmed, lower-case) word names, if it names one.
pub open spec fn boolean_word(w: Seq<char>) -> Option<bool> {
    if w == "on"@ || w == "true"@ || w == "1"@ {
        Some(true)
    } else if w == "off"@ || w == "false"@ || w == "0"@ {
        Some(false)
    } else {
        None
    }
}

/// Whether `i` is the first label equal to `text` when ASCII case is ignored.
pub open spec fn is_first_label_match(labels: Seq<&str>, text: Seq<char>, i: int) -> bool {
    &&& 0 <= i < labels.len()
    &&& lower(labels[i]@) == lower(text)
    &&& forall|j: int| 0 <= j < i ==> lower(#[trigger] labels[j]@) != lower(text)
}

/// Whether no label equals `text` when ASCII case is ignored.
pub open spec fn no_label_match(labels: Seq<&str>, text: Seq<char>) -> bool {
    forall|j: int| 0 <= j < labels.len() ==> lower(#[trigger] labels[j]@) != lower(text)
}

/// How the number read from a typed value is turned into the control's value.
#[derive(Clone, Copy, Debug, PartialEq, Eq, Structural)]
pub enum NumberForm {
    /// The number is the value.
    Plain,
    /// A number above one is a percentage; one or less is the fraction itself.
    Percent,
    /// The number is in hertz.
    Hertz,
    /// The number is in kilohertz.
    KiloHertz,
    /// The number is a percentage to the left.
    PanLeft,
    /// The number is a percentage to the right.
    PanRight,
    /// A number beyond one is a signed percentage; otherwise it is the position itself.
    PanSigned,
}

/// What a text typed into a value field says, before any number in it is read.
#[derive(Debug)]
pub enum ValueInput {
    /// A switch word: on or off.
    Flag(bool),
    /// The position of a choice label.
    Label(usize),
    /// The text of a number, and how it reads.
    Number(String, NumberForm),
    /// Nothing the control accepts.
    Unrecognised,
}

/// The form in which a number typed for a control of kind `kind` reads, given the
/// lower-case text around it.
pub open spec fn number_form(kind: ValueKind, low: Seq<char>) -> NumberForm {
    match kind {
        ValueKind::Percent => NumberForm::Percent,
        ValueKind::Hertz => if contains_run(low, "khz"@) {
            NumberForm::KiloHertz
        } else {
            NumberForm::Hertz
        },
        ValueKind::Pan => if (low.len() > 0 && low[0] == 'l') || contains_run(low, "left"@) {
            NumberForm::PanLeft
        } else if (low.len() > 0 && low[0] == 'r') || contains_run(low, "right"@) {
            NumberForm::PanRight
        } else {
            NumberForm::PanSigned
        },
        _ => NumberForm::Plain,
    }
}

/// Whether `r` is what the text `input` says for a control of kind `kind`.
pub open spec fn classifies(kind: ValueKind, input: Seq<char>, r: ValueInput) -> bool {
    let trimmed = trim(input);
    let low = lower(trimmed);
    match kind {
        ValueKind::Boolean => r == match boolean_word(low) {
            Some(b) => ValueInput::Flag(b),
            None => ValueInput::Unrecognised,
        },
        ValueKind::Choice(labels) => {
            ||| (r matches ValueInput::Label(i) && is_first_label_match(labels@, trimmed, i as int))
            ||| no_label_match(labels@, trimmed) && (r matches ValueInput::Number(t, f) && t@
                == numeric_prefix(low) && f == NumberForm::Plain)
        },
        _ => r matches ValueInput::Number(t, f) && t@ == numeric_prefix(low) && f == number_form(
            kind,
            low,
        ),
    }
}

proof fn lemma_leading_number_skip(s: Seq<char>, i: int)
    requires
        0 <= i < s.len(),
        is_numeric_char(s[i]),
    ensures
        leading_number(s.skip(i)) == seq![s[i]] + leading_number(s.skip(i + 1)),
{
    assert(s.skip(i).drop_first() =~= s.skip(i + 1));
}

/// A typed value for a pan control that starts with "l" or mentions "left" reads as a
/// percentage to the left; otherwise one that starts with "r" or mentions "right" reads
/// as a percentage to the right; anything else reads as a signed percentage (or as the
/// position itself). For a frequency control, a value mentioning "khz" is in kilohertz
/// and any other in hertz; a percent control reads percentages, and every other numeric
/// control reads the number as it stands.
pub proof fn lemma_number_forms(low: Seq<char>, prefix: Seq<char>, suffix: Seq<char>)
    ensures
        number_form(ValueKind::Pan, prefix + "left"@ + suffix) == NumberForm::PanLeft,
        low.len() > 0 && low[0] == 'l' ==> number_form(ValueKind::Pan, low) == NumberForm::PanLeft,
        !contains_run(low, "left"@) && !(low.len() > 0 && low[0] == 'l') ==> {
            &&& (low.len() > 0 && low[0] == 'r') || contains_run(low, "right"@) ==> number_form(
                ValueKind::Pan,
                low,
            ) == NumberForm::PanRight
            &&& !contains_run(low, "right"@) && !(low.len() > 0 && low[0] == 'r') ==> number_form(
                ValueKind::Pan,
                low,
            ) == NumberForm::PanSigned
        },
        number_form(ValueKind::Hertz, prefix + "khz"@ + suffix) == NumberForm::KiloHertz,
        !contains_run(low, "khz"@) ==> number_form(ValueKind::Hertz, low) == NumberForm::Hertz,
        number_form(ValueKind::Percent, low) == NumberForm::Percent,
        number_form(ValueKind::Decibel, low) == NumberForm::Plain,
        number_form(ValueKind::DbPerOct, low) == NumberForm::Plain,
        number_form(ValueKind::Milliseconds, low) == NumberForm::Plain,
        number_form(ValueKind::Ratio, low) == NumberForm::Plain,
{
    lemma_run_inside(prefix, "left"@, suffix);
    lemma_run_inside(prefix, "khz"@, suffix);
}

/// A text made of `prefix`, `needle` and `suffix` contains `needle` as a run.
pub proof fn lemma_run_inside(prefix: Seq<char>, needle: Seq<char>, suffix: Seq<char>)
    ensures
        contains_run(prefix + needle + suffix, needle),
{
    let s = prefix + needle + suffix;
    let i = prefix.len() as int;
    assert(s.subrange(i, i + needle.len()) =~= needle);
}

/// Whatever the text typed into a pan control's value field says, once it mentions
/// "left" (in any case, around any whitespace) it is read as a number to the left.
pub proof fn lemma_left_pan_reads_left(id: ControlId, input: Seq<char>, r: ValueInput)
    requires
        id.spec_kind() == ValueKind::Pan,
        classifies(id.spec_kind(), input, r),
        contains_run(lower(trim(input)), "left"@),
    ensures
        r matches ValueInput::Number(t, f) && f == NumberForm::PanLeft && t@ == numeric_prefix(
            lower(trim(input)),
        ),
{
}

proof fn lemma_leading_number_run(s: Seq<char>)
    ensures
        leading_number(s).len() <= s.len(),
        leading_number(s) == s.subrange(0, leading_number(s).len() as int),
        forall|k: int| 0 <= k < leading_number(s).len() ==> is_numeric_char(#[trigger] s[k]),
        leading_number(s).len() == s.len() || !is_numeric_char(s[leading_number(s).len() as int]),
    decreases s.len(),
{
    if s.len() > 0 && is_numeric_char(s[0]) {
        let t = s.drop_first();
        lemma_leading_number_run(t);
        let n = leading_number(t).len() as int;
        assert(leading_number(s) =~= s.subrange(0, n + 1));
        assert forall|k: int| 0 <= k < n + 1 implies is_numeric_char(#[trigger] s[k]) by {
            if k > 0 {
                assert(s[k] == t[k - 1]);
            }
        }
        if n + 1 < s.len() {
            assert(s[n + 1] == t[n]);
        }
    } else {
        assert(leading_number(s) =~= s.subrange(0, 0));
    }
}

/// The number read from a typed text is its first run of numeric characters: it starts
/// at the first numeric character `i`, holds only numeric characters, and runs on until
/// the end of the text or the next character that is not numeric.
pub proof fn lemma_numeric_prefix_first_run(s: Seq<char>, i: int)
    requires
        0 <= i < s.len(),
        is_numeric_char(s[i]),
        forall|k: int| 0 <= k < i ==> !is_numeric_char(#[trigger] s[k]),
    ensures
        ({
            let n = numeric_prefix(s);
            let j = i + n.len();
            &&& 1 <= n.len()
            &&& j <= s.len()
            &&& n == s.subrange(i, j)
            &&& forall|k: int| i <= k < j ==> is_numeric_char(#[trigger] s[k])
            &&& j == s.len() || !is_numeric_char(s[j])
        }),
    decreases i,
{
    if i == 0 {
        lemma_leading_number_run(s);
        assert(leading_number(s).len() >= 1);
    } else {
        assert(!is_numeric_char(s[0]));
        let t = s.drop_first();
        assert forall|k: int| 0 <= k < i - 1 implies !is_numeric_char(#[trigger] t[k]) by {
            assert(t[k] == s[k + 1]);
        }
        lemma_numeric_prefix_first_run(t, i - 1);
        let n = numeric_prefix(t);
        assert(numeric_prefix(s) == n);
        assert(n =~= s.subrange(i, i + n.len()));
        assert forall|k: int| i <= k < i + n.len() implies is_numeric_char(#[trigger] s[k]) by {
            assert(s[k] == t[k - 1]);
        }
        if i + n.len() < s.len() {
            assert(s[i + n.len()] == t[i - 1 + n.len()]);
        }
    }
}

/// A text with no numeric character holds no number.
pub proof fn lemma_numeric_prefix_none(s: Seq<char>)
    requires
        forall|k: int| 0 <= k < s.len() ==> !is_numeric_char(#[trigger] s[k]),
    ensures
        numeric_prefix(s).len() == 0,
    decreases s.len(),
{
    if s.len() > 0 {
        let t = s.drop_first();
        assert(!is_numeric_char(s[0]));
        assert forall|k: int| 0 <= k < t.len() implies !is_numeric_char(#[trigger] t[k]) by {
            assert(t[k] == s[k + 1]);
        }
        lemma_numeric_prefix_none(t);
    }
}

/// The switch words: "on", "true" and "1" turn a switch on, "off", "false" and "0" turn it
/// off, and no other word reads as a switch state.
pub proof fn lemma_switch_words(w: Seq<char>)
    ensures
        boolean_word("on"@) == Some(true),
        boolean_word("true"@) == Some(true),
        boolean_word("1"@) == Some(true),
        boolean_word("off"@) == Some(false),
        boolean_word("false"@) == Some(false),
        boolean_word("0"@) == Some(false),
        boolean_word(w) is Some ==> w == "on"@ || w == "true"@ || w == "1"@ || w == "off"@ || w
            == "false"@ || w == "0"@,
{
    reveal_strlit("on");
    reveal_strlit("true");
    reveal_strlit("1");
    reveal_strlit("off");
    reveal_strlit("false");
    reveal_strlit("0");
    assert("0"@[0] != "1"@[0]);
    assert("off"@.len() != "on"@.len() && "off"@.len() != "true"@.len() && "off"@.len()
        != "1"@.len());
    assert("false"@.len() != "on"@.len() && "false"@.len() != "true"@.len() && "false"@.len()
        != "1"@.len());
    assert("0"@ != "on"@ && "0"@ != "true"@ && "0"@ != "1"@);
}

/// The first run of numeric characters in `s`.
pub fn numeric_prefix_chars(s: &Vec<char>) -> (number: Vec<char>)
    ensures
        number@ == numeric_prefix(s@),
{
    let mut number: Vec<char> = Vec::new();
    let mut i: usize = 0;
    assert(s@.skip(0) =~= s@);
    while i < s.len()
        invariant
            i <= s@.len(),
            number@.len() == 0 ==> numeric_prefix(s@) == numeric_prefix(s@.skip(i as int)),
            number@.len() > 0 ==> numeric_prefix(s@) == number@ + leading_number(
                s@.skip(i as int),
            ),
        decreases s@.len() - i,
    {
        let ch = s[i];
        if ('0' <= ch && ch <= '9') || ch == '-' || ch == '+' || ch == '.' {
            proof {
                lemma_leading_number_skip(s@, i as int);
                if number@.len() == 0 {
                    assert(s@.skip(i as int)[0] == ch);
                }
            }
            let ghost before = number@;
            number.push(ch);
            assert(number@ + leading_number(s@.skip(i + 1)) =~= before + (seq![ch]
                + leading_number(s@.skip(i + 1))));
        } else if number.len() > 0 {
            assert(leading_number(s@.skip(i as int)) =~= Seq::<char>::empty());
            assert(number@ + Seq::<char>::empty() =~= number@);
            return number;
        } else {
            assert(s@.skip(i as int).drop_first() =~= s@.skip(i + 1));
        }
        i = i + 1;
    }
    assert(s@.skip(i as int) =~= Seq::<char>::empty());
    if number.len() > 0 {
        assert(number@ + Seq::<char>::empty() =~= number@);
    }
    number
}

/// The switch state that the word names, if it names one.
fn boolean_word_of(w: &Vec<char>) -> (b: Option<bool>)
    ensures
        b == boolean_word(w@),
{
    if same_chars(w, &chars_of("on")) || same_chars(w, &chars_of("true")) || same_chars(
        w,
        &chars_of("1"),
    ) {
        Some(true)
    } else if same_chars(w, &chars_of("off")) || same_chars(w, &chars_of("false")) || same_chars(
        w,
        &chars_of("0"),
    ) {
        Some(false)
    } else {
        None
    }
}

/// The position of the first label equal to `text` when ASCII case is ignored.
fn label_position(labels: &'static [&'static str], text: &Vec<char>) -> (found: Option<usize>)
    ensures
        match found {
            Some(i) => is_first_label_match(labels@, text@, i as int),
            None => no_label_match(labels@, text@),
        },
{
    let mut i: usize = 0;
    while i < labels.len()
        invariant
            i <= labels@.len(),
            forall|j: int| 0 <= j < i ==> lower(#[trigger] labels@[j]@) != lower(text@),
        decreases labels@.len() - i,
    {
        let label = chars_of(labels[i]);
        if eq_ignore_ascii_case(&label, text) {
            return Some(i);
        }
        i = i + 1;
    }
    None
}

/// The form in which a number typed for a control of kind `kind` reads.
fn number_form_of(kind: ValueKind, low: &Vec<char>) -> (f: NumberForm)
    ensures
        f == number_form(kind, low@),
{
    match kind {
        ValueKind::Percent => NumberForm::Percent,
        ValueKind::Hertz => {
            if contains_chars(low, &chars_of("khz")) {
                NumberForm::KiloHertz
            } else {
                NumberForm::Hertz
            }
        },
        ValueKind::Pan => {
            if (low.len() > 0 && low[0] == 'l') || contains_chars(low, &chars_of("left")) {
                NumberForm::PanLeft
            } else if (low.len() > 0 && low[0] == 'r') || contains_chars(low, &chars_of("right")) {
                NumberForm::PanRight
            } else {
                NumberForm::PanSigned
            }
        },
        _ => NumberForm::Plain,
    }
}

/// What the text typed into the value field of control `id` says: a switch word, a choice
/// label, or the text of a number with the form in which it reads.
pub fn classify_input(id: ControlId, input: &str) -> (r: ValueInput)
    ensures
        classifies(id.spec_kind(), input@, r),
{
    let kind = id.kind();
    let raw = chars_of(input);
    let trimmed_text = trimmed(&raw);
    let low = lowered(&trimmed_text);
    match kind {
        ValueKind::Boolean => match boolean_word_of(&low) {
            Some(b) => ValueInput::Flag(b),
            None => ValueInput::Unrecognised,
        },
        ValueKind::Choice(labels) => match label_position(labels, &trimmed_text) {
            Some(i) => ValueInput::Label(i),
            None => ValueInput::Number(
                string_of(&numeric_prefix_chars(&low)),
                NumberForm::Plain,
            ),
        },
        _ => ValueInput::Number(string_of(&numeric_prefix_chars(&low)), number_form_of(kind, &low)),
    }
}

} // verus!
