use vstd::prelude::*;

verus! {

broadcast use vstd::string::axiom_spec_iter;

/// Whether `c` has the Unicode `White_Space` property, as `char::is_whitespace` decides.
pub open spec fn is_whitespace(c: char) -> bool {
    let v = c as u32;
    ||| 0x09 <= v <= 0x0d
    ||| v == 0x20
    ||| v == 0x85
    ||| v == 0xa0
    ||| v == 0x1680
    ||| 0x2000 <= v <= 0x200a
    ||| v == 0x2028
    ||| v == 0x2029
    ||| v == 0x202f
    ||| v == 0x205f
    ||| v == 0x3000
}

/// The text without its leading whitespace.
pub open spec fn trim_start(s: Seq<char>) -> Seq<char>
    decreases s.len(),
{
    if s.len() > 0 && is_whitespace(s[0]) {
        trim_start(s.drop_first())
    } else {
        s
    }
}

/// The text without its trailing whitespace.
pub open spec fn trim_end(s: Seq<char>) -> Seq<char>
    decreases s.len(),
{
    if s.len() > 0 && is_whitespace(s.last()) {
        trim_end(s.drop_last())
    } else {
        s
    }
}

/// The text without whitespace at either end, as `str::trim` gives it.
pub open spec fn trim(s: Seq<char>) -> Seq<char> {
    trim_end(trim_start(s))
}

/// The character with an ASCII capital letter made small; any other character unchanged.
pub open spec fn ascii_lower(c: char) -> char {
    if 'A' <= c <= 'Z' {
        ((c as u32) + 32) as char
    } else {
        c
    }
}

/// The text with every ASCII capital letter made small, as `to_ascii_lowercase` gives it.
pub open spec fn lower(s: Seq<char>) -> Seq<char> {
    s.map_values(|c: char| ascii_lower(c))
}

/// Whether `needle` occurs in `s` as a run of consecutive characters.
pub open spec fn contains_run(s: Seq<char>, needle: Seq<char>) -> bool {
    exists|i: int| 0 <= i && i + needle.len() <= s.len() && #[trigger] s.subrange(i, i + needle.len()) == needle
}

/// Whitespace: the ASCII space, tab, line feed, vertical tab, form feed and carriage
/// return are whitespace; every other printable ASCII character is not.
pub proof fn lemma_ascii_whitespace(c: char)
    requires
        (c as u32) < 0x80,
    ensures
        is_whitespace(c) <==> (c == ' ' || c == '\t' || c == '\n' || c == '\r' || c as u32 == 0x0b
            || c as u32 == 0x0c),
{
}

/// Lower-casing keeps the length, turns each ASCII capital into the matching small letter
/// and leaves every other character as it is.
pub proof fn lemma_lower(s: Seq<char>, k: int)
    requires
        0 <= k < s.len(),
    ensures
        lower(s).len() == s.len(),
        'A' <= s[k] <= 'Z' ==> 'a' <= lower(s)[k] <= 'z' && lower(s)[k] as u32 == s[k] as u32 + 32,
        !('A' <= s[k] <= 'Z') ==> lower(s)[k] == s[k],
        lower(lower(s)) == lower(s),
{
    assert(lower(lower(s)) =~= lower(s));
}

proof fn lemma_trim_start_run(s: Seq<char>)
    ensures
        trim_start(s).len() <= s.len(),
        trim_start(s) == s.subrange(s.len() - trim_start(s).len(), s.len() as int),
        forall|k: int| 0 <= k < s.len() - trim_start(s).len() ==> is_whitespace(#[trigger] s[k]),
        trim_start(s).len() > 0 ==> !is_whitespace(trim_start(s)[0]),
    decreases s.len(),
{
    if s.len() > 0 && is_whitespace(s[0]) {
        let t = s.drop_first();
        lemma_trim_start_run(t);
        assert(trim_start(s) == trim_start(t));
        let l = trim_start(t).len() as int;
        assert(t.subrange(t.len() - l, t.len() as int) =~= s.subrange(s.len() - l, s.len() as int));
        assert forall|k: int| 0 <= k < s.len() - trim_start(s).len() implies is_whitespace(
            #[trigger] s[k],
        ) by {
            if k > 0 {
                assert(s[k] == t[k - 1]);
            }
        }
    } else {
        assert(s.subrange(0, s.len() as int) =~= s);
    }
}

proof fn lemma_trim_end_run(s: Seq<char>)
    ensures
        trim_end(s).len() <= s.len(),
        trim_end(s) == s.subrange(0, trim_end(s).len() as int),
        forall|k: int| trim_end(s).len() <= k < s.len() ==> is_whitespace(#[trigger] s[k]),
        trim_end(s).len() > 0 ==> !is_whitespace(trim_end(s).last()),
    decreases s.len(),
{
    if s.len() > 0 && is_whitespace(s.last()) {
        let t = s.drop_last();
        lemma_trim_end_run(t);
        assert(trim_end(s) == trim_end(t));
        let l = trim_end(t).len() as int;
        assert(t.subrange(0, l) =~= s.subrange(0, l));
        assert forall|k: int| trim_end(s).len() <= k < s.len() implies is_whitespace(
            #[trigger] s[k],
        ) by {
            if k < s.len() - 1 {
                assert(s[k] == t[k]);
            }
        }
    } else {
        assert(s.subrange(0, s.len() as int) =~= s);
    }
}

/// Trimming keeps the run of `s` from `start` (the first character that is not
/// whitespace) up to the last such character: everything cut off is whitespace, and the
/// result neither starts nor ends with whitespace.
pub proof fn lemma_trim(s: Seq<char>)
    ensures
        ({
            let t = trim(s);
            let start = s.len() - trim_start(s).len();
            &&& 0 <= start <= start + t.len() <= s.len()
            &&& t == s.subrange(start, start + t.len())
            &&& forall|k: int| 0 <= k < start ==> is_whitespace(#[trigger] s[k])
            &&& forall|k: int| start + t.len() <= k < s.len() ==> is_whitespace(#[trigger] s[k])
            &&& t.len() > 0 ==> !is_whitespace(t[0]) && !is_whitespace(t.last())
        }),
{
    let u = trim_start(s);
    lemma_trim_start_run(s);
    lemma_trim_end_run(u);
    let t = trim(s);
    let start = s.len() - u.len();
    assert(t == trim_end(u));
    assert(t =~= s.subrange(start, start + t.len()));
    assert forall|k: int| start + t.len() <= k < s.len() implies is_whitespace(#[trigger] s[k]) by {
        assert(u == s.subrange(start, s.len() as int));
        assert(s[k] == u[k - start]);
    }
    if t.len() > 0 {
        assert(t[0] == u[0]);
    }
}

pub fn is_whitespace_char(c: char) -> (b: bool)
    ensures
        b == is_whitespace(c),
{
    let v = c as u32;
    (0x09 <= v && v <= 0x0d) || v == 0x20 || v == 0x85 || v == 0xa0 || v == 0x1680 || (0x2000 <= v
        && v <= 0x200a) || v == 0x2028 || v == 0x2029 || v == 0x202f || v == 0x205f || v == 0x3000
}

pub fn ascii_lower_char(c: char) -> (l: char)
    ensures
        l == ascii_lower(c),
{
    if 'A' <= c && c <= 'Z' {
        let b: u8 = c as u8;
        (b + 32) as char
    } else {
        c
    }
}

/// The characters of `s`, in order.
pub fn chars_of(s: &str) -> (v: Vec<char>)
    ensures
        v@ == s@,
{
    let mut v: Vec<char> = Vec::new();
    for c in it: s.chars()
        invariant
            v@ == it.seq().take(it.index() as int),
            it.seq() == s@,
    {
        v.push(c);
    }
    v
}

/// The text of `v` without whitespace at either end.
pub fn trimmed(v: &Vec<char>) -> (r: Vec<char>)
    ensures
        r@ == trim(v@),
{
    let len = v.len();
    let mut i: usize = 0;
    assert(v@.subrange(0, len as int) =~= v@);
    while i < len && is_whitespace_char(v[i])
        invariant
            len == v@.len(),
            i <= len,
            trim_start(v@) == trim_start(v@.subrange(i as int, len as int)),
        decreases len - i,
    {
        assert(v@.subrange(i as int, len as int).drop_first() =~= v@.subrange(i + 1, len as int));
        i = i + 1;
    }
    let ghost rest = v@.subrange(i as int, len as int);
    assert(trim_start(rest) == rest);
    let mut j: usize = len;
    while j > i && is_whitespace_char(v[j - 1])
        invariant
            len == v@.len(),
            i <= j <= len,
            trim_end(rest) == trim_end(v@.subrange(i as int, j as int)),
            rest == v@.subrange(i as int, len as int),
        decreases j,
    {
        assert(v@.subrange(i as int, j as int).drop_last() =~= v@.subrange(i as int, j - 1));
        j = j - 1;
    }
    assert(trim_end(v@.subrange(i as int, j as int)) == v@.subrange(i as int, j as int));
    let mut r: Vec<char> = Vec::new();
    let mut k: usize = i;
    while k < j
        invariant
            i <= k <= j <= len,
            len == v@.len(),
            r@ == v@.subrange(i as int, k as int),
        decreases j - k,
    {
        r.push(v[k]);
        assert(r@ =~= v@.subrange(i as int, k + 1));
        k = k + 1;
    }
    r
}

/// The characters of `v` with every ASCII capital letter made small.
pub fn lowered(v: &Vec<char>) -> (r: Vec<char>)
    ensures
        r@ == lower(v@),
{
    let mut r: Vec<char> = Vec::new();
    let mut k: usize = 0;
    while k < v.len()
        invariant
            k <= v@.len(),
            r@ == lower(v@.take(k as int)),
        decreases v@.len() - k,
    {
        r.push(ascii_lower_char(v[k]));
        assert(lower(v@.take(k + 1)) =~= lower(v@.take(k as int)).push(ascii_lower(v@[k as int])));
        k = k + 1;
    }
    assert(v@.take(v@.len() as int) =~= v@);
    r
}

/// Whether the two texts are equal once ASCII capitals are made small, as
/// `str::eq_ignore_ascii_case` decides.
pub fn eq_ignore_ascii_case(a: &Vec<char>, b: &Vec<char>) -> (same: bool)
    ensures
        same == (lower(a@) == lower(b@)),
{
    if a.len() != b.len() {
        assert(lower(a@).len() != lower(b@).len());
        return false;
    }
    let mut k: usize = 0;
    while k < a.len()
        invariant
            a@.len() == b@.len(),
            k <= a@.len(),
            forall|m: int| 0 <= m < k ==> ascii_lower(#[trigger] a@[m]) == ascii_lower(b@[m]),
        decreases a@.len() - k,
    {
        if ascii_lower_char(a[k]) != ascii_lower_char(b[k]) {
            assert(lower(a@)[k as int] != lower(b@)[k as int]);
            return false;
        }
        k = k + 1;
    }
    assert(lower(a@) =~= lower(b@));
    true
}

/// Whether `needle` occurs in `s` as a run of consecutive characters.
pub fn contains_chars(s: &Vec<char>, needle: &Vec<char>) -> (found: bool)
    ensures
        found == contains_run(s@, needle@),
{
    let n = needle.len();
    if n > s.len() {
        return false;
    }
    let mut i: usize = 0;
    while i <= s.len() - n
        invariant
            n == needle@.len(),
            n <= s@.len(),
            i <= s@.len() - n + 1,
            forall|p: int| 0 <= p < i ==> #[trigger] s@.subrange(p, p + n) != needle@,
        decreases s@.len() - i,
    {
        let mut k: usize = 0;
        let mut matches = true;
        while k < n
            invariant
                n == needle@.len(),
                i + n <= s@.len(),
                s@.len() <= usize::MAX,
                k <= n,
                matches == (forall|m: int| 0 <= m < k ==> s@[i + m] == needle@[m]),
            decreases n - k,
        {
            if s[i + k] != needle[k] {
                matches = false;
            }
            k = k + 1;
        }
        if matches {
            assert(s@.subrange(i as int, i + n) =~= needle@);
            return true;
        }
        assert(s@.subrange(i as int, i + n) != needle@) by {
            let m = choose|m: int| 0 <= m < n && s@[i + m] != needle@[m];
            assert(s@.subrange(i as int, i + n)[m] != needle@[m]);
        }
        i = i + 1;
    }
    false
}

/// `String::push` appends one character to the text.
#[verifier::external_body]
pub(crate) fn push_char(s: &mut String, c: char)
    ensures
        final(s)@ == old(s)@.push(c),
{
    s.push(c);
}

/// A `String` holding the characters of `v`, in order.
pub fn string_of(v: &Vec<char>) -> (s: String)
    ensures
        s@ == v@,
{
    let mut s = String::new();
    let mut k: usize = 0;
    while k < v.len()
        invariant
            k <= v@.len(),
            s@ == v@.take(k as int),
        decreases v@.len() - k,
    {
        push_char(&mut s, v[k]);
        assert(v@.take(k + 1) =~= v@.take(k as int).push(v@[k as int]));
        k = k + 1;
    }
    assert(v@.take(v@.len() as int) =~= v@);
    s
}

/// Whether the two texts hold the same characters.
pub fn same_chars(a: &Vec<char>, b: &Vec<char>) -> (same: bool)
    ensures
        same == (a@ == b@),
{
    if a.len() != b.len() {
        return false;
    }
    let mut k: usize = 0;
    while k < a.len()
        invariant
            a@.len() == b@.len(),
            k <= a@.len(),
            forall|m: int| 0 <= m < k ==> #[trigger] a@[m] == b@[m],
        decreases a@.len() - k,
    {
        if a[k] != b[k] {
            return false;
        }
        k = k + 1;
    }
    assert(a@ =~= b@);
    true
}

/// `String::pop` removes the last character, if there is one.
#[verifier::external_body]
pub(crate) fn pop_char(s: &mut String)
    ensures
        final(s)@ == if old(s)@.len() > 0 {
            old(s)@.drop_last()
        } else {
            old(s)@
        },
{
    s.pop();
}

/// The decimal digit `d`.
pub open spec fn digit_char(d: nat) -> char {
    ((48 + d) as u8) as char
}

/// The decimal numeral of `n`, without leading zeros.
pub open spec fn decimal(n: nat) -> Seq<char>
    decreases n,
{
    if n < 10 {
        seq![digit_char(n)]
    } else {
        decimal(n / 10).push(digit_char(n % 10))
    }
}

/// The number that a run of decimal digits stands for.
pub open spec fn numeral_value(s: Seq<char>) -> int
    decreases s.len(),
{
    if s.len() == 0 {
        0
    } else {
        10 * numeral_value(s.drop_last()) + (s.last() as u32 - 48)
    }
}

/// The decimal numeral of `n` is made of digits only, starts with a zero only when it is
/// "0", and stands for `n`.
pub proof fn lemma_decimal(n: nat)
    ensures
        decimal(n).len() >= 1,
        forall|k: int| 0 <= k < decimal(n).len() ==> '0' <= #[trigger] decimal(n)[k] <= '9',
        decimal(n)[0] == '0' ==> n == 0,
        numeral_value(decimal(n)) == n,
    decreases n,
{
    if n >= 10 {
        lemma_decimal(n / 10);
        let d = decimal(n);
        assert(d.drop_last() =~= decimal(n / 10));
        assert(d.last() == digit_char(n % 10));
        assert(digit_char(n % 10) as u32 == 48 + n % 10);
        assert(n == 10 * (n / 10) + n % 10);
        assert(numeral_value(d) == 10 * numeral_value(decimal(n / 10)) + (n % 10));
        assert(d[0] == decimal(n / 10)[0]);
    } else {
        assert(digit_char(n) as u32 == 48 + n);
        assert(decimal(n).drop_last() =~= Seq::<char>::empty());
        assert(decimal(n).last() == digit_char(n));
        assert(numeral_value(decimal(n)) == 10 * numeral_value(Seq::<char>::empty()) + n);
    }
}

/// Appends the decimal numeral of `n` to `s`.
pub fn push_decimal(s: &mut String, n: usize)
    ensures
        final(s)@ == old(s)@ + decimal(n as nat),
    decreases n,
{
    if n >= 10 {
        push_decimal(s, n / 10);
    }
    let d: u8 = (n % 10) as u8;
    let ghost before = s@;
    push_char(s, (48 + d) as char);
    assert(s@ =~= old(s)@ + decimal(n as nat));
}

/// Appends every character of `t` to `s`.
pub fn push_str(s: &mut String, t: &str)
    ensures
        final(s)@ == old(s)@ + t@,
{
    let chars = chars_of(t);
    let mut k: usize = 0;
    while k < chars.len()
        invariant
            k <= chars@.len(),
            chars@ == t@,
            s@ == old(s)@ + chars@.take(k as int),
        decreases chars@.len() - k,
    {
        push_char(s, chars[k]);
        assert(old(s)@ + chars@.take(k + 1) =~= old(s)@ + chars@.take(k as int) + seq![chars@[k as int]]);
        k = k + 1;
    }
    assert(chars@.take(chars@.len() as int) =~= chars@);
}

/// Whether `c` is a control character (Unicode general category Cc), as
/// `char::is_control` decides.
pub open spec fn is_control(c: char) -> bool {
    let v = c as u32;
    v <= 0x1f || (0x7f <= v <= 0x9f)
}

/// The control characters among ASCII are those below the space and DEL; every printable
/// ASCII character (space to tilde) and every letter beyond ASCII from U+00A0 on is not
/// one.
pub proof fn lemma_control(c: char)
    ensures
        (c as u32) < 0x20 || c as u32 == 0x7f ==> is_control(c),
        0x20 <= (c as u32) < 0x7f ==> !is_control(c),
        (c as u32) >= 0xa0 ==> !is_control(c),
{
}

pub fn is_control_char(c: char) -> (b: bool)
    ensures
        b == is_control(c),
{
    let v = c as u32;
    v <= 0x1f || (0x7f <= v && v <= 0x9f)
}

/// The length of the text in UTF-8 bytes, as `str::len` gives it.
pub open spec fn byte_len(s: Seq<char>) -> usize {
    vstd::utf8::encode_utf8(s).len() as usize
}

pub fn utf8_len(s: &String) -> (n: usize)
    ensures
        n == byte_len(s@),
{
    s.as_str().len()
}

} // verus!
