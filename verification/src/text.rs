//! Character-level helpers on strings, stated over `Seq<char>` views.
use vstd::prelude::*;
use vstd::utf8::is_ascii_chars;
use vstd::string::StrSliceExecFns;

verus! {

broadcast use vstd::string::group_string_axioms;

/// The characters of `s`, in order.
pub fn chars_of(s: &str) -> (v: Vec<char>)
    ensures
        v@ == s@,
{
    let mut v: Vec<char> = Vec::new();
    for c in iter: s.chars()
        invariant
            v@ == iter.seq().take(iter.index() as int),
    {
        v.push(c);
    }
    v
}

/// Builds a `String` holding exactly the given characters
/// (`FromIterator<char>` for `String`: the string made of the chars in order).
#[verifier::external_body]
pub(crate) fn string_from_chars(v: &[char]) -> (s: String)
    ensures
        s@ == v@,
{
    v.iter().collect()
}

/// Whether the two strings hold the same characters.
pub fn str_equal(a: &str, b: &str) -> (r: bool)
    ensures
        r == (a@ == b@),
{
    let va = chars_of(a);
    let vb = chars_of(b);
    chars_equal(&va, &vb)
}

/// Whether the two character vectors are equal.
pub fn chars_equal(a: &Vec<char>, b: &Vec<char>) -> (r: bool)
    ensures
        r == (a@ == b@),
{
    if a.len() != b.len() {
        return false;
    }
    let mut i: usize = 0;
    while i < a.len()
        invariant
            a.len() == b.len(),
            i <= a.len(),
            forall|j: int| 0 <= j < i ==> a@[j] == b@[j],
        decreases a.len() - i,
    {
        if a[i] != b[i] {
            return false;
        }
        i = i + 1;
    }
    assert(a@ =~= b@);
    true
}

/// `p` occurs in `s` at position `i`.
pub open spec fn occurs_at(s: Seq<char>, p: Seq<char>, i: int) -> bool {
    0 <= i && i + p.len() <= s.len() && s.subrange(i, i + p.len()) == p
}

/// `p` occurs somewhere in `s` as a contiguous run of characters.
pub open spec fn has_infix(s: Seq<char>, p: Seq<char>) -> bool {
    exists|i: int| occurs_at(s, p, i)
}

fn matches_at(s: &Vec<char>, p: &Vec<char>, i: usize) -> (r: bool)
    requires
        i + p.len() <= s.len(),
    ensures
        r == occurs_at(s@, p@, i as int),
{
    let mut j: usize = 0;
    while j < p.len()
        invariant
            i + p.len() <= s.len(),
            j <= p.len(),
            forall|k: int| 0 <= k < j ==> s@[i + k] == p@[k],
        decreases p.len() - j,
    {
        if s[i + j] != p[j] {
            assert(s@.subrange(i as int, i + p.len())[j as int] != p@[j as int]);
            return false;
        }
        j = j + 1;
    }
    assert(s@.subrange(i as int, i + p.len()) =~= p@);
    true
}

/// Whether `p` occurs in `s`.
pub fn chars_contain(s: &Vec<char>, p: &Vec<char>) -> (r: bool)
    ensures
        r == has_infix(s@, p@),
{
    if p.len() > s.len() {
        return false;
    }
    let last = s.len() - p.len();
    let mut i: usize = 0;
    while i < last
        invariant
            last == s.len() - p.len(),
            p.len() <= s.len(),
            i <= last,
            forall|k: int| 0 <= k < i ==> !occurs_at(s@, p@, k),
        decreases last - i,
    {
        if matches_at(s, p, i) {
            return true;
        }
        i = i + 1;
    }
    if matches_at(s, p, last) {
        return true;
    }
    assert forall|k: int| !occurs_at(s@, p@, k) by {
        if 0 <= k < last {
        } else if k == last {
        }
    }
    false
}

/// Whether the literal-sized needle `p` occurs in `s`.
pub fn contains_str(s: &Vec<char>, p: &str) -> (r: bool)
    ensures
        r == has_infix(s@, p@),
{
    let pv = chars_of(p);
    chars_contain(s, &pv)
}


/// A character with the Unicode `White_Space` property, as `char::is_whitespace`
/// and `str::trim` define whitespace.
pub open spec fn is_white_space(c: char) -> bool {
    let n = c as u32;
    ||| 0x09 <= n <= 0x0D
    ||| n == 0x20
    ||| n == 0x85
    ||| n == 0xA0
    ||| n == 0x1680
    ||| 0x2000 <= n <= 0x200A
    ||| n == 0x2028
    ||| n == 0x2029
    ||| n == 0x202F
    ||| n == 0x205F
    ||| n == 0x3000
}

/// `s` without its leading whitespace.
pub open spec fn trim_start_spec(s: Seq<char>) -> Seq<char>
    decreases s.len(),
{
    if s.len() > 0 && is_white_space(s[0]) {
        trim_start_spec(s.drop_first())
    } else {
        s
    }
}

/// `s` without its trailing whitespace.
pub open spec fn trim_end_spec(s: Seq<char>) -> Seq<char>
    decreases s.len(),
{
    if s.len() > 0 && is_white_space(s.last()) {
        trim_end_spec(s.drop_last())
    } else {
        s
    }
}

/// `s` without leading and trailing whitespace.
pub open spec fn trimmed(s: Seq<char>) -> Seq<char> {
    trim_end_spec(trim_start_spec(s))
}

/// Whether a character is Unicode `White_Space`.
pub fn white_space(c: char) -> (r: bool)
    ensures
        r == is_white_space(c),
{
    let n = c as u32;
    (0x09 <= n && n <= 0x0D) || n == 0x20 || n == 0x85 || n == 0xA0 || n == 0x1680 || (0x2000
        <= n && n <= 0x200A) || n == 0x2028 || n == 0x2029 || n == 0x202F || n == 0x205F || n
        == 0x3000
}

/// The part of `s` without leading and trailing `White_Space` characters, as `str::trim`
/// gives it.
pub fn trim(s: &str) -> (r: &str)
    ensures
        r@ == trimmed(s@),
{
    let v = chars_of(s);
    let mut start: usize = 0;
    assert(s@.skip(0) =~= s@);
    while start < v.len() && white_space(v[start])
        invariant
            start <= v.len(),
            v@ == s@,
            trim_start_spec(s@) == trim_start_spec(s@.skip(start as int)),
        decreases v.len() - start,
    {
        assert(s@.skip(start as int).drop_first() =~= s@.skip(start + 1));
        start = start + 1;
    }
    let mut end: usize = v.len();
    assert(s@.skip(start as int) =~= s@.subrange(start as int, end as int));
    while end > start && white_space(v[end - 1])
        invariant
            start <= end <= v.len(),
            v@ == s@,
            trim_end_spec(s@.skip(start as int)) == trim_end_spec(s@.subrange(start as int, end as int)),
        decreases end - start,
    {
        assert(s@.subrange(start as int, end as int).drop_last() =~= s@.subrange(start as int, end - 1));
        end = end - 1;
    }
    s.substring_char(start, end)
}

/// The ASCII lowercase of a character: `A` to `Z` become `a` to `z`, others are kept.
pub open spec fn ascii_lower(c: char) -> char {
    if 'A' <= c && c <= 'Z' {
        ((c as u32) + 32) as char
    } else {
        c
    }
}

/// The ASCII uppercase of a character: `a` to `z` become `A` to `Z`, others are kept.
pub open spec fn ascii_upper(c: char) -> char {
    if 'a' <= c && c <= 'z' {
        ((c as u32) - 32) as char
    } else {
        c
    }
}

/// What `str::to_lowercase` returns for a string with the given characters.
pub uninterp spec fn lowercase_of(s: Seq<char>) -> Seq<char>;

/// `str::to_lowercase`: the Unicode lowercase mapping of `s`, a function of `s` alone; on
/// ASCII text it lowers `A` to `Z` and keeps every other character.
#[verifier::external_body]
pub(crate) fn to_lowercase(s: &str) -> (r: String)
    ensures
        r@ == lowercase_of(s@),
        is_ascii_chars(s@) ==> r@ == s@.map_values(|c: char| ascii_lower(c)),
{
    s.to_lowercase()
}

/// What `str::to_uppercase` returns for a string with the given characters.
pub uninterp spec fn uppercase_of(s: Seq<char>) -> Seq<char>;

/// `str::to_uppercase`: the Unicode uppercase mapping of `s`, a function of `s` alone; on
/// ASCII text it raises `a` to `z` and keeps every other character.
#[verifier::external_body]
pub(crate) fn to_uppercase(s: &str) -> (r: String)
    ensures
        r@ == uppercase_of(s@),
        is_ascii_chars(s@) ==> r@ == s@.map_values(|c: char| ascii_upper(c)),
{
    s.to_uppercase()
}

/// `s` with every character that occurs in `drop` removed, the rest in order.
pub open spec fn without_chars(s: Seq<char>, drop: Seq<char>) -> Seq<char>
    decreases s.len(),
{
    if s.len() == 0 {
        s
    } else if drop.contains(s.last()) {
        without_chars(s.drop_last(), drop)
    } else {
        without_chars(s.drop_last(), drop).push(s.last())
    }
}

/// The characters of `s` that do not occur in `drop`, in order.
pub fn remove_chars(s: &Vec<char>, drop: &Vec<char>) -> (r: Vec<char>)
    ensures
        r@ == without_chars(s@, drop@),
{
    let mut r: Vec<char> = Vec::new();
    let mut i: usize = 0;
    while i < s.len()
        invariant
            i <= s.len(),
            r@ == without_chars(s@.take(i as int), drop@),
        decreases s.len() - i,
    {
        let c = s[i];
        let mut dropped = false;
        let mut j: usize = 0;
        while j < drop.len()
            invariant
                j <= drop.len(),
                dropped == (exists|k: int| 0 <= k < j && drop@[k] == c),
            decreases drop.len() - j,
        {
            if drop[j] == c {
                dropped = true;
            }
            j = j + 1;
        }
        assert(s@.take(i + 1).drop_last() =~= s@.take(i as int));
        assert(s@.take(i + 1).last() == c);
        if !dropped {
            r.push(c);
        }
        i = i + 1;
    }
    assert(s@.take(s.len() as int) =~= s@);
    r
}

/// An ASCII decimal digit.
pub open spec fn is_digit(c: char) -> bool {
    '0' <= c && c <= '9'
}

/// The number written by a run of decimal digits (0 for the empty run).
pub open spec fn digits_value(s: Seq<char>) -> int
    decreases s.len(),
{
    if s.len() == 0 {
        0
    } else {
        digits_value(s.drop_last()) * 10 + (s.last() as int - '0' as int)
    }
}

/// The text after an optional leading `+`.
pub open spec fn unsigned_digits(t: Seq<char>) -> Seq<char> {
    if t.len() > 0 && t[0] == '+' {
        t.drop_first()
    } else {
        t
    }
}

/// Every character of `s` is an ASCII digit.
pub open spec fn all_digits(s: Seq<char>) -> bool {
    forall|i: int| 0 <= i < s.len() ==> is_digit(#[trigger] s[i])
}

/// What `u64::from_str` accepts: an optional `+`, then one or more ASCII digits, whose
/// value fits in a `u64`; anything else is refused.
pub open spec fn u64_text_value(t: Seq<char>) -> Option<u64> {
    let d = unsigned_digits(t);
    if d.len() > 0 && all_digits(d) && digits_value(d) <= u64::MAX {
        Some(digits_value(d) as u64)
    } else {
        None
    }
}

proof fn lemma_digits_value_grows(s: Seq<char>, k: int)
    requires
        0 <= k <= s.len(),
        forall|i: int| 0 <= i < s.len() ==> is_digit(#[trigger] s[i]),
    ensures
        digits_value(s.take(k)) <= digits_value(s),
        0 <= digits_value(s.take(k)),
    decreases s.len() - k,
{
    if k < s.len() {
        lemma_digits_value_grows(s, k + 1);
        assert(s.take(k + 1).drop_last() =~= s.take(k));
        assert(s.take(k + 1).last() == s[k]);
    } else {
        assert(s.take(k) =~= s);
        lemma_digits_value_nonnegative(s);
    }
}

proof fn lemma_digits_value_nonnegative(s: Seq<char>)
    requires
        forall|i: int| 0 <= i < s.len() ==> is_digit(#[trigger] s[i]),
    ensures
        0 <= digits_value(s),
    decreases s.len(),
{
    if s.len() > 0 {
        let d = s.drop_last();
        assert forall|i: int| 0 <= i < d.len() implies is_digit(#[trigger] d[i]) by {
            assert(d[i] == s[i]);
        }
        lemma_digits_value_nonnegative(d);
        assert(is_digit(s[s.len() - 1]));
    }
}

/// Reads a `u64` as `u64::from_str` does.
pub fn parse_u64(t: &str) -> (r: Option<u64>)
    ensures
        r == u64_text_value(t@),
{
    let v = chars_of(t);
    let start: usize = if v.len() > 0 && v[0] == '+' { 1 } else { 0 };
    let ghost d = unsigned_digits(t@);
    assert(d =~= v@.skip(start as int));
    if start >= v.len() {
        return None;
    }
    let mut acc: u64 = 0;
    let mut i: usize = start;
    while i < v.len()
        invariant
            start <= i <= v.len(),
            start <= 1,
            v@ == t@,
            d == v@.skip(start as int),
            d == unsigned_digits(t@),
            d.len() > 0,
            forall|j: int| 0 <= j < i - start ==> is_digit(#[trigger] d[j]),
            acc == digits_value(d.take(i - start)),
        decreases v.len() - i,
    {
        let c = v[i];
        if !('0' <= c && c <= '9') {
            assert(d[i - start] == c);
            assert(!is_digit(d[i - start]));
            return None;
        }
        let ghost k: int = i - start;
        assert(d.take(k + 1).drop_last() =~= d.take(k));
        assert(d.take(k + 1).last() == c);
        let digit: u64 = (c as u32 - '0' as u32) as u64;
        let next = match acc.checked_mul(10) {
            Some(m) => m.checked_add(digit),
            None => None,
        };
        match next {
            Some(n) => {
                acc = n;
            },
            None => {
                proof {
                    let ghost e = d.take(k + 1);
                    assert forall|j: int| 0 <= j < e.len() implies is_digit(#[trigger] e[j]) by {
                        assert(e[j] == d[j]);
                    }
                    lemma_digits_value_nonnegative(e.drop_last());
                    assert(digits_value(e) > u64::MAX);
                    if all_digits(d) {
                        lemma_digits_value_grows(d, k + 1);
                    }
                }
                return None;
            },
        }
        i = i + 1;
    }
    assert(d.take(d.len() as int) =~= d);
    Some(acc)
}

/// Text with no leading and no trailing whitespace.
pub open spec fn is_trimmed(s: Seq<char>) -> bool {
    s.len() == 0 || (!is_white_space(s[0]) && !is_white_space(s.last()))
}

/// What trimming the start leaves is a suffix of the text.
pub proof fn lemma_trim_start_suffix(s: Seq<char>) -> (k: int)
    ensures
        0 <= k <= s.len(),
        trim_start_spec(s) == s.skip(k),
        trim_start_spec(s).len() == 0 || !is_white_space(trim_start_spec(s)[0]),
    decreases s.len(),
{
    if s.len() > 0 && is_white_space(s[0]) {
        let k = lemma_trim_start_suffix(s.drop_first());
        assert(s.drop_first().skip(k) =~= s.skip(k + 1));
        k + 1
    } else {
        assert(s.skip(0) =~= s);
        0
    }
}

/// What trimming the end leaves is a prefix of the text.
pub proof fn lemma_trim_end_prefix(s: Seq<char>) -> (k: int)
    ensures
        0 <= k <= s.len(),
        trim_end_spec(s) == s.take(k),
        trim_end_spec(s).len() == 0 || !is_white_space(trim_end_spec(s).last()),
    decreases s.len(),
{
    if s.len() > 0 && is_white_space(s.last()) {
        let k = lemma_trim_end_prefix(s.drop_last());
        assert(s.drop_last().take(k) =~= s.take(k));
        k
    } else {
        assert(s.take(s.len() as int) =~= s);
        s.len() as int
    }
}

/// Trimmed text is a contiguous part of the text, with no whitespace at either end.
pub proof fn lemma_trimmed_part(s: Seq<char>) -> (bounds: (int, int))
    ensures
        0 <= bounds.0 <= bounds.1 <= s.len(),
        trimmed(s) == s.subrange(bounds.0, bounds.1),
        is_trimmed(trimmed(s)),
{
    let a = trim_start_spec(s);
    let i = lemma_trim_start_suffix(s);
    let j = lemma_trim_end_prefix(a);
    assert(a.take(j) =~= s.subrange(i, i + j));
    let t = trimmed(s);
    if t.len() > 0 {
        assert(t[0] == a[0]);
    }
    (i, i + j)
}

/// Text without whitespace at either end is its own trimming.
pub proof fn lemma_trimmed_fixed(s: Seq<char>)
    requires
        is_trimmed(s),
    ensures
        trimmed(s) == s,
{
    if s.len() > 0 {
        assert(trim_start_spec(s) == s);
        assert(trim_end_spec(s) == s);
    }
}

/// Trimming twice is trimming once.
pub proof fn lemma_trimmed_idempotent(s: Seq<char>)
    ensures
        trimmed(trimmed(s)) == trimmed(s),
{
    lemma_trimmed_part(s);
    lemma_trimmed_fixed(trimmed(s));
}

/// Lowering an ASCII character twice is lowering it once, and keeps it ASCII.
pub proof fn lemma_ascii_lower_char(c: char)
    ensures
        ascii_lower(ascii_lower(c)) == ascii_lower(c),
        c <= '\u{7f}' ==> ascii_lower(c) <= '\u{7f}',
{
}

/// Lowering ASCII text keeps it ASCII, and lowering it again changes nothing.
pub proof fn lemma_ascii_lower_text(s: Seq<char>)
    requires
        is_ascii_chars(s),
    ensures
        is_ascii_chars(s.map_values(|c: char| ascii_lower(c))),
        s.map_values(|c: char| ascii_lower(c)).map_values(|c: char| ascii_lower(c))
            == s.map_values(|c: char| ascii_lower(c)),
{
    let l = s.map_values(|c: char| ascii_lower(c));
    assert forall|i: int| 0 <= i < l.len() implies '\0' <= #[trigger] l[i] <= '\u{7f}' by {
        lemma_ascii_lower_char(s[i]);
    }
    assert forall|i: int| 0 <= i < l.len() implies #[trigger] ascii_lower(l[i]) == l[i] by {
        lemma_ascii_lower_char(s[i]);
    }
    assert(l.map_values(|c: char| ascii_lower(c)) =~= l);
}

/// Text that is ASCII and already lowered, trimmed, stays so: lowering and trimming it again
/// gives it back.
pub proof fn lemma_lowered_trimmed_fixed(s: Seq<char>)
    requires
        is_ascii_chars(s),
    ensures
        is_ascii_chars(trimmed(s.map_values(|c: char| ascii_lower(c)))),
        trimmed(
            trimmed(s.map_values(|c: char| ascii_lower(c))).map_values(|c: char| ascii_lower(c)),
        ) == trimmed(s.map_values(|c: char| ascii_lower(c))),
{
    let l = s.map_values(|c: char| ascii_lower(c));
    lemma_ascii_lower_text(s);
    let t = trimmed(l);
    let b = lemma_trimmed_part(l);
    assert forall|i: int| 0 <= i < t.len() implies '\0' <= #[trigger] t[i] <= '\u{7f}' && ascii_lower(
        t[i],
    ) == t[i] by {
        assert(t[i] == l[b.0 + i]);
        lemma_ascii_lower_char(s[b.0 + i]);
    }
    assert(t.map_values(|c: char| ascii_lower(c)) =~= t);
    lemma_trimmed_idempotent(l);
}

} // verus!
