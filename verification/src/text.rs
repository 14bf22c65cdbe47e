//! Character-level operations on identifiers, stated over the `Seq<char>` view
//! of strings.
use vstd::prelude::*;
use vstd::string::*;

verus! {

/// `s` ends with `suffix`.
pub open spec fn seq_ends_with(s: Seq<char>, suffix: Seq<char>) -> bool {
    suffix.len() <= s.len() && s.subrange(s.len() - suffix.len(), s.len() as int) =~= suffix
}

/// The index of the last occurrence of `c` in `s`, or `-1`.
pub open spec fn last_index_of(s: Seq<char>, c: char) -> int
    decreases s.len(),
{
    if s.len() == 0 {
        -1
    } else if s.last() == c {
        s.len() - 1
    } else {
        last_index_of(s.drop_last(), c)
    }
}

/// `s` contains no occurrence of `c`.
pub open spec fn lacks(s: Seq<char>, c: char) -> bool {
    forall|i: int| 0 <= i < s.len() ==> s[i] != c
}

pub proof fn lemma_last_index_bounds(s: Seq<char>, c: char)
    ensures
        -1 <= last_index_of(s, c) < s.len(),
        last_index_of(s, c) >= 0 ==> s[last_index_of(s, c)] == c,
        forall|j: int| last_index_of(s, c) < j < s.len() ==> s[j] != c,
        last_index_of(s, c) == -1 <==> lacks(s, c),
    decreases s.len(),
{
    if s.len() > 0 && s.last() != c {
        lemma_last_index_bounds(s.drop_last(), c);
        assert(forall|j: int| 0 <= j < s.len() - 1 ==> s[j] == s.drop_last()[j]);
    }
}

/// The last occurrence of `c` is found after any prefix, once the part that
/// follows it lacks `c`.
pub proof fn lemma_last_index_of_append(prefix: Seq<char>, c: char, rest: Seq<char>)
    requires
        lacks(rest, c),
    ensures
        last_index_of(prefix.push(c) + rest, c) == prefix.len(),
    decreases rest.len(),
{
    let s = prefix.push(c) + rest;
    if rest.len() == 0 {
        assert(s =~= prefix.push(c));
    } else {
        assert(s.last() == rest.last());
        assert(s.drop_last() =~= prefix.push(c) + rest.drop_last());
        lemma_last_index_of_append(prefix, c, rest.drop_last());
    }
}

/// Character-wise equality of two string slices.
pub fn str_eq(a: &str, b: &str) -> (equal: bool)
    ensures
        equal == (a@ == b@),
{
    let n = a.unicode_len();
    if n != b.unicode_len() {
        return false;
    }
    let mut i: usize = 0;
    while i < n
        invariant
            n == a@.len(),
            n == b@.len(),
            0 <= i <= n,
            forall|k: int| 0 <= k < i ==> a@[k] == b@[k],
        decreases n - i,
    {
        if a.get_char(i) != b.get_char(i) {
            return false;
        }
        i = i + 1;
    }
    assert(a@ =~= b@);
    true
}

/// Whether `s` contains no occurrence of `c`.
pub fn has_no(s: &str, c: char) -> (none: bool)
    ensures
        none == lacks(s@, c),
{
    let n = s.unicode_len();
    let mut i: usize = 0;
    while i < n
        invariant
            n == s@.len(),
            i <= n,
            forall|j: int| 0 <= j < i ==> s@[j] != c,
        decreases n - i,
    {
        if s.get_char(i) == c {
            return false;
        }
        i = i + 1;
    }
    true
}

/// Whether `s` ends with `suffix`.
pub fn ends_with(s: &str, suffix: &str) -> (found: bool)
    ensures
        found == seq_ends_with(s@, suffix@),
{
    let n = s.unicode_len();
    let m = suffix.unicode_len();
    if m > n {
        return false;
    }
    let offset = n - m;
    let mut k: usize = 0;
    while k < m
        invariant
            n == s@.len(),
            m == suffix@.len(),
            offset == n - m,
            0 <= k <= m,
            forall|j: int| 0 <= j < k ==> s@[offset + j] == suffix@[j],
        decreases m - k,
    {
        if s.get_char(offset + k) != suffix.get_char(k) {
            assert(s@.subrange(offset as int, n as int)[k as int] != suffix@[k as int]);
            return false;
        }
        k = k + 1;
    }
    assert(s@.subrange(offset as int, n as int) =~= suffix@);
    true
}

/// The index of the last occurrence of `c` in `s`.
pub fn find_last(s: &str, c: char) -> (found: Option<usize>)
    ensures
        found is None <==> last_index_of(s@, c) == -1,
        found is Some ==> found.unwrap() == last_index_of(s@, c),
{
    let n = s.unicode_len();
    let mut i: usize = n;
    assert(s@.subrange(0, n as int) =~= s@);
    while i > 0
        invariant
            n == s@.len(),
            i <= n,
            last_index_of(s@, c) == last_index_of(s@.subrange(0, i as int), c),
        decreases i,
    {
        let ghost sub = s@.subrange(0, i as int);
        if s.get_char(i - 1) == c {
            assert(sub.last() == c);
            return Some(i - 1);
        }
        assert(sub.drop_last() =~= s@.subrange(0, i - 1));
        i = i - 1;
    }
    assert(s@.subrange(0, 0).len() == 0);
    None
}

/// An owned copy of `s`.
pub fn owned(s: &str) -> (copy: String)
    ensures
        copy@ == s@,
{
    s.to_owned()
}

/// `a` followed by the character `c` and then `b`.
pub fn join_with(a: &str, c: char, b: &str) -> (joined: String)
    ensures
        joined@ == a@.push(c) + b@,
{
    let mut joined = String::from_str(a);
    let sep = char_string(c);
    joined.append(sep.as_str());
    joined.append(b);
    joined
}

/// The character `c` followed by `b`.
pub fn prefixed(c: char, b: &str) -> (joined: String)
    ensures
        joined@ == seq![c] + b@,
{
    let mut joined = char_string(c);
    joined.append(b);
    joined
}

/// Appends the character `c` to `s`.
pub fn push_char(s: &mut String, c: char)
    ensures
        final(s)@ == old(s)@.push(c),
{
    let one = char_string(c);
    s.append(one.as_str());
}

/// A one-character string.
///
/// Wraps `ToString::to_string` on a `char`, which yields the string holding
/// exactly that character.
#[verifier::external_body]
fn char_string(c: char) -> (s: String)
    ensures
        s@ == seq![c],
{
    c.to_string()
}

/// Unicode `White_Space`, the property `str::trim` strips.
pub open spec fn is_white_space(c: char) -> bool {
    let v = c as int;
    ||| 0x9 <= v <= 0xD
    ||| v == 0x20
    ||| v == 0x85
    ||| v == 0xA0
    ||| v == 0x1680
    ||| 0x2000 <= v <= 0x200A
    ||| v == 0x2028
    ||| v == 0x2029
    ||| v == 0x202F
    ||| v == 0x205F
    ||| v == 0x3000
}

/// `s` holds nothing but white space: it trims to nothing.
pub open spec fn is_blank_seq(s: Seq<char>) -> bool {
    forall|i: int| 0 <= i < s.len() ==> is_white_space(#[trigger] s[i])
}

/// `s` without its leading white space.
pub open spec fn trim_start(s: Seq<char>) -> Seq<char>
    decreases s.len(),
{
    if s.len() > 0 && is_white_space(s[0]) {
        trim_start(s.drop_first())
    } else {
        s
    }
}

/// `s` without its trailing white space.
pub open spec fn trim_end(s: Seq<char>) -> Seq<char>
    decreases s.len(),
{
    if s.len() > 0 && is_white_space(s.last()) {
        trim_end(s.drop_last())
    } else {
        s
    }
}

/// `s` without leading and trailing white space.
pub open spec fn spec_trim(s: Seq<char>) -> Seq<char> {
    trim_end(trim_start(s))
}

/// `s` starts with `prefix`.
pub open spec fn seq_starts_with(s: Seq<char>, prefix: Seq<char>) -> bool {
    prefix.len() <= s.len() && s.subrange(0, prefix.len() as int) =~= prefix
}

/// The index of the first occurrence of `c` in `s`, or `-1`.
pub open spec fn first_index_of(s: Seq<char>, c: char) -> int
    decreases s.len(),
{
    if s.len() == 0 {
        -1
    } else if s[0] == c {
        0
    } else if first_index_of(s.drop_first(), c) < 0 {
        -1
    } else {
        first_index_of(s.drop_first(), c) + 1
    }
}

/// Whether `c` is white space.
pub fn white_space(c: char) -> (ws: bool)
    ensures
        ws == is_white_space(c),
{
    let v = c as u32;
    (0x9 <= v && v <= 0xD) || v == 0x20 || v == 0x85 || v == 0xA0 || v == 0x1680 || (0x2000 <= v
        && v <= 0x200A) || v == 0x2028 || v == 0x2029 || v == 0x202F || v == 0x205F || v == 0x3000
}

/// Whether `s` is empty once trimmed.
pub fn is_blank(s: &str) -> (blank: bool)
    ensures
        blank == is_blank_seq(s@),
{
    let n = s.unicode_len();
    let mut i: usize = 0;
    while i < n
        invariant
            n == s@.len(),
            i <= n,
            forall|k: int| 0 <= k < i ==> is_white_space(#[trigger] s@[k]),
        decreases n - i,
    {
        if !white_space(s.get_char(i)) {
            return false;
        }
        i = i + 1;
    }
    true
}

proof fn lemma_trim_start_skip(s: Seq<char>, i: int)
    requires
        0 <= i <= s.len(),
        forall|k: int| 0 <= k < i ==> is_white_space(#[trigger] s[k]),
    ensures
        trim_start(s) == trim_start(s.subrange(i, s.len() as int)),
    decreases i,
{
    if i > 0 {
        lemma_trim_start_skip(s.drop_first(), i - 1);
        assert(s.drop_first().subrange(i - 1, s.drop_first().len() as int) =~= s.subrange(
            i,
            s.len() as int,
        ));
    } else {
        assert(s.subrange(0, s.len() as int) =~= s);
    }
}

proof fn lemma_trim_end_cut(s: Seq<char>, j: int)
    requires
        0 <= j <= s.len(),
        forall|k: int| j <= k < s.len() ==> is_white_space(#[trigger] s[k]),
    ensures
        trim_end(s) == trim_end(s.subrange(0, j)),
    decreases s.len() - j,
{
    if j < s.len() {
        lemma_trim_end_cut(s.drop_last(), j);
        assert(s.drop_last().subrange(0, j) =~= s.subrange(0, j));
    } else {
        assert(s.subrange(0, s.len() as int) =~= s);
    }
}

/// `s` trimmed of leading and trailing white space.
pub fn trim(s: &str) -> (trimmed: String)
    ensures
        trimmed@ == spec_trim(s@),
{
    let n = s.unicode_len();
    let mut start: usize = 0;
    while start < n && white_space(s.get_char(start))
        invariant
            n == s@.len(),
            start <= n,
            forall|k: int| 0 <= k < start ==> is_white_space(#[trigger] s@[k]),
        decreases n - start,
    {
        start = start + 1;
    }
    proof {
        lemma_trim_start_skip(s@, start as int);
    }
    let ghost rest = s@.subrange(start as int, n as int);
    assert(start == n || !is_white_space(rest[0]));
    assert(trim_start(rest) == rest);
    let mut end: usize = n;
    while end > start && white_space(s.get_char(end - 1))
        invariant
            n == s@.len(),
            start <= end <= n,
            forall|k: int| end <= k < n ==> is_white_space(#[trigger] s@[k]),
        decreases end,
    {
        end = end - 1;
    }
    proof {
        let r = rest;
        assert forall|k: int| end - start <= k < r.len() implies is_white_space(#[trigger] r[k]) by {
            assert(r[k] == s@[start + k]);
        }
        lemma_trim_end_cut(r, end - start);
        let cut = r.subrange(0, end - start);
        assert(cut =~= s@.subrange(start as int, end as int));
        if end > start {
            assert(cut.last() == s@[end - 1]);
        }
        assert(trim_end(cut) == cut);
    }
    owned(s.substring_char(start, end))
}

/// Whether `s` starts with `prefix`.
pub fn starts_with(s: &str, prefix: &str) -> (found: bool)
    ensures
        found == seq_starts_with(s@, prefix@),
{
    let n = s.unicode_len();
    let m = prefix.unicode_len();
    if m > n {
        return false;
    }
    let mut k: usize = 0;
    while k < m
        invariant
            n == s@.len(),
            m == prefix@.len(),
            m <= n,
            0 <= k <= m,
            forall|j: int| 0 <= j < k ==> s@[j] == prefix@[j],
        decreases m - k,
    {
        if s.get_char(k) != prefix.get_char(k) {
            assert(s@.subrange(0, m as int)[k as int] != prefix@[k as int]);
            return false;
        }
        k = k + 1;
    }
    assert(s@.subrange(0, m as int) =~= prefix@);
    true
}

/// The index of the first occurrence of `c` in `s`.
pub fn find_first(s: &str, c: char) -> (found: Option<usize>)
    ensures
        found is None <==> first_index_of(s@, c) == -1,
        found is Some ==> found.unwrap() == first_index_of(s@, c),
{
    let n = s.unicode_len();
    let mut i: usize = 0;
    assert(s@.subrange(0, n as int) =~= s@);
    while i < n
        invariant
            n == s@.len(),
            i <= n,
            first_index_of(s@, c) == (if first_index_of(s@.subrange(i as int, n as int), c) < 0 {
                -1
            } else {
                first_index_of(s@.subrange(i as int, n as int), c) + i
            }),
        decreases n - i,
    {
        let ghost rest = s@.subrange(i as int, n as int);
        if s.get_char(i) == c {
            assert(rest[0] == c);
            return Some(i);
        }
        assert(rest.drop_first() =~= s@.subrange(i + 1, n as int));
        i = i + 1;
    }
    assert(s@.subrange(n as int, n as int).len() == 0);
    None
}

/// The part of `s` from character `from` on.
pub fn suffix_from(s: &str, from: usize) -> (rest: String)
    requires
        from <= s@.len(),
    ensures
        rest@ == s@.subrange(from as int, s@.len() as int),
{
    let n = s.unicode_len();
    owned(s.substring_char(from, n))
}

/// The decimal digit for `d`.
pub open spec fn digit_char(d: nat) -> char {
    if d == 0 {
        '0'
    } else if d == 1 {
        '1'
    } else if d == 2 {
        '2'
    } else if d == 3 {
        '3'
    } else if d == 4 {
        '4'
    } else if d == 5 {
        '5'
    } else if d == 6 {
        '6'
    } else if d == 7 {
        '7'
    } else if d == 8 {
        '8'
    } else {
        '9'
    }
}

/// The decimal rendering of `n`, without leading zeros.
pub open spec fn decimal(n: nat) -> Seq<char>
    decreases n,
{
    if n < 10 {
        seq![digit_char(n)]
    } else {
        decimal(n / 10).push(digit_char(n % 10))
    }
}

fn digit(d: u64) -> (c: char)
    requires
        d < 10,
    ensures
        c == digit_char(d as nat),
{
    if d == 0 {
        '0'
    } else if d == 1 {
        '1'
    } else if d == 2 {
        '2'
    } else if d == 3 {
        '3'
    } else if d == 4 {
        '4'
    } else if d == 5 {
        '5'
    } else if d == 6 {
        '6'
    } else if d == 7 {
        '7'
    } else if d == 8 {
        '8'
    } else {
        '9'
    }
}

/// Appends the decimal rendering of `n` to `s`.
pub fn push_decimal(s: &mut String, n: u64)
    ensures
        final(s)@ == old(s)@ + decimal(n as nat),
    decreases n,
{
    if n >= 10 {
        push_decimal(s, n / 10);
    }
    push_char(s, digit(n % 10));
    proof {
        if n < 10 {
            assert(n % 10 == n);
        }
    }
}

/// A copy of `values`, string by string.
pub fn copy_string_vec(values: &Vec<String>) -> (copy: Vec<String>)
    ensures
        copy@.map_values(|s: String| s@) == values@.map_values(|s: String| s@),
{
    let mut copy: Vec<String> = Vec::new();
    let mut i: usize = 0;
    while i < values.len()
        invariant
            i <= values@.len(),
            copy@.len() == i,
            forall|j: int| 0 <= j < i ==> #[trigger] copy@[j]@ == values@[j]@,
        decreases values@.len() - i,
    {
        copy.push(values[i].clone());
        i = i + 1;
    }
    assert(copy@.map_values(|s: String| s@) =~= values@.map_values(|s: String| s@));
    copy
}

} // verus!
