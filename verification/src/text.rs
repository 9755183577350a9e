//! Character-level text helpers shared by every tool: building strings,
//! decimal rendering of integers, whitespace trimming and comparisons, each
//! stated over the `Seq<char>` view of the strings involved.
use vstd::prelude::*;

verus! {

/// `String::push` appends exactly the given character.
pub assume_specification[ String::push ](s: &mut String, ch: char)
    ensures
        final(s)@ == old(s)@.push(ch),
;

/// The characters of a string slice, in order (`str::chars` collected).
#[verifier::external_body]
pub(crate) fn chars_of(s: &str) -> (v: Vec<char>)
    ensures
        v@ == s@,
{
    s.chars().collect()
}

/// A fresh string holding a copy of `s`.
pub fn copy_str(s: &str) -> (r: String)
    ensures
        r@ == s@,
{
    let mut r = String::new();
    r.append(s);
    r
}

/// The string made of the characters of `v`.
pub fn string_from_chars(v: &[char]) -> (r: String)
    ensures
        r@ == v@,
{
    let mut r = String::new();
    let mut i: usize = 0;
    while i < v.len()
        invariant
            i <= v@.len(),
            r@ == v@.subrange(0, i as int),
        decreases v@.len() - i,
    {
        r.push(v[i]);
        proof {
            assert(v@.subrange(0, i as int).push(v@[i as int]) =~= v@.subrange(0, i + 1));
        }
        i = i + 1;
    }
    proof {
        assert(v@.subrange(0, v@.len() as int) =~= v@);
    }
    r
}

/// The character of a decimal digit.
pub open spec fn digit_char(d: nat) -> char {
    if d == 0 {
        '0'
    } else if d == 1 {
        '1'
    } else if d == 2 {
        '2'
    } else if d == 3 {
        '3'
    } else if d == 4 {
        '4'
    } else if d == 5 {
        '5'
    } else if d == 6 {
        '6'
    } else if d == 7 {
        '7'
    } else if d == 8 {
        '8'
    } else {
        '9'
    }
}

/// The decimal representation of a natural number, without leading zeros.
pub open spec fn decimal(n: nat) -> Seq<char>
    decreases n,
{
    if n < 10 {
        seq![digit_char(n)]
    } else {
        decimal(n / 10).push(digit_char(n % 10))
    }
}

/// The decimal representation of an integer, with a leading `-` when negative.
pub open spec fn signed_decimal(i: int) -> Seq<char> {
    if i < 0 {
        seq!['-'] + decimal((-i) as nat)
    } else {
        decimal(i as nat)
    }
}

fn exec_digit_char(d: u64) -> (c: char)
    requires
        d < 10,
    ensures
        c == digit_char(d as nat),
{
    if d == 0 {
        '0'
    } else if d == 1 {
        '1'
    } else if d == 2 {
        '2'
    } else if d == 3 {
        '3'
    } else if d == 4 {
        '4'
    } else if d == 5 {
        '5'
    } else if d == 6 {
        '6'
    } else if d == 7 {
        '7'
    } else if d == 8 {
        '8'
    } else {
        '9'
    }
}

/// Appends the decimal representation of `n` to `out`.
pub fn push_decimal(out: &mut String, n: u64)
    ensures
        final(out)@ == old(out)@ + decimal(n as nat),
    decreases n,
{
    if n >= 10 {
        push_decimal(out, n / 10);
    }
    let c = exec_digit_char(n % 10);
    out.push(c);
    proof {
        if n < 10 {
            assert(decimal(n as nat) =~= seq![digit_char(n as nat)]);
        }
    }
}

/// The decimal representation of `n` (as `u64::to_string` renders it).
pub fn u64_to_string(n: u64) -> (s: String)
    ensures
        s@ == decimal(n as nat),
{
    let mut s = String::new();
    push_decimal(&mut s, n);
    assert(s@ =~= decimal(n as nat));
    s
}

/// Appends the signed decimal representation of `n` to `out`.
pub fn push_signed_decimal(out: &mut String, n: i64)
    ensures
        final(out)@ == old(out)@ + signed_decimal(n as int),
{
    if n < 0 {
        out.push('-');
        let magnitude: u64 = if n == i64::MIN {
            9223372036854775808u64
        } else {
            (-n) as u64
        };
        push_decimal(out, magnitude);
        assert(final(out)@ =~= old(out)@ + signed_decimal(n as int));
    } else {
        push_decimal(out, n as u64);
    }
}

/// Whitespace as Rust's `char::is_whitespace` defines it (the Unicode
/// `White_Space` property).
pub open spec fn is_ws(c: char) -> bool {
    let u = c as u32;
    (0x9 <= u && u <= 0xD) || u == 0x20 || u == 0x85 || u == 0xA0 || u == 0x1680 || (0x2000
        <= u && u <= 0x200A) || u == 0x2028 || u == 0x2029 || u == 0x202F || u == 0x205F || u
        == 0x3000
}

pub fn is_whitespace(c: char) -> (b: bool)
    ensures
        b == is_ws(c),
{
    let u = c as u32;
    (0x9 <= u && u <= 0xD) || u == 0x20 || u == 0x85 || u == 0xA0 || u == 0x1680 || (0x2000
        <= u && u <= 0x200A) || u == 0x2028 || u == 0x2029 || u == 0x202F || u == 0x205F || u
        == 0x3000
}

/// Every character of `s` is whitespace (so `s.trim()` is empty).
pub open spec fn all_ws(s: Seq<char>) -> bool {
    forall|i: int| 0 <= i < s.len() ==> is_ws(#[trigger] s[i])
}

/// The number of leading whitespace characters.
pub open spec fn lead_ws(s: Seq<char>) -> nat
    decreases s.len(),
{
    if s.len() > 0 && is_ws(s[0]) {
        1 + lead_ws(s.drop_first())
    } else {
        0
    }
}

/// The number of trailing whitespace characters.
pub open spec fn trail_ws(s: Seq<char>) -> nat
    decreases s.len(),
{
    if s.len() > 0 && is_ws(s.last()) {
        1 + trail_ws(s.drop_last())
    } else {
        0
    }
}

/// `s` without its leading whitespace (`str::trim_start`).
pub open spec fn trim_start(s: Seq<char>) -> Seq<char> {
    s.subrange(lead_ws(s) as int, s.len() as int)
}

/// `s` without its trailing whitespace (`str::trim_end`).
pub open spec fn trim_end(s: Seq<char>) -> Seq<char> {
    s.subrange(0, s.len() - trail_ws(s))
}

/// `s` without leading or trailing whitespace (`str::trim`).
pub open spec fn trim(s: Seq<char>) -> Seq<char> {
    trim_end(trim_start(s))
}

proof fn lemma_lead_ws(s: Seq<char>)
    ensures
        lead_ws(s) <= s.len(),
        forall|i: int| 0 <= i < lead_ws(s) ==> is_ws(#[trigger] s[i]),
        lead_ws(s) < s.len() ==> !is_ws(s[lead_ws(s) as int]),
    decreases s.len(),
{
    if s.len() > 0 && is_ws(s[0]) {
        lemma_lead_ws(s.drop_first());
        assert forall|i: int| 0 <= i < lead_ws(s) implies is_ws(#[trigger] s[i]) by {
            if i > 0 {
                assert(s[i] == s.drop_first()[i - 1]);
            }
        }
    }
}

proof fn lemma_trail_ws(s: Seq<char>)
    ensures
        trail_ws(s) <= s.len(),
        forall|i: int| s.len() - trail_ws(s) <= i < s.len() ==> is_ws(#[trigger] s[i]),
        trail_ws(s) < s.len() ==> !is_ws(s[s.len() - trail_ws(s) - 1]),
    decreases s.len(),
{
    if s.len() > 0 && is_ws(s.last()) {
        lemma_trail_ws(s.drop_last());
        assert forall|i: int| s.len() - trail_ws(s) <= i < s.len() implies is_ws(
            #[trigger] s[i],
        ) by {
            if i < s.len() - 1 {
                assert(s[i] == s.drop_last()[i]);
            }
        }
    }
}

/// The leading whitespace count is the index of the first other character.
proof fn lemma_lead_ws_index(s: Seq<char>, k: int)
    requires
        0 <= k <= s.len(),
        forall|i: int| 0 <= i < k ==> is_ws(#[trigger] s[i]),
        k < s.len() ==> !is_ws(s[k]),
    ensures
        lead_ws(s) == k,
    decreases s.len(),
{
    if k > 0 {
        assert(is_ws(s[0]));
        assert forall|i: int| 0 <= i < k - 1 implies is_ws(#[trigger] s.drop_first()[i]) by {
            assert(s.drop_first()[i] == s[i + 1]);
        }
        if k - 1 < s.len() - 1 {
            assert(s.drop_first()[k - 1] == s[k]);
        }
        lemma_lead_ws_index(s.drop_first(), k - 1);
    }
}

/// The trailing whitespace count is the distance from the last other character.
proof fn lemma_trail_ws_index(s: Seq<char>, k: int)
    requires
        0 <= k <= s.len(),
        forall|i: int| s.len() - k <= i < s.len() ==> is_ws(#[trigger] s[i]),
        k < s.len() ==> !is_ws(s[s.len() - k - 1]),
    ensures
        trail_ws(s) == k,
    decreases s.len(),
{
    if k > 0 {
        assert(is_ws(s[s.len() - 1]));
        assert forall|i: int| s.len() - 1 - (k - 1) <= i < s.len() - 1 implies is_ws(
            #[trigger] s.drop_last()[i],
        ) by {
            assert(s.drop_last()[i] == s[i]);
        }
        if k - 1 < s.len() - 1 {
            assert(s.drop_last()[s.len() - 1 - (k - 1) - 1] == s[s.len() - k - 1]);
        }
        lemma_trail_ws_index(s.drop_last(), k - 1);
    }
}

/// A string trims to nothing exactly when it is all whitespace.
pub proof fn lemma_trim_empty(s: Seq<char>)
    ensures
        (trim(s).len() == 0) == all_ws(s),
{
    lemma_lead_ws(s);
    let t = trim_start(s);
    lemma_trail_ws(t);
    if trim(s).len() == 0 {
        assert forall|i: int| 0 <= i < s.len() implies is_ws(#[trigger] s[i]) by {
            if i >= lead_ws(s) {
                assert(t[i - lead_ws(s)] == s[i]);
            }
        }
    }
    if all_ws(s) {
        if lead_ws(s) < s.len() {
            assert(is_ws(s[lead_ws(s) as int]));
        }
    }
}

/// The characters of `v` without leading and trailing whitespace.
pub fn trim_chars(v: &[char]) -> (r: Vec<char>)
    ensures
        r@ == trim(v@),
{
    let n = v.len();
    let mut a: usize = 0;
    while a < n && is_whitespace(v[a])
        invariant
            n == v@.len(),
            a <= n,
            forall|i: int| 0 <= i < a ==> is_ws(#[trigger] v@[i]),
        decreases n - a,
    {
        a = a + 1;
    }
    proof {
        lemma_lead_ws_index(v@, a as int);
    }
    let mut b: usize = n;
    while b > a && is_whitespace(v[b - 1])
        invariant
            n == v@.len(),
            a <= b <= n,
            forall|i: int| b <= i < n ==> is_ws(#[trigger] v@[i]),
        decreases b,
    {
        b = b - 1;
    }
    let ghost t = trim_start(v@);
    proof {
        assert(t =~= v@.subrange(a as int, n as int));
        assert forall|i: int| t.len() - (n - b) <= i < t.len() implies is_ws(#[trigger] t[i]) by {
            assert(t[i] == v@[a + i]);
        }
        if n - b < t.len() {
            assert(t[t.len() - (n - b) - 1] == v@[b - 1]);
        }
        lemma_trail_ws_index(t, (n - b) as int);
    }
    let mut r: Vec<char> = Vec::new();
    let mut i: usize = a;
    while i < b
        invariant
            a <= i <= b <= n,
            n == v@.len(),
            r@ == v@.subrange(a as int, i as int),
        decreases b - i,
    {
        r.push(v[i]);
        proof {
            assert(v@.subrange(a as int, i as int).push(v@[i as int]) =~= v@.subrange(
                a as int,
                i + 1,
            ));
        }
        i = i + 1;
    }
    proof {
        assert(trim(v@) =~= v@.subrange(a as int, b as int));
    }
    r
}

/// `s.trim()` as an owned string.
pub fn trim_str(s: &str) -> (r: String)
    ensures
        r@ == trim(s@),
{
    let v = chars_of(s);
    let t = trim_chars(v.as_slice());
    string_from_chars(t.as_slice())
}

/// `s.trim_end()` as an owned string.
pub fn trim_end_str(s: &str) -> (r: String)
    ensures
        r@ == trim_end(s@),
{
    let v = chars_of(s);
    let n = v.len();
    let mut b: usize = n;
    while b > 0 && is_whitespace(v[b - 1])
        invariant
            n == v@.len(),
            b <= n,
            forall|i: int| b <= i < n ==> is_ws(#[trigger] v@[i]),
        decreases b,
    {
        b = b - 1;
    }
    proof {
        lemma_trail_ws_index(v@, (n - b) as int);
        assert(trim_end(v@) =~= v@.take(b as int));
    }
    string_from_chars(slice_prefix(v.as_slice(), b))
}

/// Whether `s.trim()` is empty.
pub fn is_blank(s: &str) -> (b: bool)
    ensures
        b == all_ws(s@),
{
    let v = chars_of(s);
    let mut i: usize = 0;
    while i < v.len()
        invariant
            i <= v@.len(),
            v@ == s@,
            forall|j: int| 0 <= j < i ==> is_ws(#[trigger] v@[j]),
        decreases v@.len() - i,
    {
        if !is_whitespace(v[i]) {
            return false;
        }
        i = i + 1;
    }
    true
}

/// Equality of two character slices.
pub fn chars_eq(a: &[char], b: &[char]) -> (r: bool)
    ensures
        r == (a@ == b@),
{
    if a.len() != b.len() {
        return false;
    }
    let mut i: usize = 0;
    while i < a.len()
        invariant
            i <= a@.len(),
            a@.len() == b@.len(),
            forall|j: int| 0 <= j < i ==> a@[j] == b@[j],
        decreases a@.len() - i,
    {
        if a[i] != b[i] {
            return false;
        }
        i = i + 1;
    }
    assert(a@ =~= b@);
    true
}

/// Whether a string slice is empty.
pub fn is_empty_str(s: &str) -> (b: bool)
    ensures
        b == (s@.len() == 0),
{
    let v = chars_of(s);
    v.len() == 0
}

/// Whether two strings hold the same characters.
pub fn str_eq(a: &str, b: &str) -> (r: bool)
    ensures
        r == (a@ == b@),
{
    let va = chars_of(a);
    let vb = chars_of(b);
    chars_eq(va.as_slice(), vb.as_slice())
}

/// `s` begins with `p`.
pub open spec fn has_prefix(s: Seq<char>, p: Seq<char>) -> bool {
    p.len() <= s.len() && s.subrange(0, p.len() as int) == p
}

/// `s` ends with `p`.
pub open spec fn has_suffix(s: Seq<char>, p: Seq<char>) -> bool {
    p.len() <= s.len() && s.subrange(s.len() - p.len(), s.len() as int) == p
}

/// `s` contains the character `c`.
pub open spec fn has_char(s: Seq<char>, c: char) -> bool {
    exists|i: int| 0 <= i < s.len() && s[i] == c
}

pub fn chars_start_with(s: &[char], p: &[char]) -> (r: bool)
    ensures
        r == has_prefix(s@, p@),
{
    if p.len() > s.len() {
        return false;
    }
    let mut i: usize = 0;
    while i < p.len()
        invariant
            i <= p@.len() <= s@.len(),
            forall|j: int| 0 <= j < i ==> s@[j] == p@[j],
        decreases p@.len() - i,
    {
        if s[i] != p[i] {
            assert(s@.subrange(0, p@.len() as int)[i as int] == s@[i as int]);
            return false;
        }
        i = i + 1;
    }
    assert(s@.subrange(0, p@.len() as int) =~= p@);
    true
}

pub fn chars_end_with(s: &[char], p: &[char]) -> (r: bool)
    ensures
        r == has_suffix(s@, p@),
{
    if p.len() > s.len() {
        return false;
    }
    let off = s.len() - p.len();
    let mut i: usize = 0;
    while i < p.len()
        invariant
            i <= p@.len() <= s@.len(),
            off + p@.len() == s@.len(),
            s@.len() == s.len(),
            forall|j: int| 0 <= j < i ==> s@[off + j] == p@[j],
        decreases p@.len() - i,
    {
        if s[off + i] != p[i] {
            assert(s@.subrange(off as int, s@.len() as int)[i as int] == s@[off + i]);
            return false;
        }
        i = i + 1;
    }
    assert(s@.subrange(off as int, s@.len() as int) =~= p@);
    true
}

/// Whether the string slice `s` begins with `p`.
pub fn starts_with(s: &str, p: &str) -> (r: bool)
    ensures
        r == has_prefix(s@, p@),
{
    let vs = chars_of(s);
    let vp = chars_of(p);
    chars_start_with(vs.as_slice(), vp.as_slice())
}

/// Whether the string slice `s` ends with `p`.
pub fn ends_with(s: &str, p: &str) -> (r: bool)
    ensures
        r == has_suffix(s@, p@),
{
    let vs = chars_of(s);
    let vp = chars_of(p);
    chars_end_with(vs.as_slice(), vp.as_slice())
}

/// Whether the characters contain `c`.
pub fn chars_contain(s: &[char], c: char) -> (r: bool)
    ensures
        r == has_char(s@, c),
{
    let mut i: usize = 0;
    while i < s.len()
        invariant
            i <= s@.len(),
            forall|j: int| 0 <= j < i ==> s@[j] != c,
        decreases s@.len() - i,
    {
        if s[i] == c {
            return true;
        }
        i = i + 1;
    }
    false
}

/// The number of bytes of `c` in UTF-8.
pub open spec fn utf8_len(c: char) -> nat {
    let u = c as u32;
    if u < 0x80 {
        1
    } else if u < 0x800 {
        2
    } else if u < 0x10000 {
        3
    } else {
        4
    }
}

/// The length in bytes of the UTF-8 encoding of `s` (`str::len`).
pub open spec fn byte_len(s: Seq<char>) -> nat
    decreases s.len(),
{
    if s.len() == 0 {
        0
    } else {
        byte_len(s.drop_last()) + utf8_len(s.last())
    }
}

/// The number of characters in the longest prefix of `s` whose encoding takes
/// at most `max` bytes: cutting a string at byte `max`, moved back to a
/// character boundary.
pub open spec fn fitting_prefix_len(s: Seq<char>, max: nat) -> nat
    decreases s.len(),
{
    if byte_len(s) <= max {
        s.len()
    } else {
        fitting_prefix_len(s.drop_last(), max)
    }
}

pub fn exec_utf8_len(c: char) -> (n: usize)
    ensures
        n == utf8_len(c),
{
    let u = c as u32;
    if u < 0x80 {
        1
    } else if u < 0x800 {
        2
    } else if u < 0x10000 {
        3
    } else {
        4
    }
}

pub proof fn lemma_byte_len_take(s: Seq<char>, i: int)
    requires
        0 <= i < s.len(),
    ensures
        byte_len(s.take(i + 1)) == byte_len(s.take(i)) + utf8_len(s[i]),
{
    assert(s.take(i + 1).drop_last() =~= s.take(i));
}

pub proof fn lemma_byte_len_mono(s: Seq<char>, i: int, j: int)
    requires
        0 <= i <= j <= s.len(),
    ensures
        byte_len(s.take(i)) <= byte_len(s.take(j)),
    decreases j - i,
{
    if i < j {
        lemma_byte_len_take(s, j - 1);
        lemma_byte_len_mono(s, i, j - 1);
    }
}

/// The fitting prefix is the one the budget allows and one more character
/// would not.
proof fn lemma_fitting_prefix(s: Seq<char>, max: nat, k: int)
    requires
        0 <= k <= s.len(),
        byte_len(s.take(k)) <= max,
        k < s.len() ==> byte_len(s.take(k + 1)) > max,
    ensures
        fitting_prefix_len(s, max) == k,
    decreases s.len(),
{
    assert(s.take(s.len() as int) =~= s);
    if k < s.len() {
        lemma_byte_len_mono(s, k + 1, s.len() as int);
        let t = s.drop_last();
        assert(t.take(k) =~= s.take(k));
        if k + 1 <= t.len() {
            assert(t.take(k + 1) =~= s.take(k + 1));
        }
        lemma_fitting_prefix(t, max, k);
    }
}

/// The number of leading characters of `v` whose encoding fits in `max` bytes,
/// and whether all of `v` fits.
pub fn fitting_prefix(v: &[char], max: usize) -> (r: (usize, bool))
    ensures
        r.0 == fitting_prefix_len(v@, max as nat),
        r.1 == (byte_len(v@) <= max),
        r.0 <= v@.len(),
{
    let mut i: usize = 0;
    let mut total: usize = 0;
    assert(v@.take(0) =~= seq![]);
    while i < v.len()
        invariant
            i <= v@.len(),
            total == byte_len(v@.take(i as int)),
            total <= max,
        decreases v@.len() - i,
    {
        let c = exec_utf8_len(v[i]);
        proof {
            lemma_byte_len_take(v@, i as int);
        }
        if c > max - total {
            proof {
                lemma_fitting_prefix(v@, max as nat, i as int);
                lemma_byte_len_mono(v@, i + 1, v@.len() as int);
                assert(v@.take(v@.len() as int) =~= v@);
            }
            return (i, false);
        }
        total = total + c;
        i = i + 1;
    }
    proof {
        assert(v@.take(v@.len() as int) =~= v@);
        lemma_fitting_prefix(v@, max as nat, i as int);
    }
    (i, true)
}

/// Index of the last occurrence of `c` in `s`, or -1.
pub open spec fn last_index_of(s: Seq<char>, c: char) -> int
    decreases s.len(),
{
    if s.len() == 0 {
        -1
    } else if s.last() == c {
        s.len() - 1
    } else {
        last_index_of(s.drop_last(), c)
    }
}

proof fn lemma_last_index_of(s: Seq<char>, c: char)
    ensures
        -1 <= last_index_of(s, c) < s.len(),
        last_index_of(s, c) >= 0 ==> s[last_index_of(s, c)] == c,
        forall|j: int| last_index_of(s, c) < j < s.len() ==> s[j] != c,
    decreases s.len(),
{
    if s.len() > 0 && s.last() != c {
        lemma_last_index_of(s.drop_last(), c);
        assert forall|j: int| last_index_of(s, c) < j < s.len() implies s[j] != c by {
            if j < s.len() - 1 {
                assert(s[j] == s.drop_last()[j]);
            }
        }
    }
}

proof fn lemma_last_index_of_is(s: Seq<char>, c: char, k: int)
    requires
        -1 <= k < s.len(),
        k >= 0 ==> s[k] == c,
        forall|j: int| k < j < s.len() ==> s[j] != c,
    ensures
        last_index_of(s, c) == k,
    decreases s.len(),
{
    if s.len() > 0 && k < s.len() - 1 {
        assert(s.last() == s[s.len() - 1]);
        assert forall|j: int| k < j < s.len() - 1 implies s.drop_last()[j] != c by {
            assert(s.drop_last()[j] == s[j]);
        }
        if k >= 0 {
            assert(s.drop_last()[k] == s[k]);
        }
        lemma_last_index_of_is(s.drop_last(), c, k);
    }
}

/// The final component of a `/`-separated path, as `Path::file_name` gives
/// it: empty and `.` segments are skipped, and a final `..` (or no component
/// at all) gives nothing.
pub open spec fn file_name(p: Seq<char>) -> Option<Seq<char>>
    decreases p.len(),
{
    let k = last_index_of(p, '/');
    let seg = p.subrange(k + 1, p.len() as int);
    if seg.len() == 0 || seg == seq!['.'] {
        if k < 0 || !(0 <= k < p.len()) {
            None
        } else {
            file_name(p.subrange(0, k))
        }
    } else if seg == seq!['.', '.'] {
        None
    } else {
        Some(seg)
    }
}

/// The final path component of `p` (`Path::file_name`), if any.
pub fn path_file_name(p: &str) -> (r: Option<String>)
    ensures
        match r {
            Some(s) => file_name(p@) == Some(s@),
            None => file_name(p@) is None,
        },
{
    let v = chars_of(p);
    let mut end: usize = v.len();
    let ghost mut cur: Seq<char> = v@;
    loop
        invariant
            end <= v@.len(),
            cur == v@.subrange(0, end as int),
            file_name(p@) == file_name(cur),
            v@ == p@,
        decreases end,
    {
        let mut k: usize = end;
        while k > 0 && v[k - 1] != '/'
            invariant
                k <= end <= v@.len(),
                forall|j: int| k <= j < end ==> v@[j] != '/',
            decreases k,
        {
            k = k - 1;
        }
        proof {
            if k > 0 {
                assert(cur[k - 1] == v@[k - 1]);
            }
            assert forall|j: int| (k as int) - 1 < j < cur.len() implies cur[j] != '/' by {
                assert(cur[j] == v@[j]);
            }
            lemma_last_index_of_is(cur, '/', (k as int) - 1);
        }
        let ghost seg = cur.subrange(k as int, end as int);
        let seg_len = end - k;
        let is_dot = seg_len == 1 && v[k] == '.';
        let is_dotdot = seg_len == 2 && v[k] == '.' && v[k + 1] == '.';
        proof {
            assert(seq!['.'].len() == 1);
            assert(seq!['.', '.'].len() == 2);
            assert(seg.len() == seg_len);
            if seg_len == 1 {
                assert(seg[0] == v@[k as int]);
                if is_dot {
                    assert(seg =~= seq!['.']);
                } else {
                    assert(seg != seq!['.']);
                }
                assert(seg != seq!['.', '.']);
            } else if seg_len == 2 {
                assert(seg[0] == v@[k as int]);
                assert(seg[1] == v@[k + 1]);
                if is_dotdot {
                    assert(seg =~= seq!['.', '.']);
                } else {
                    assert(seg != seq!['.', '.']);
                }
                assert(seg != seq!['.']);
            } else {
                assert(seg.len() != 1 && seg.len() != 2);
            }
        }
        if seg_len == 0 || is_dot {
            if k == 0 {
                return None;
            }
            end = k - 1;
            proof {
                assert(cur.subrange(0, k - 1) =~= v@.subrange(0, end as int));
                cur = v@.subrange(0, end as int);
            }
        } else if is_dotdot {
            return None;
        } else {
            let mut out: Vec<char> = Vec::new();
            let mut i: usize = k;
            while i < end
                invariant
                    k <= i <= end <= v@.len(),
                    out@ == v@.subrange(k as int, i as int),
                decreases end - i,
            {
                out.push(v[i]);
                proof {
                    assert(v@.subrange(k as int, i as int).push(v@[i as int]) =~= v@.subrange(
                        k as int,
                        i + 1,
                    ));
                }
                i = i + 1;
            }
            assert(out@ =~= seg);
            return Some(string_from_chars(out.as_slice()));
        }
    }
}

/// The first `k` characters of `v`.
pub fn slice_prefix(v: &[char], k: usize) -> (r: &[char])
    requires
        k <= v@.len(),
    ensures
        r@ == v@.take(k as int),
{
    vstd::slice::slice_subrange(v, 0, k)
}

/// A line as `str::lines` yields it: a trailing carriage return is dropped.
pub open spec fn strip_cr(l: Seq<char>) -> Seq<char> {
    if l.len() > 0 && l.last() == '\r' {
        l.drop_last()
    } else {
        l
    }
}

/// The index of the first `c` in `s`, or -1.
pub open spec fn index_of(s: Seq<char>, c: char) -> int
    decreases s.len(),
{
    if s.len() == 0 {
        -1
    } else if s[0] == c {
        0
    } else {
        let k = index_of(s.drop_first(), c);
        if k < 0 {
            -1
        } else {
            k + 1
        }
    }
}

pub proof fn lemma_index_of(s: Seq<char>, c: char)
    ensures
        -1 <= index_of(s, c) < s.len(),
        index_of(s, c) >= 0 ==> s[index_of(s, c)] == c,
        forall|j: int| 0 <= j < s.len() && (index_of(s, c) < 0 || j < index_of(s, c)) ==> s[j] != c,
    decreases s.len(),
{
    if s.len() > 0 && s[0] != c {
        lemma_index_of(s.drop_first(), c);
        assert forall|j: int| 0 <= j < s.len() && (index_of(s, c) < 0 || j < index_of(s, c)) implies s[j] != c by {
            if j > 0 {
                assert(s[j] == s.drop_first()[j - 1]);
            }
        }
    }
}

pub proof fn lemma_index_of_is(s: Seq<char>, c: char, k: int)
    requires
        -1 <= k < s.len(),
        k >= 0 ==> s[k] == c,
        forall|j: int| 0 <= j < s.len() && (k < 0 || j < k) ==> s[j] != c,
    ensures
        index_of(s, c) == k,
    decreases s.len(),
{
    if s.len() > 0 && k != 0 {
        assert(s[0] != c);
        let t = s.drop_first();
        assert forall|j: int| 0 <= j < t.len() && (k - 1 < 0 || j < k - 1) implies t[j] != c by {
            assert(t[j] == s[j + 1]);
        }
        if k > 0 {
            assert(t[k - 1] == s[k]);
            lemma_index_of_is(t, c, k - 1);
        } else {
            lemma_index_of_is(t, c, -1);
        }
    }
}

/// The lines of `s`, as `str::lines` splits them.
pub open spec fn lines(s: Seq<char>) -> Seq<Seq<char>>
    decreases s.len(),
{
    if s.len() == 0 {
        seq![]
    } else {
        let k = index_of(s, '\n');
        if k < 0 {
            seq![strip_cr(s)]
        } else {
            proof {
                lemma_index_of(s, '\n');
            }
            seq![strip_cr(s.take(k))] + lines(s.skip(k + 1))
        }
    }
}

/// The items of `parts` joined with `sep` between them.
pub open spec fn join(parts: Seq<Seq<char>>, sep: Seq<char>) -> Seq<char>
    decreases parts.len(),
{
    if parts.len() == 0 {
        seq![]
    } else if parts.len() == 1 {
        parts[0]
    } else {
        join(parts.drop_last(), sep) + sep + parts.last()
    }
}

/// What occurs in a part occurs in the whole.
pub proof fn lemma_contains_in_concat(a: Seq<char>, b: Seq<char>, pat: Seq<char>)
    ensures
        contains_seq(a, pat) ==> contains_seq(a + b, pat),
        contains_seq(b, pat) ==> contains_seq(a + b, pat),
{
    if contains_seq(a, pat) {
        let i = choose|i: int| 0 <= i <= a.len() - pat.len() && #[trigger] a.subrange(i, i + pat.len()) == pat;
        assert((a + b).subrange(i, i + pat.len()) =~= a.subrange(i, i + pat.len()));
    }
    if contains_seq(b, pat) {
        let i = choose|i: int| 0 <= i <= b.len() - pat.len() && #[trigger] b.subrange(i, i + pat.len()) == pat;
        assert((a + b).subrange(a.len() + i, a.len() + i + pat.len()) =~= b.subrange(i, i + pat.len()));
    }
}

/// What occurs in a part of a text occurs in the text.
pub proof fn lemma_contains_trans(s: Seq<char>, mid: Seq<char>, pat: Seq<char>)
    requires
        contains_seq(s, mid),
        contains_seq(mid, pat),
    ensures
        contains_seq(s, pat),
{
    let i = choose|i: int| 0 <= i <= s.len() - mid.len() && #[trigger] s.subrange(i, i + mid.len()) == mid;
    let j = choose|j: int| 0 <= j <= mid.len() - pat.len() && #[trigger] mid.subrange(j, j + pat.len()) == pat;
    assert(s.subrange(i + j, i + j + pat.len()) =~= mid.subrange(j, j + pat.len()));
}

/// Every part occurs in the parts joined.
pub proof fn lemma_join_contains(parts: Seq<Seq<char>>, sep: Seq<char>, k: int)
    requires
        0 <= k < parts.len(),
    ensures
        contains_seq(join(parts, sep), parts[k]),
    decreases parts.len(),
{
    let p = parts[k];
    assert(p.subrange(0int, 0int + p.len()) =~= p);
    assert(contains_seq(p, p));
    if parts.len() == 1 {
        assert(join(parts, sep) == p);
    } else {
        if k == parts.len() - 1 {
            lemma_contains_in_concat(join(parts.drop_last(), sep) + sep, p, p);
            assert(join(parts.drop_last(), sep) + sep + p == join(parts, sep));
        } else {
            assert(parts.drop_last()[k] == p);
            lemma_join_contains(parts.drop_last(), sep, k);
            lemma_contains_in_concat(join(parts.drop_last(), sep), sep + parts.last(), p);
            assert(join(parts.drop_last(), sep) + (sep + parts.last()) =~= join(parts, sep));
        }
    }
}

/// The first `n` lines of `s`, joined with newlines.
pub fn first_lines(s: &str, n: usize) -> (r: String)
    ensures
        r@ == join(lines(s@).take(if lines(s@).len() < n { lines(s@).len() as int } else { n as int }), "\n"@),
{
    let v = chars_of(s);
    let mut pos: usize = 0;
    let mut taken: usize = 0;
    let mut out = String::new();
    let ghost full = lines(s@);
    proof {
        assert(v@.skip(0) =~= v@);
    }
    while pos < v.len() && taken < n
        invariant
            v@ == s@,
            pos <= v@.len(),
            taken <= n,
            full == lines(s@),
            taken + lines(v@.skip(pos as int)).len() == full.len(),
            forall|j: int| 0 <= j < lines(v@.skip(pos as int)).len() ==> full[taken + j] == #[trigger] lines(v@.skip(pos as int))[j],
            out@ == join(full.take(taken as int), "\n"@),
        decreases v@.len() - pos,
    {
        let ghost rest = v@.skip(pos as int);
        let mut e: usize = pos;
        while e < v.len() && v[e] != '\n'
            invariant
                pos <= e <= v@.len(),
                forall|j: int| pos <= j < e ==> v@[j] != '\n',
            decreases v@.len() - e,
        {
            e = e + 1;
        }
        let mut le: usize = e;
        if le > pos && v[le - 1] == '\r' {
            le = le - 1;
        }
        let piece = string_from_chars(vstd::slice::slice_subrange(v.as_slice(), pos, le));
        proof {
            let k: int = if e < v@.len() { (e - pos) as int } else { -1 };
            assert forall|j: int| 0 <= j < rest.len() && (k < 0 || j < k) implies rest[j] != '\n' by {
                assert(rest[j] == v@[pos + j]);
            }
            if k >= 0 {
                assert(rest[k] == v@[e as int]);
            }
            lemma_index_of_is(rest, '\n', k);
            let line = if k < 0 { rest } else { rest.take(k) };
            assert(line =~= v@.subrange(pos as int, e as int));
            assert(strip_cr(line) =~= v@.subrange(pos as int, le as int));
            if k >= 0 {
                assert(rest.skip(k + 1) =~= v@.skip(e + 1));
            }
            assert(lines(rest)[0] == strip_cr(line));
            assert(full[taken as int] == strip_cr(line));
            assert(full.take(taken + 1).drop_last() =~= full.take(taken as int));
        }
        if taken > 0 {
            out.append("\n");
        }
        out.append(piece.as_str());
        proof {
            assert(full.take(taken + 1).last() == full[taken as int]);
            if taken == 0 {
                assert(full.take(1) =~= seq![full[0]]);
            }
        }
        taken = taken + 1;
        if e < v.len() {
            pos = e + 1;
            proof {
                let k = (e - pos + 0) as int;
                assert forall|j: int| 0 <= j < lines(v@.skip(pos as int)).len() implies full[taken + j] == #[trigger] lines(v@.skip(pos as int))[j] by {
                    let kk = (e - (pos - 1 - (e - (pos - 1)))) as int;
                    assert(lines(rest) =~= seq![lines(rest)[0]] + lines(v@.skip(pos as int)));
                    assert(lines(rest)[j + 1] == lines(v@.skip(pos as int))[j]);
                }
            }
        } else {
            pos = v.len();
            proof {
                assert(v@.skip(pos as int).len() == 0);
            }
        }
    }
    proof {
        if pos >= v@.len() {
            assert(v@.skip(pos as int).len() == 0);
        }
        let m: int = if full.len() < n { full.len() as int } else { n as int };
        assert(taken == m);
    }
    out
}

/// `a` orders before `b`, character by character as `str` ordering does
/// (code point order, which is the order of the UTF-8 bytes).
pub open spec fn seq_lt(a: Seq<char>, b: Seq<char>) -> bool
    decreases a.len(),
{
    if a.len() == 0 {
        b.len() > 0
    } else if b.len() == 0 {
        false
    } else if a[0] != b[0] {
        (a[0] as u32) < (b[0] as u32)
    } else {
        seq_lt(a.drop_first(), b.drop_first())
    }
}

fn chars_lt(a: &[char], b: &[char], i: usize) -> (r: bool)
    requires
        i <= a@.len(),
        i <= b@.len(),
    ensures
        r == seq_lt(a@.skip(i as int), b@.skip(i as int)),
    decreases a@.len() - i,
{
    let ghost sa = a@.skip(i as int);
    let ghost sb = b@.skip(i as int);
    if i == a.len() {
        assert(sa.len() == 0);
        i < b.len()
    } else if i == b.len() {
        false
    } else if a[i] != b[i] {
        assert(sa[0] == a@[i as int]);
        assert(sb[0] == b@[i as int]);
        (a[i] as u32) < (b[i] as u32)
    } else {
        assert(sa.drop_first() =~= a@.skip(i + 1));
        assert(sb.drop_first() =~= b@.skip(i + 1));
        chars_lt(a, b, i + 1)
    }
}

/// Whether `a` orders before `b`.
pub fn str_lt(a: &str, b: &str) -> (r: bool)
    ensures
        r == seq_lt(a@, b@),
{
    let va = chars_of(a);
    let vb = chars_of(b);
    assert(va@.skip(0) =~= va@);
    assert(vb@.skip(0) =~= vb@);
    chars_lt(va.as_slice(), vb.as_slice(), 0)
}

/// `pat` occurs in `s` (`str::contains`).
pub open spec fn contains_seq(s: Seq<char>, pat: Seq<char>) -> bool {
    exists|i: int| 0 <= i <= s.len() - pat.len() && #[trigger] s.subrange(i, i + pat.len()) == pat
}

/// Whether `pat` occurs in `s`.
pub fn str_contains(s: &str, pat: &str) -> (r: bool)
    ensures
        r == contains_seq(s@, pat@),
{
    let v = chars_of(s);
    let p = chars_of(pat);
    if p.len() > v.len() {
        return false;
    }
    if p.len() == 0 {
        assert(s@.subrange(0int, 0int + pat@.len()) =~= pat@);
        return true;
    }
    let n = v.len();
    let mut i: usize = 0;
    let last = n - p.len();
    while i <= last
        invariant
            0 < p@.len() <= v@.len(),
            n == v@.len(),
            last == v@.len() - p@.len(),
            i <= last + 1,
            v@ == s@,
            p@ == pat@,
            forall|j: int| 0 <= j < i ==> #[trigger] v@.subrange(j, j + p@.len()) != p@,
        decreases v@.len() - i,
    {
        let mut k: usize = 0;
        while k < p.len() && v[i + k] == p[k]
            invariant
                k <= p@.len(),
                i + p@.len() <= v@.len(),
                i <= last,
                n == v@.len(),
                last == v@.len() - p@.len(),
                v@ == s@,
                p@ == pat@,
                forall|m: int| 0 <= m < k ==> v@[i + m] == p@[m],
            decreases p@.len() - k,
        {
            k = k + 1;
        }
        if k == p.len() {
            assert(s@.subrange(i as int, i + pat@.len()) =~= pat@);
            return true;
        }
        assert(v@.subrange(i as int, i + p@.len())[k as int] != p@[k as int]);
        i = i + 1;
    }
    assert forall|j: int| 0 <= j <= s@.len() - pat@.len() implies #[trigger] s@.subrange(j, j + pat@.len()) != pat@ by {
        assert(v@.subrange(j, j + p@.len()) != p@);
    }
    false
}

/// The Unicode lower-case mapping of a string (`str::to_lowercase`).
pub uninterp spec fn lowercase(s: Seq<char>) -> Seq<char>;

/// Runs `str::to_lowercase`. The contract names its result: the full
/// Unicode lower-case mapping of the characters, which the library does not
/// restate.
#[verifier::external_body]
pub(crate) fn to_lower(s: &str) -> (r: String)
    ensures
        r@ == lowercase(s@),
{
    s.to_lowercase()
}

/// The words of `s`: its runs of characters other than whitespace, in order
/// (`str::split_whitespace`).
pub open spec fn words(s: Seq<char>) -> Seq<Seq<char>>
    decreases s.len(),
{
    if s.len() == 0 {
        Seq::empty()
    } else {
        let w = words(s.drop_last());
        let c = s.last();
        if is_ws(c) {
            w
        } else if s.len() > 1 && !is_ws(s[s.len() - 2]) {
            w.drop_last().push(w.last().push(c))
        } else {
            w.push(seq![c])
        }
    }
}

pub proof fn lemma_words_space(t: Seq<char>)
    requires
        t.len() > 0,
        is_ws(t.last()),
    ensures
        words(t) == words(t.drop_last()),
{
}

pub proof fn lemma_words_letter(t: Seq<char>, done: Seq<Seq<char>>, cur: Seq<char>)
    requires
        t.len() > 0,
        !is_ws(t.last()),
        words(t.drop_last()) == done + if cur.len() > 0 {
            seq![cur]
        } else {
            Seq::empty()
        },
        cur.len() > 0 <==> (t.len() > 1 && !is_ws(t[t.len() - 2])),
    ensures
        words(t) =~= done + seq![cur.push(t.last())],
{
    if cur.len() > 0 {
        assert((done + seq![cur]).drop_last() =~= done);
    } else {
        assert(cur.push(t.last()) =~= seq![t.last()]);
    }
}

/// The words of `s` (`str::split_whitespace`).
pub fn split_whitespace(s: &str) -> (r: Vec<String>)
    ensures
        r@.map_values(|w: String| w@) == words(s@),
{
    let cs = chars_of(s);
    let mut out: Vec<String> = Vec::new();
    let mut cur: Vec<char> = Vec::new();
    let mut i: usize = 0;
    assert(cs@.take(0) =~= Seq::<char>::empty());
    assert(out@.map_values(|w: String| w@) =~= Seq::<Seq<char>>::empty());
    while i < cs.len()
        invariant
            i <= cs@.len(),
            cs@ == s@,
            words(cs@.take(i as int)) == out@.map_values(|w: String| w@) + if cur@.len() > 0 {
                seq![cur@]
            } else {
                Seq::empty()
            },
            cur@.len() > 0 <==> (i > 0 && !is_ws(cs@[i - 1])),
        decreases cs@.len() - i,
    {
        let c = cs[i];
        let ghost t = cs@.take(i + 1);
        assert(t.drop_last() =~= cs@.take(i as int));
        assert(t.last() == c);
        let ghost done = out@.map_values(|w: String| w@);
        if is_whitespace(c) {
            proof {
                lemma_words_space(t);
            }
            if cur.len() > 0 {
                let ghost cv = cur@;
                out.push(string_from_chars(cur.as_slice()));
                assert(out@.map_values(|w: String| w@) =~= done.push(cv));
                cur = Vec::new();
            }
            assert(words(t) =~= out@.map_values(|w: String| w@) + Seq::<Seq<char>>::empty());
        } else {
            proof {
                lemma_words_letter(t, done, cur@);
            }
            cur.push(c);
        }
        i = i + 1;
    }
    assert(cs@.take(cs@.len() as int) =~= cs@);
    if cur.len() > 0 {
        let ghost done = out@.map_values(|w: String| w@);
        let ghost cv = cur@;
        out.push(string_from_chars(cur.as_slice()));
        assert(out@.map_values(|w: String| w@) =~= done.push(cv));
    } else {
        assert(words(s@) =~= out@.map_values(|w: String| w@));
    }
    out
}

/// Cutting a text to fit a byte budget keeps the longest prefix that fits,
/// on a character boundary: the characters kept take at most `max` bytes,
/// and keeping one more would exceed it.
pub proof fn law_fitting_prefix_is_longest(s: Seq<char>, max: nat)
    ensures
        fitting_prefix_len(s, max) <= s.len(),
        byte_len(s.take(fitting_prefix_len(s, max) as int)) <= max,
        fitting_prefix_len(s, max) < s.len() ==> byte_len(s.take(fitting_prefix_len(s, max) + 1int)) > max,
    decreases s.len(),
{
    if byte_len(s) <= max {
        assert(s.take(s.len() as int) =~= s);
    } else {
        let d = s.drop_last();
        law_fitting_prefix_is_longest(d, max);
        let f: int = fitting_prefix_len(d, max) as int;
        assert(s.take(f) =~= d.take(f));
        if f < d.len() {
            assert(s.take(f + 1) =~= d.take(f + 1));
        } else {
            assert(s.take(f + 1) =~= s);
        }
    }
}

/// A file name taken from a path is one real component: it is not empty,
/// holds no `/`, and is neither `.` nor `..`, so that a file opened by that
/// name inside a directory lies in that directory.
pub proof fn law_file_name_is_one_component(p: Seq<char>)
    ensures
        file_name(p) matches Some(n) ==> n.len() > 0 && !n.contains('/') && n != seq!['.'] && n != seq![
            '.',
            '.',
        ],
    decreases p.len(),
{
    lemma_last_index_of(p, '/');
    let k = last_index_of(p, '/');
    let seg = p.subrange(k + 1, p.len() as int);
    if seg.len() == 0 || seg == seq!['.'] {
        if 0 <= k < p.len() {
            law_file_name_is_one_component(p.subrange(0, k));
        }
    } else if seg != seq!['.', '.'] {
        assert forall|j: int| 0 <= j < seg.len() implies seg[j] != '/' by {
            assert(seg[j] == p[k + 1 + j]);
        }
    }
}

/// `seq_lt` never holds both ways.
pub proof fn lemma_seq_lt_asym(a: Seq<char>, b: Seq<char>)
    ensures
        !(seq_lt(a, b) && seq_lt(b, a)),
    decreases a.len(),
{
    if a.len() > 0 && b.len() > 0 && a[0] == b[0] {
        lemma_seq_lt_asym(a.drop_first(), b.drop_first());
    }
}

/// `seq_lt` is transitive.
pub proof fn lemma_seq_lt_trans(a: Seq<char>, b: Seq<char>, c: Seq<char>)
    requires
        seq_lt(a, b),
        seq_lt(b, c),
    ensures
        seq_lt(a, c),
    decreases a.len(),
{
    if a.len() > 0 && b.len() > 0 && c.len() > 0 && a[0] == b[0] && b[0] == c[0] {
        lemma_seq_lt_trans(a.drop_first(), b.drop_first(), c.drop_first());
    }
}

/// Of two different texts, one orders before the other.
pub proof fn lemma_seq_lt_total(a: Seq<char>, b: Seq<char>)
    requires
        a != b,
    ensures
        seq_lt(a, b) || seq_lt(b, a),
    decreases a.len(),
{
    if a.len() == 0 {
        assert(b.len() > 0) by {
            if b.len() == 0 {
                assert(a =~= b);
            }
        }
    } else if b.len() > 0 && a[0] == b[0] {
        if a.drop_first() == b.drop_first() {
            assert(a =~= seq![a[0]] + a.drop_first());
            assert(b =~= seq![b[0]] + b.drop_first());
        }
        lemma_seq_lt_total(a.drop_first(), b.drop_first());
    } else if b.len() > 0 {
        let x = a[0];
        let y = b[0];
        vstd::utf8::char_u32_cast(x, x as u32);
        vstd::utf8::char_u32_cast(y, y as u32);
        assert((x as u32) != (y as u32));
    }
}

} // verus!
