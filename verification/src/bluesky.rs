//! Bluesky posting: link, hashtag and mention detection in post text, and
//! the facets (byte ranges with a feature) that make them rich text.
use vstd::prelude::*;
use crate::framework::{metadata_is, ToolCategory, ToolError, ToolMetadata, ToolType};
use crate::json::{text_at, JsonValue};
use crate::text::{byte_len, chars_of, copy_str, exec_utf8_len, string_from_chars, utf8_len};

verus! {

/// The number of occurrences of `c` in `s`.
pub open spec fn count_char(s: Seq<char>, c: char) -> nat
    decreases s.len(),
{
    if s.len() == 0 {
        0
    } else {
        count_char(s.drop_last(), c) + if s.last() == c {
            1nat
        } else {
            0nat
        }
    }
}

/// Whether the last character of `s` is sentence punctuation rather than
/// part of a link or tag: `.,;:!?'"` always are; a closing bracket is when
/// it is unbalanced within `s`.
pub open spec fn trailing_is_punctuation(s: Seq<char>) -> bool {
    let ch = s.last();
    ||| ch == '.' || ch == ',' || ch == ';' || ch == ':' || ch == '!' || ch == '?' || ch == '\''
        || ch == '"'
    ||| ch == ')' && count_char(s, '(') < count_char(s, ')')
    ||| ch == ']' && count_char(s, '[') < count_char(s, ']')
    ||| ch == '}' && count_char(s, '{') < count_char(s, '}')
}

/// `s` with trailing sentence punctuation removed.
pub open spec fn trim_punct(s: Seq<char>) -> Seq<char>
    decreases s.len(),
{
    if s.len() > 0 && trailing_is_punctuation(s) {
        trim_punct(s.drop_last())
    } else {
        s
    }
}

fn count_in(v: &[char], end: usize, c: char) -> (n: usize)
    requires
        end <= v@.len(),
    ensures
        n == count_char(v@.take(end as int), c),
{
    let mut n: usize = 0;
    let mut i: usize = 0;
    assert(v@.take(0) =~= seq![]);
    while i < end
        invariant
            i <= end <= v@.len(),
            n == count_char(v@.take(i as int), c),
            n <= i,
        decreases end - i,
    {
        assert(v@.take(i + 1).drop_last() =~= v@.take(i as int));
        if v[i] == c {
            n = n + 1;
        }
        i = i + 1;
    }
    n
}

/// The number of occurrences of `c` in `s`.
pub fn count_matches(s: &str, c: char) -> (n: usize)
    ensures
        n == count_char(s@, c),
{
    let v = chars_of(s);
    assert(v@.take(v@.len() as int) =~= v@);
    count_in(v.as_slice(), v.len(), c)
}

/// The characters of `v` with trailing sentence punctuation removed.
pub fn trim_trailing_punctuation_chars(v: &[char]) -> (r: Vec<char>)
    ensures
        r@ == trim_punct(v@),
        r@ == v@.take(r@.len() as int),
        r@.len() <= v@.len(),
{
    let mut end: usize = v.len();
    assert(v@.take(end as int) =~= v@);
    loop
        invariant
            end <= v@.len(),
            trim_punct(v@) == trim_punct(v@.take(end as int)),
        ensures
            end <= v@.len(),
            trim_punct(v@) == v@.take(end as int),
        decreases end,
    {
        if end == 0 {
            assert(v@.take(0).len() == 0);
            break;
        }
        let ghost t = v@.take(end as int);
        let ch = v[end - 1];
        assert(t.last() == ch);
        let should_trim = if ch == '.' || ch == ',' || ch == ';' || ch == ':' || ch == '!' || ch
            == '?' || ch == '\'' || ch == '"' {
            true
        } else if ch == ')' {
            count_in(v, end, '(') < count_in(v, end, ')')
        } else if ch == ']' {
            count_in(v, end, '[') < count_in(v, end, ']')
        } else if ch == '}' {
            count_in(v, end, '{') < count_in(v, end, '}')
        } else {
            false
        };
        assert(should_trim == trailing_is_punctuation(t));
        if !should_trim {
            break;
        }
        assert(t.drop_last() =~= v@.take(end - 1));
        end = end - 1;
    }
    let mut r: Vec<char> = Vec::new();
    let mut i: usize = 0;
    while i < end
        invariant
            i <= end <= v@.len(),
            r@ == v@.take(i as int),
        decreases end - i,
    {
        r.push(v[i]);
        assert(v@.take(i as int).push(v@[i as int]) =~= v@.take(i + 1));
        i = i + 1;
    }
    r
}

/// Strips trailing punctuation that is sentence formatting rather than part
/// of a URL or hashtag (`"check #rust."` gives `"#rust"`); closing brackets
/// are trimmed only when unbalanced within the text.
pub fn trim_trailing_punctuation(s: &str) -> (r: String)
    ensures
        r@ == trim_punct(s@),
{
    let v = chars_of(s);
    let t = trim_trailing_punctuation_chars(v.as_slice());
    string_from_chars(t.as_slice())
}


/// Links: whitespace (or the start of the text) and then an `http(s)://` URL.
pub const URL_PATTERN: &'static str = "(?:^|\\s)(https?://[^\\s]+)";

/// Hashtags: whitespace (or the start) and then `#` with no space or `#`.
pub const TAG_PATTERN: &'static str = "(?:^|\\s)(#[^\\s#]+)";

/// Mentions: whitespace (or the start) and then `@` and a domain-like handle.
pub const MENTION_PATTERN: &'static str = "(?:^|\\s)(@[a-zA-Z0-9](?:[a-zA-Z0-9-]*[a-zA-Z0-9])?(?:\\.[a-zA-Z0-9](?:[a-zA-Z0-9-]*[a-zA-Z0-9])?)+)";

/// The successive matches of `pattern` in `text`, each as the byte start and
/// byte end of its first group and the group's text.
pub uninterp spec fn group_one_matches(pattern: Seq<char>, text: Seq<char>) -> Seq<(usize, usize, Seq<char>)>;

/// One of the three patterns above.
pub open spec fn known_pattern(pattern: Seq<char>) -> bool {
    pattern == URL_PATTERN@ || pattern == TAG_PATTERN@ || pattern == MENTION_PATTERN@
}

/// A match as the library sees it: the group's text by its view.
pub open spec fn match_view(m: (usize, usize, String)) -> (usize, usize, Seq<char>) {
    (m.0, m.1, m.2@)
}

/// Whether `piece` stands in `text` at byte `start`: from the character
/// boundary at that byte on, the next characters are `piece`.
pub open spec fn located(text: Seq<char>, start: int, piece: Seq<char>) -> bool {
    exists|a: int|
        0 <= a && a + piece.len() <= text.len() && #[trigger] byte_len(text.take(a)) == start
            && text.subrange(a, a + piece.len()) == piece
}

/// Runs `regex::Regex::captures_iter` for `pattern` over `text` and keeps the
/// first group of each match. The contract claims that the result is the
/// matches named by `group_one_matches`, and, as the crate documents of
/// `Match`, that each group's text is the text between its start and end,
/// which fall on character boundaries; a hashtag's group starts with the
/// `#` the pattern spells out.
#[verifier::external_body]
fn capture_group_one(pattern: &str, text: &str) -> (r: Vec<(usize, usize, String)>)
    requires
        known_pattern(pattern@),
    ensures
        r@.map_values(|m: (usize, usize, String)| match_view(m)) == group_one_matches(pattern@, text@),
        forall|i: int|
            0 <= i < r@.len() ==> #[trigger] r@[i].0 <= r@[i].1 && r@[i].1 - r@[i].0 == byte_len(
                r@[i].2@,
            ) && located(text@, r@[i].0 as int, r@[i].2@) && (pattern@ == TAG_PATTERN@ ==> r@[i].2@.len()
                > 0 && r@[i].2@[0] == '#'),
{
    let re = regex::Regex::new(pattern).unwrap();
    re.captures_iter(text).map(|c| {
        let m = c.get(1).unwrap();
        (m.start(), m.end(), m.as_str().to_string())
    }).collect()
}

/// What a facet marks.
#[derive(Debug, Clone, Copy, PartialEq, Eq, Structural)]
pub enum FacetKind {
    /// A link; the value is the URI.
    Link,
    /// A hashtag; the value is the tag without `#`.
    Tag,
    /// A mention; the value is the DID of the account.
    Mention,
}

/// A rich-text facet: a byte range of the post text and what it marks.
#[derive(Debug)]
pub struct Facet {
    pub byte_start: usize,
    pub byte_end: usize,
    pub kind: FacetKind,
    pub value: String,
}

/// A facet as plain values.
pub open spec fn facet_view(f: Facet) -> (usize, usize, FacetKind, Seq<char>) {
    (f.byte_start, f.byte_end, f.kind, f.value@)
}

/// Whether `pos` falls in one of the byte ranges.
pub open spec fn in_ranges(occupied: Seq<(usize, usize)>, pos: usize) -> bool {
    exists|i: int| 0 <= i < occupied.len() && occupied[i].0 <= pos < #[trigger] occupied[i].1
}

/// The link facets of the URL matches, with the ranges they claim.
pub open spec fn link_scan(ms: Seq<(usize, usize, Seq<char>)>) -> (
    Seq<(usize, usize, FacetKind, Seq<char>)>,
    Seq<(usize, usize)>,
)
    decreases ms.len(),
{
    if ms.len() == 0 {
        (Seq::empty(), Seq::empty())
    } else {
        let (fs, occ) = link_scan(ms.drop_last());
        let m = ms.last();
        let t = trim_punct(m.2);
        if t.len() == 0 {
            (fs, occ)
        } else {
            let end = (m.0 + byte_len(t)) as usize;
            (fs.push((m.0, end, FacetKind::Link, t)), occ.push((m.0, end)))
        }
    }
}

/// The tag facets of the hashtag matches that start outside `occ0` and the
/// ranges claimed before them, with the ranges claimed at the end.
pub open spec fn tag_scan(occ0: Seq<(usize, usize)>, ms: Seq<(usize, usize, Seq<char>)>) -> (
    Seq<(usize, usize, FacetKind, Seq<char>)>,
    Seq<(usize, usize)>,
)
    decreases ms.len(),
{
    if ms.len() == 0 {
        (Seq::empty(), occ0)
    } else {
        let (fs, occ) = tag_scan(occ0, ms.drop_last());
        let m = ms.last();
        let t = trim_punct(m.2);
        if in_ranges(occ, m.0) || byte_len(t) <= 1 {
            (fs, occ)
        } else {
            let end = (m.0 + byte_len(t)) as usize;
            (fs.push((m.0, end, FacetKind::Tag, t.drop_first())), occ.push((m.0, end)))
        }
    }
}

/// The link and hashtag facets of `text` and the byte ranges they claim.
pub open spec fn link_and_tag_facets(text: Seq<char>) -> (
    Seq<(usize, usize, FacetKind, Seq<char>)>,
    Seq<(usize, usize)>,
) {
    let (links, occ) = link_scan(group_one_matches(URL_PATTERN@, text));
    let (tags, occ2) = tag_scan(occ, group_one_matches(TAG_PATTERN@, text));
    (links + tags, occ2)
}

/// A handle without its leading `@`.
pub open spec fn without_at(raw: Seq<char>) -> Seq<char> {
    if raw.len() == 0 {
        raw
    } else {
        raw.drop_first()
    }
}

/// The mention matches that start outside the claimed ranges, as
/// `(start, end, handle)`.
pub open spec fn mention_scan(occ: Seq<(usize, usize)>, ms: Seq<(usize, usize, Seq<char>)>) -> Seq<
    (usize, usize, Seq<char>),
>
    decreases ms.len(),
{
    if ms.len() == 0 {
        Seq::empty()
    } else {
        let rest = mention_scan(occ, ms.drop_last());
        let m = ms.last();
        if in_ranges(occ, m.0) {
            rest
        } else {
            rest.push((m.0, m.1, without_at(m.2)))
        }
    }
}

proof fn lemma_byte_len_le_take(s: Seq<char>, k: int)
    requires
        0 <= k <= s.len(),
    ensures
        byte_len(s.take(k)) <= byte_len(s),
{
    assert(s.take(s.len() as int) =~= s);
    crate::text::lemma_byte_len_mono(s, k, s.len() as int);
}

/// The byte length of the characters of `v`, which must fit in `usize`.
fn chars_byte_len(v: &[char]) -> (n: usize)
    requires
        byte_len(v@) <= usize::MAX,
    ensures
        n == byte_len(v@),
{
    let mut n: usize = 0;
    let mut i: usize = 0;
    assert(v@.take(0) =~= Seq::<char>::empty());
    while i < v.len()
        invariant
            i <= v@.len(),
            n == byte_len(v@.take(i as int)),
            byte_len(v@) <= usize::MAX,
        decreases v@.len() - i,
    {
        proof {
            crate::text::lemma_byte_len_take(v@, i as int);
            lemma_byte_len_le_take(v@, i + 1);
        }
        n = n + exec_utf8_len(v[i]);
        i = i + 1;
    }
    assert(v@.take(v@.len() as int) =~= v@);
    n
}

/// Whether `pos` falls in one of the ranges.
fn in_any(occupied: &Vec<(usize, usize)>, pos: usize) -> (b: bool)
    ensures
        b == in_ranges(occupied@, pos),
{
    let mut i: usize = 0;
    while i < occupied.len()
        invariant
            i <= occupied@.len(),
            forall|j: int| 0 <= j < i ==> !(occupied@[j].0 <= pos < #[trigger] occupied@[j].1),
        decreases occupied@.len() - i,
    {
        let (s, e) = occupied[i];
        if pos >= s && pos < e {
            return true;
        }
        i = i + 1;
    }
    false
}

/// The trimmed text of a match, its byte length, and the end of its range.
fn trimmed_match(m: &(usize, usize, String)) -> (r: (Vec<char>, usize))
    requires
        m.0 <= m.1,
        m.1 - m.0 == byte_len(m.2@),
    ensures
        r.0@ == trim_punct(m.2@),
        r.1 == byte_len(r.0@),
        m.0 + r.1 <= m.1,
{
    let v = chars_of(m.2.as_str());
    let t = trim_trailing_punctuation_chars(v.as_slice());
    proof {
        lemma_byte_len_le_take(v@, t@.len() as int);
    }
    let n = chars_byte_len(t.as_slice());
    (t, n)
}

/// The characters of `v` after the first one (none when `v` is empty).
fn after_first(v: &[char]) -> (r: String)
    ensures
        r@ == without_at(v@),
{
    if v.len() == 0 {
        String::new()
    } else {
        let rest = vstd::slice::slice_subrange(v, 1, v.len());
        assert(rest@ =~= v@.drop_first());
        string_from_chars(rest)
    }
}

/// Whether a facet, as plain values, marks its own text: its byte range
/// spells a link's URI, or `#` and a hashtag's tag, which is never empty.
pub open spec fn marks_its_text(text: Seq<char>, f: (usize, usize, FacetKind, Seq<char>)) -> bool {
    match f.2 {
        FacetKind::Link => located(text, f.0 as int, f.3) && f.1 - f.0 == byte_len(f.3),
        FacetKind::Tag => located(text, f.0 as int, seq!['#'] + f.3) && f.3.len() > 0 && f.1 - f.0
            == byte_len(seq!['#'] + f.3),
        FacetKind::Mention => true,
    }
}

proof fn lemma_trim_punct_prefix(s: Seq<char>)
    ensures
        trim_punct(s).len() <= s.len(),
        trim_punct(s) == s.take(trim_punct(s).len() as int),
    decreases s.len(),
{
    if s.len() > 0 && trailing_is_punctuation(s) {
        lemma_trim_punct_prefix(s.drop_last());
        assert(s.drop_last().take(trim_punct(s).len() as int) =~= s.take(trim_punct(s).len() as int));
    } else {
        assert(s.take(s.len() as int) =~= s);
    }
}

proof fn lemma_located_prefix(text: Seq<char>, start: int, piece: Seq<char>, k: int)
    requires
        located(text, start, piece),
        0 <= k <= piece.len(),
    ensures
        located(text, start, piece.take(k)),
{
    let a = choose|a: int|
        0 <= a && a + piece.len() <= text.len() && #[trigger] byte_len(text.take(a)) == start
            && text.subrange(a, a + piece.len()) == piece;
    assert(text.subrange(a, a + k) =~= piece.take(k));
}

/// The matches of a scan, each at its place in `text` and ending at its end.
pub open spec fn all_located(text: Seq<char>, ms: Seq<(usize, usize, Seq<char>)>) -> bool {
    forall|i: int|
        0 <= i < ms.len() ==> located(text, #[trigger] ms[i].0 as int, ms[i].2) && ms[i].0 + byte_len(ms[i].2)
            == ms[i].1
}

proof fn lemma_link_scan_marks(text: Seq<char>, ms: Seq<(usize, usize, Seq<char>)>)
    requires
        all_located(text, ms),
    ensures
        forall|j: int| 0 <= j < link_scan(ms).0.len() ==> #[trigger] link_scan(ms).0[j].2 == FacetKind::Link
            && marks_its_text(text, link_scan(ms).0[j]),
    decreases ms.len(),
{
    if ms.len() > 0 {
        let m = ms.last();
        assert(ms[ms.len() - 1] == m);
        assert(all_located(text, ms.drop_last())) by {
            assert forall|i: int| 0 <= i < ms.drop_last().len() implies located(
                text,
                #[trigger] ms.drop_last()[i].0 as int,
                ms.drop_last()[i].2,
            ) && ms.drop_last()[i].0 + byte_len(ms.drop_last()[i].2) == ms.drop_last()[i].1 by {
                assert(ms.drop_last()[i] == ms[i]);
            }
        }
        lemma_link_scan_marks(text, ms.drop_last());
        let t = trim_punct(m.2);
        lemma_trim_punct_prefix(m.2);
        lemma_located_prefix(text, m.0 as int, m.2, t.len() as int);
        lemma_byte_len_le_take(m.2, t.len() as int);
    }
}

proof fn lemma_tag_scan_marks(text: Seq<char>, occ0: Seq<(usize, usize)>, ms: Seq<(usize, usize, Seq<char>)>)
    requires
        all_located(text, ms),
        forall|i: int| 0 <= i < ms.len() ==> #[trigger] ms[i].2.len() > 0 && ms[i].2[0] == '#',
    ensures
        forall|j: int| 0 <= j < tag_scan(occ0, ms).0.len() ==> #[trigger] tag_scan(occ0, ms).0[j].2
            == FacetKind::Tag && marks_its_text(text, tag_scan(occ0, ms).0[j]),
    decreases ms.len(),
{
    if ms.len() > 0 {
        let m = ms.last();
        assert(ms[ms.len() - 1] == m);
        let rest = ms.drop_last();
        assert(all_located(text, rest)) by {
            assert forall|i: int| 0 <= i < rest.len() implies located(text, #[trigger] rest[i].0 as int, rest[i].2)
                && rest[i].0 + byte_len(rest[i].2) == rest[i].1 by {
                assert(rest[i] == ms[i]);
            }
        }
        assert forall|i: int| 0 <= i < rest.len() implies #[trigger] rest[i].2.len() > 0 && rest[i].2[0] == '#' by {
            assert(rest[i] == ms[i]);
        }
        lemma_tag_scan_marks(text, occ0, rest);
        let t = trim_punct(m.2);
        lemma_trim_punct_prefix(m.2);
        lemma_located_prefix(text, m.0 as int, m.2, t.len() as int);
        lemma_byte_len_le_take(m.2, t.len() as int);
        if byte_len(t) > 1 {
            assert(t.len() > 0);
            assert(t[0] == m.2[0]);
            assert(seq!['#'] + t.drop_first() =~= t);
            if t.len() == 1 {
                assert(t.drop_last() =~= Seq::<char>::empty());
                assert(byte_len(t) == byte_len(t.drop_last()) + utf8_len(t.last()));
                assert(utf8_len('#') == 1);
            }
        }
    }
}

/// Scans `text` for links and hashtags and builds their facets, with byte
/// offsets as the rich-text format requires; also returns the byte ranges
/// claimed, so that mentions inside them are skipped.
pub fn build_link_and_tag_facets(text: &str) -> (r: (Vec<Facet>, Vec<(usize, usize)>))
    ensures
        r.0@.map_values(|f: Facet| facet_view(f)) == link_and_tag_facets(text@).0,
        r.1@ == link_and_tag_facets(text@).1,
        forall|k: int| 0 <= k < r.0@.len() ==> marks_its_text(text@, #[trigger] facet_view(r.0@[k])),
{
    let mut facets: Vec<Facet> = Vec::new();
    let mut occupied: Vec<(usize, usize)> = Vec::new();
    let urls = capture_group_one(URL_PATTERN, text);
    let ghost ums = urls@.map_values(|m: (usize, usize, String)| match_view(m));
    let mut i: usize = 0;
    assert(ums.take(0) =~= Seq::<(usize, usize, Seq<char>)>::empty());
    assert(facets@.map_values(|f: Facet| facet_view(f)) =~= Seq::<(usize, usize, FacetKind, Seq<char>)>::empty());
    while i < urls.len()
        invariant
            i <= urls@.len(),
            ums == urls@.map_values(|m: (usize, usize, String)| match_view(m)),
            forall|k: int|
                0 <= k < urls@.len() ==> #[trigger] urls@[k].0 <= urls@[k].1 && urls@[k].1
                    - urls@[k].0 == byte_len(urls@[k].2@),
            facets@.map_values(|f: Facet| facet_view(f)) == link_scan(ums.take(i as int)).0,
            occupied@ == link_scan(ums.take(i as int)).1,
        decreases urls@.len() - i,
    {
        let m = &urls[i];
        assert(ums.take(i + 1).drop_last() =~= ums.take(i as int));
        assert(ums.take(i + 1).last() == match_view(*m));
        let ghost before = facets@.map_values(|f: Facet| facet_view(f));
        let (t, n) = trimmed_match(m);
        if t.len() > 0 {
            let start = m.0;
            let end = start + n;
            let uri = string_from_chars(t.as_slice());
            occupied.push((start, end));
            facets.push(Facet { byte_start: start, byte_end: end, kind: FacetKind::Link, value: uri });
            assert(facets@.map_values(|f: Facet| facet_view(f)) =~= before.push(
                (start, end, FacetKind::Link, t@),
            ));
        }
        i = i + 1;
    }
    assert(ums.take(ums.len() as int) =~= ums);
    let ghost links = facets@.map_values(|f: Facet| facet_view(f));
    let ghost occ = occupied@;
    let tags = capture_group_one(TAG_PATTERN, text);
    let ghost tms = tags@.map_values(|m: (usize, usize, String)| match_view(m));
    let mut j: usize = 0;
    assert(tms.take(0) =~= Seq::<(usize, usize, Seq<char>)>::empty());
    assert(links + tag_scan(occ, tms.take(0)).0 =~= links);
    while j < tags.len()
        invariant
            j <= tags@.len(),
            tms == tags@.map_values(|m: (usize, usize, String)| match_view(m)),
            forall|k: int|
                0 <= k < tags@.len() ==> #[trigger] tags@[k].0 <= tags@[k].1 && tags@[k].1
                    - tags@[k].0 == byte_len(tags@[k].2@),
            facets@.map_values(|f: Facet| facet_view(f)) == links + tag_scan(occ, tms.take(j as int)).0,
            occupied@ == tag_scan(occ, tms.take(j as int)).1,
        decreases tags@.len() - j,
    {
        let m = &tags[j];
        assert(tms.take(j + 1).drop_last() =~= tms.take(j as int));
        assert(tms.take(j + 1).last() == match_view(*m));
        let ghost before = facets@.map_values(|f: Facet| facet_view(f));
        if !in_any(&occupied, m.0) {
            let (t, n) = trimmed_match(m);
            if n > 1 {
                let start = m.0;
                let end = start + n;
                let tag = after_first(t.as_slice());
                assert(t@.len() > 0);
                occupied.push((start, end));
                facets.push(Facet { byte_start: start, byte_end: end, kind: FacetKind::Tag, value: tag });
                assert(facets@.map_values(|f: Facet| facet_view(f)) =~= before.push(
                    (start, end, FacetKind::Tag, t@.drop_first()),
                ));
            }
        }
        j = j + 1;
    }
    assert(tms.take(tms.len() as int) =~= tms);
    proof {
        assert(all_located(text@, ums)) by {
            assert forall|i: int| 0 <= i < ums.len() implies located(text@, #[trigger] ums[i].0 as int, ums[i].2)
                && ums[i].0 + byte_len(ums[i].2) == ums[i].1 by {
                assert(ums[i] == match_view(urls@[i]));
            }
        }
        assert(all_located(text@, tms)) by {
            assert forall|i: int| 0 <= i < tms.len() implies located(text@, #[trigger] tms[i].0 as int, tms[i].2)
                && tms[i].0 + byte_len(tms[i].2) == tms[i].1 by {
                assert(tms[i] == match_view(tags@[i]));
            }
        }
        assert forall|i: int| 0 <= i < tms.len() implies #[trigger] tms[i].2.len() > 0 && tms[i].2[0] == '#' by {
            assert(tms[i] == match_view(tags@[i]));
        }
        lemma_link_scan_marks(text@, ums);
        lemma_tag_scan_marks(text@, occ, tms);
        let all = facets@.map_values(|f: Facet| facet_view(f));
        assert forall|k: int| 0 <= k < facets@.len() implies marks_its_text(text@, #[trigger] facet_view(facets@[k])) by {
            assert(all[k] == facet_view(facets@[k]));
            if k >= links.len() {
                assert(all[k] == tag_scan(occ, tms).0[k - links.len()]);
            } else {
                assert(all[k] == links[k]);
            }
        }
    }
    (facets, occupied)
}

/// Finds `@handle.domain` mentions that start outside the claimed ranges, as
/// `(byte start, byte end, handle)`. Resolving a handle takes a network call
/// and is done separately.
pub fn find_mention_candidates(text: &str, occupied: &Vec<(usize, usize)>) -> (r: Vec<
    (usize, usize, String),
>)
    ensures
        r@.map_values(|m: (usize, usize, String)| match_view(m)) == mention_scan(
            occupied@,
            group_one_matches(MENTION_PATTERN@, text@),
        ),
{
    let ms = capture_group_one(MENTION_PATTERN, text);
    let ghost mv = ms@.map_values(|m: (usize, usize, String)| match_view(m));
    let mut r: Vec<(usize, usize, String)> = Vec::new();
    let mut i: usize = 0;
    assert(mv.take(0) =~= Seq::<(usize, usize, Seq<char>)>::empty());
    assert(r@.map_values(|m: (usize, usize, String)| match_view(m)) =~= Seq::<(usize, usize, Seq<char>)>::empty());
    while i < ms.len()
        invariant
            i <= ms@.len(),
            mv == ms@.map_values(|m: (usize, usize, String)| match_view(m)),
            r@.map_values(|m: (usize, usize, String)| match_view(m)) == mention_scan(
                occupied@,
                mv.take(i as int),
            ),
        decreases ms@.len() - i,
    {
        let m = &ms[i];
        assert(mv.take(i + 1).drop_last() =~= mv.take(i as int));
        assert(mv.take(i + 1).last() == match_view(*m));
        let ghost before = r@.map_values(|m: (usize, usize, String)| match_view(m));
        if !in_any(occupied, m.0) {
            let v = chars_of(m.2.as_str());
            let handle = after_first(v.as_slice());
            r.push((m.0, m.1, handle));
            assert(r@.map_values(|m: (usize, usize, String)| match_view(m)) =~= before.push(
                (m.0, m.1, without_at(m.2@)),
            ));
        }
        i = i + 1;
    }
    assert(mv.take(mv.len() as int) =~= mv);
    r
}

/// Facets ordered by their byte start.
pub open spec fn sorted_by_start(fs: Seq<Facet>) -> bool {
    forall|i: int, j: int| 0 <= i <= j < fs.len() ==> fs[i].byte_start <= fs[j].byte_start
}

/// The facets that start at byte `s`, in their order.
pub open spec fn starting_at(fs: Seq<Facet>, s: usize) -> Seq<Facet> {
    fs.filter(|f: Facet| f.byte_start == s)
}

proof fn lemma_none_start_at(fs: Seq<Facet>, s: usize)
    requires
        forall|i: int| 0 <= i < fs.len() ==> #[trigger] fs[i].byte_start != s,
    ensures
        starting_at(fs, s) == Seq::<Facet>::empty(),
    decreases fs.len(),
{
    reveal(Seq::filter);
    if fs.len() > 0 {
        lemma_none_start_at(fs.drop_last(), s);
    }
}

proof fn lemma_start_at_push(fs: Seq<Facet>, f: Facet, s: usize)
    ensures
        starting_at(fs.push(f), s) == if f.byte_start == s {
            starting_at(fs, s).push(f)
        } else {
            starting_at(fs, s)
        },
{
    reveal(Seq::filter);
    assert(fs.push(f).drop_last() =~= fs);
}

/// Inserting `f` at `k`, before everything at or after its start, adds it
/// first among the facets with its start and leaves the others alone.
proof fn lemma_start_at_insert(before: Seq<Facet>, f: Facet, k: int, s: usize)
    requires
        0 <= k <= before.len(),
        forall|i: int| 0 <= i < k ==> #[trigger] before[i].byte_start < f.byte_start,
    ensures
        starting_at(before.insert(k, f), s) == if f.byte_start == s {
            seq![f] + starting_at(before, s)
        } else {
            starting_at(before, s)
        },
{
    let head = before.take(k);
    let tail = before.skip(k);
    assert(before =~= head + tail);
    assert(before.insert(k, f) =~= head + seq![f] + tail);
    let p = |x: Facet| x.byte_start == s;
    Seq::filter_distributes_over_add(head + seq![f], tail, p);
    Seq::filter_distributes_over_add(head, seq![f], p);
    Seq::filter_distributes_over_add(head, tail, p);
    lemma_start_at_push(Seq::empty(), f, s);
    assert(Seq::<Facet>::empty().push(f) =~= seq![f]);
    lemma_none_start_at(Seq::empty(), s);
    if f.byte_start == s {
        lemma_none_start_at(head, s);
        assert(starting_at(head, s) + seq![f] =~= seq![f]);
    } else {
        assert(starting_at(head, s) + Seq::<Facet>::empty() =~= starting_at(head, s));
    }
}

/// Orders facets by byte start, keeping facets with equal starts in their
/// original order.
pub fn sort_facets(facets: Vec<Facet>) -> (r: Vec<Facet>)
    ensures
        sorted_by_start(r@),
        r@.to_multiset() == facets@.to_multiset(),
        forall|s: usize| #[trigger] starting_at(r@, s) == starting_at(facets@, s),
{
    let ghost input = facets@;
    let mut out: Vec<Facet> = Vec::new();
    let mut rest = facets;
    proof {
        assert(Seq::<Facet>::empty().to_multiset() =~= vstd::multiset::Multiset::empty()) by {
            broadcast use vstd::seq_lib::group_to_multiset_ensures;
        }
    }
    proof {
        assert forall|s: usize| #[trigger] starting_at(rest@, s) + starting_at(out@, s) == starting_at(
            input,
            s,
        ) by {
            lemma_none_start_at(out@, s);
            assert(starting_at(rest@, s) + Seq::<Facet>::empty() =~= starting_at(rest@, s));
        }
    }
    while rest.len() > 0
        invariant
            sorted_by_start(out@),
            out@.to_multiset().add(rest@.to_multiset()) == input.to_multiset(),
            forall|s: usize| #[trigger] starting_at(rest@, s) + starting_at(out@, s) == starting_at(input, s),
        decreases rest@.len(),
    {
        let ghost before_rest = rest@;
        let f = rest.pop().unwrap();
        proof {
            assert(before_rest =~= rest@.push(f));
            vstd::seq_lib::to_multiset_build(rest@, f);
        }
        let mut k: usize = out.len();
        while k > 0 && out[k - 1].byte_start >= f.byte_start
            invariant
                k <= out@.len(),
                sorted_by_start(out@),
                forall|j: int| k <= j < out@.len() ==> out@[j].byte_start >= f.byte_start,
            decreases k,
        {
            k = k - 1;
        }
        let ghost before = out@;
        out.insert(k, f);
        proof {
            vstd::seq_lib::to_multiset_insert(before, k as int, f);
            assert(out@ == before.insert(k as int, f));
            assert forall|i: int| 0 <= i < k implies #[trigger] before[i].byte_start < f.byte_start by {
                assert(before[k - 1].byte_start < f.byte_start);
                assert(before[i].byte_start <= before[k - 1].byte_start);
            }
            assert forall|s: usize| #[trigger] starting_at(rest@, s) + starting_at(out@, s) == starting_at(
                input,
                s,
            ) by {
                lemma_start_at_push(rest@, f, s);
                lemma_start_at_insert(before, f, k as int, s);
                assert(starting_at(before_rest, s) + starting_at(before, s) == starting_at(input, s));
                if f.byte_start == s {
                    assert(starting_at(rest@, s) + (seq![f] + starting_at(before, s)) =~= starting_at(
                        rest@,
                        s,
                    ).push(f) + starting_at(before, s));
                }
            }
            assert forall|i: int, j: int| 0 <= i <= j < out@.len() implies out@[i].byte_start
                <= out@[j].byte_start by {
                if i < k && j == k {
                    assert(out@[i] == before[i]);
                    if k > 0 {
                        assert(before[k - 1].byte_start < f.byte_start);
                        assert(before[i].byte_start <= before[k - 1].byte_start);
                    }
                } else if i == k && j > k {
                    assert(out@[j] == before[j - 1]);
                } else if i < k && j > k {
                    assert(out@[i] == before[i]);
                    assert(out@[j] == before[j - 1]);
                } else if i > k {
                    assert(out@[i] == before[i - 1]);
                    assert(out@[j] == before[j - 1]);
                } else if j < k {
                    assert(out@[i] == before[i]);
                    assert(out@[j] == before[j]);
                }
            }
        }
    }
    proof {
        assert(rest@.to_multiset() =~= vstd::multiset::Multiset::empty()) by {
            broadcast use vstd::seq_lib::group_to_multiset_ensures;
        }
        assert(out@.to_multiset().add(vstd::multiset::Multiset::empty()) =~= out@.to_multiset());
        assert forall|s: usize| #[trigger] starting_at(out@, s) == starting_at(input, s) by {
            lemma_none_start_at(rest@, s);
            assert(Seq::<Facet>::empty() + starting_at(out@, s) =~= starting_at(out@, s));
        }
    }
    out
}

/// The mention facets of the candidates whose handle resolved, in order:
/// candidate `i` is kept when `dids[i]` holds its DID.
pub open spec fn mention_facets(cands: Seq<(usize, usize, String)>, dids: Seq<Option<String>>) -> Seq<Facet>
    decreases cands.len(),
{
    if cands.len() == 0 {
        Seq::empty()
    } else {
        let rest = mention_facets(cands.drop_last(), dids);
        let c = cands.last();
        match dids[cands.len() - 1] {
            Some(d) => rest.push(Facet { byte_start: c.0, byte_end: c.1, kind: FacetKind::Mention, value: d }),
            None => rest,
        }
    }
}

/// All facets of a post: those already built, then a mention facet for each
/// candidate whose handle resolved to a DID (`dids[i]` for candidate `i`;
/// unresolved ones are dropped), ordered by byte start.
pub fn merge_facets(facets: Vec<Facet>, candidates: Vec<(usize, usize, String)>, dids: Vec<Option<String>>) -> (r: Vec<Facet>)
    requires
        candidates@.len() == dids@.len(),
    ensures
        sorted_by_start(r@),
        r@.to_multiset() == (facets@ + mention_facets(candidates@, dids@)).to_multiset(),
{
    let ghost base = facets@;
    let mut all = facets;
    let mut i: usize = 0;
    assert(candidates@.take(0) =~= Seq::<(usize, usize, String)>::empty());
    assert(base + mention_facets(candidates@.take(0), dids@) =~= base);
    while i < candidates.len()
        invariant
            i <= candidates@.len(),
            candidates@.len() == dids@.len(),
            all@ == base + mention_facets(candidates@.take(i as int), dids@),
        decreases candidates@.len() - i,
    {
        let ghost before = all@;
        assert(candidates@.take(i + 1).drop_last() =~= candidates@.take(i as int));
        assert(candidates@.take(i + 1).last() == candidates@[i as int]);
        match &dids[i] {
            Some(d) => {
                let c = &candidates[i];
                all.push(Facet { byte_start: c.0, byte_end: c.1, kind: FacetKind::Mention, value: d.clone() });
                assert(all@ =~= base + mention_facets(candidates@.take(i + 1), dids@));
            },
            None => {
                assert(all@ =~= base + mention_facets(candidates@.take(i + 1), dids@));
            },
        }
        i = i + 1;
    }
    assert(candidates@.take(candidates@.len() as int) =~= candidates@);
    sort_facets(all)
}

/// The real Bluesky PDS host.
pub const BLUESKY_BASE_URL: &'static str = "https://bsky.social";

/// The Bluesky posting tool: the account's credentials and the PDS host.
pub struct BlueskyPostTool {
    pub metadata: ToolMetadata,
    pub handle: Option<String>,
    pub password: Option<String>,
    pub base_url: String,
}

/// A post record ready to be sent: its text, creation time and facets (none
/// when the text has no link, tag or resolved mention).
pub struct PostRecord {
    pub text: String,
    pub created_at: String,
    pub facets: Option<Vec<Facet>>,
}

/// The current UTC time in RFC 3339 with milliseconds and `Z`. It depends on
/// the clock, so nothing is stated of it.
#[verifier::external_body]
fn utc_now_rfc3339_millis() -> (r: String) {
    chrono::Utc::now().to_rfc3339_opts(chrono::SecondsFormat::Millis, true)
}

impl BlueskyPostTool {
    /// A tool for the account with these credentials, on the real PDS.
    pub fn new(handle: Option<String>, password: Option<String>) -> (t: Self)
        ensures
            t.handle == handle,
            t.password == password,
            t.base_url@ == BLUESKY_BASE_URL@,
            metadata_is(
                t.metadata,
                "bluesky_post"@,
                "Bluesky Post"@,
                ToolType::BlueskyPost,
                "Post a message to the user's Bluesky account (Max 300 characters)"@,
                ToolCategory::Social,
            ),
    {
        BlueskyPostTool {
            metadata: ToolMetadata::from_parts(
                "bluesky_post",
                "Bluesky Post",
                ToolType::BlueskyPost,
                "Post a message to the user's Bluesky account (Max 300 characters)",
                ToolCategory::Social,
            ),
            handle,
            password,
            base_url: copy_str(BLUESKY_BASE_URL),
        }
    }

    /// A tool with the given credentials talking to `base_url` in place of
    /// the real PDS.
    pub fn with_base_url(base_url: &str, handle: Option<&str>, password: Option<&str>) -> (t: Self)
        ensures
            t.base_url@ == base_url@,
            match handle {
                Some(h) => t.handle matches Some(s) && s@ == h@,
                None => t.handle is None,
            },
            match password {
                Some(p) => t.password matches Some(s) && s@ == p@,
                None => t.password is None,
            },
            t.metadata.id@ == "bluesky_post"@,
            t.metadata.tool_type == ToolType::BlueskyPost,
    {
        let h = match handle {
            Some(h) => Some(copy_str(h)),
            None => None,
        };
        let p = match password {
            Some(p) => Some(copy_str(p)),
            None => None,
        };
        let mut t = Self::new(h, p);
        t.base_url = copy_str(base_url);
        t
    }

    /// The text to post, read from the tool call's arguments (`None` when
    /// they were not JSON); at most 300 characters are allowed.
    pub fn parse_text(args: Option<&JsonValue>) -> (r: Result<String, ToolError>)
        ensures
            match args {
                None => r matches Err(e) && e.message@ == "Failed to parse tool call arguments"@,
                Some(a) => match text_at(*a, seq!["text"]) {
                    None => r matches Err(e) && e.message@ == "Missing required parameter: text"@,
                    Some(t) => if t.len() > 300 {
                        r matches Err(e) && e.message@
                            == "Post text exceeds Bluesky's 300 character limit"@
                    } else {
                        r matches Ok(s) && s@ == t
                    },
                },
            },
    {
        let a = match args {
            None => {
                return Err(ToolError::msg("Failed to parse tool call arguments"));
            },
            Some(a) => a,
        };
        match a.text1("text") {
            None => Err(ToolError::msg("Missing required parameter: text")),
            Some(t) => {
                let v = chars_of(t);
                if v.len() > 300 {
                    Err(ToolError::msg("Post text exceeds Bluesky's 300 character limit"))
                } else {
                    Ok(copy_str(t))
                }
            },
        }
    }

    /// The account's handle and password; both must be configured.
    pub fn credentials(&self) -> (r: Result<(String, String), ToolError>)
        ensures
            match (self.handle, self.password) {
                (None, _) => r matches Err(e) && e.message@
                    == "BLUESKY_HANDLE environment variable not set"@,
                (Some(_), None) => r matches Err(e) && e.message@
                    == "BLUESKY_PASSWORD environment variable not set"@,
                (Some(h), Some(p)) => r matches Ok(c) && c.0@ == h@ && c.1@ == p@,
            },
    {
        match &self.handle {
            None => Err(ToolError::msg("BLUESKY_HANDLE environment variable not set")),
            Some(h) => match &self.password {
                None => Err(ToolError::msg("BLUESKY_PASSWORD environment variable not set")),
                Some(p) => Ok((h.clone(), p.clone())),
            },
        }
    }

    fn endpoint(&self, path: &str) -> (r: String)
        ensures
            r@ == self.base_url@ + path@,
    {
        let mut u = self.base_url.clone();
        u.append(path);
        u
    }

    /// Where sessions are created.
    pub fn session_url(&self) -> (r: String)
        ensures
            r@ == self.base_url@ + "/xrpc/com.atproto.server.createSession"@,
    {
        self.endpoint("/xrpc/com.atproto.server.createSession")
    }

    /// Where handles are resolved.
    pub fn resolve_handle_url(&self) -> (r: String)
        ensures
            r@ == self.base_url@ + "/xrpc/com.atproto.identity.resolveHandle"@,
    {
        self.endpoint("/xrpc/com.atproto.identity.resolveHandle")
    }

    /// Where records are created.
    pub fn create_record_url(&self) -> (r: String)
        ensures
            r@ == self.base_url@ + "/xrpc/com.atproto.repo.createRecord"@,
    {
        self.endpoint("/xrpc/com.atproto.repo.createRecord")
    }

    /// The access token and DID of a created session.
    pub fn session_from(data: &JsonValue) -> (r: Result<(String, String), ToolError>)
        ensures
            match (text_at(*data, seq!["accessJwt"]), text_at(*data, seq!["did"])) {
                (None, _) => r matches Err(e) && e.message@
                    == "Invalid session response: missing accessJwt"@,
                (Some(_), None) => r matches Err(e) && e.message@
                    == "Invalid session response: missing did"@,
                (Some(t), Some(d)) => r matches Ok(s) && s.0@ == t && s.1@ == d,
            },
    {
        match data.text1("accessJwt") {
            None => Err(ToolError::msg("Invalid session response: missing accessJwt")),
            Some(t) => match data.text1("did") {
                None => Err(ToolError::msg("Invalid session response: missing did")),
                Some(d) => Ok((copy_str(t), copy_str(d))),
            },
        }
    }

    /// The error for a refused session.
    pub fn authentication_failed(body: &str) -> (e: ToolError)
        ensures
            e.message@ == "Failed to authenticate with Bluesky: "@ + body@,
    {
        let mut m = copy_str("Failed to authenticate with Bluesky: ");
        m.append(body);
        ToolError::new(m)
    }

    /// The DID a handle resolved to: `ok` says whether the lookup succeeded,
    /// `body` is its text when it did not, `data` its JSON when it did.
    pub fn resolved_did(handle: &str, ok: bool, body: &str, data: Option<&JsonValue>) -> (r: Result<String, ToolError>)
        ensures
            !ok ==> (r matches Err(e) && e.message@ == "Could not resolve mention @"@ + handle@ + ": "@
                + body@),
            ok ==> match data {
                Some(d) => match text_at(*d, seq!["did"]) {
                    Some(did) => r matches Ok(s) && s@ == did,
                    None => r matches Err(e) && e.message@ == "resolveHandle response for @"@
                        + handle@ + " missing did"@,
                },
                None => r matches Err(e) && e.message@ == "resolveHandle response for @"@ + handle@
                    + " missing did"@,
            },
    {
        if !ok {
            let mut m = copy_str("Could not resolve mention @");
            m.append(handle);
            m.append(": ");
            m.append(body);
            return Err(ToolError::new(m));
        }
        let did = match data {
            Some(d) => d.text1("did"),
            None => None,
        };
        match did {
            Some(s) => Ok(copy_str(s)),
            None => {
                let mut m = copy_str("resolveHandle response for @");
                m.append(handle);
                m.append(" missing did");
                Err(ToolError::new(m))
            },
        }
    }

    /// The record of a post of `text` with these facets, stamped with the
    /// current time; an empty facet list is left out.
    pub fn post_record(text: &str, facets: Vec<Facet>) -> (r: PostRecord)
        ensures
            r.text@ == text@,
            facets@.len() == 0 ==> r.facets is None,
            facets@.len() > 0 ==> r.facets == Some(facets),
    {
        let created_at = utc_now_rfc3339_millis();
        let f = if facets.len() == 0 {
            None
        } else {
            Some(facets)
        };
        PostRecord { text: copy_str(text), created_at, facets: f }
    }

    /// The outcome of creating the record: `ok` says whether the PDS accepted
    /// it, `body` is its text when it did not.
    pub fn post_result(text: &str, ok: bool, body: &str) -> (r: Result<String, ToolError>)
        ensures
            ok ==> (r matches Ok(s) && s@ == "Successfully posted to Bluesky: '"@ + text@ + "'"@),
            !ok ==> (r matches Err(e) && e.message@ == "Failed to post to Bluesky: "@ + body@),
    {
        if ok {
            let mut s = copy_str("Successfully posted to Bluesky: '");
            s.append(text);
            s.append("'");
            Ok(s)
        } else {
            let mut m = copy_str("Failed to post to Bluesky: ");
            m.append(body);
            Err(ToolError::new(m))
        }
    }
}

/// A mention is never looked for inside a link or a tag: every candidate
/// found starts outside the byte ranges they claim.
pub proof fn law_mentions_avoid_claimed_ranges(occ: Seq<(usize, usize)>, ms: Seq<(usize, usize, Seq<char>)>)
    ensures
        forall|i: int|
            0 <= i < mention_scan(occ, ms).len() ==> !in_ranges(occ, (#[trigger] mention_scan(occ, ms)[i]).0),
    decreases ms.len(),
{
    if ms.len() > 0 {
        law_mentions_avoid_claimed_ranges(occ, ms.drop_last());
        let rest = mention_scan(occ, ms.drop_last());
        let m = ms.last();
        if !in_ranges(occ, m.0) {
            let r = rest.push((m.0, m.1, without_at(m.2)));
            assert forall|i: int| 0 <= i < r.len() implies !in_ranges(occ, (#[trigger] r[i]).0) by {
                if i < rest.len() {
                    assert(r[i] == rest[i]);
                }
            }
        }
    }
}

} // verus!
