//! Verified text primitives for the hosts rewriter: substring containment,
//! whitespace trimming, and splitting text into lines.
//!
//! Every executable function here is specified against a small recursive
//! model over `Seq<char>`, so the rewriter's contract can speak about string
//! content exactly.

use vstd::prelude::*;
use vstd::string::*;

verus! {

// ---------------------------------------------------------------------------
// Substring containment
// ---------------------------------------------------------------------------

/// `needle` occurs contiguously somewhere inside `hay`.
pub open spec fn is_substring_of(hay: Seq<char>, needle: Seq<char>) -> bool {
    exists|i: int|
        0 <= i <= hay.len() - needle.len() && #[trigger] hay.subrange(i, i + needle.len() as int)
            == needle
}

/// Whatever contains a needle still contains it after text is appended on
/// either side.
pub proof fn lemma_substring_extend(a: Seq<char>, b: Seq<char>, needle: Seq<char>)
    ensures
        is_substring_of(a, needle) ==> is_substring_of(a + b, needle),
        is_substring_of(b, needle) ==> is_substring_of(a + b, needle),
{
    if is_substring_of(a, needle) {
        let i = choose|i: int|
            0 <= i <= a.len() - needle.len() && #[trigger] a.subrange(i, i + needle.len() as int)
                == needle;
        assert((a + b).subrange(i, i + needle.len() as int) =~= needle);
    }
    if is_substring_of(b, needle) {
        let i = choose|i: int|
            0 <= i <= b.len() - needle.len() && #[trigger] b.subrange(i, i + needle.len() as int)
                == needle;
        assert((a + b).subrange(a.len() + i, a.len() + i + needle.len() as int) =~= needle);
    }
}

/// Tests whether `needle` matches `hay` at position `at`.
fn matches_at(hay: &str, needle: &str, at: usize) -> (b: bool)
    requires
        at + needle@.len() <= hay@.len(),
        hay@.len() <= usize::MAX,
    ensures
        b == (hay@.subrange(at as int, at as int + needle@.len() as int) == needle@),
{
    let n = needle.unicode_len();
    let mut j: usize = 0;
    while j < n
        invariant
            n == needle@.len(),
            at + n <= hay@.len(),
            hay@.len() <= usize::MAX,
            0 <= j <= n,
            forall|t: int| 0 <= t < j ==> hay@[at + t] == needle@[t],
        decreases n - j,
    {
        if hay.get_char(at + j) != needle.get_char(j) {
            assert(hay@.subrange(at as int, at as int + needle@.len() as int)[j as int]
                != needle@[j as int]);
            return false;
        }
        j += 1;
    }
    assert(hay@.subrange(at as int, at as int + needle@.len() as int) =~= needle@);
    true
}

/// Executable substring search, the exact counterpart of
/// [`is_substring_of`].
pub fn contains_substring(hay: &str, needle: &str) -> (b: bool)
    ensures
        b == is_substring_of(hay@, needle@),
{
    let hay_len = hay.unicode_len();
    let needle_len = needle.unicode_len();
    if needle_len == 0 {
        assert(is_substring_of(hay@, needle@)) by {
            assert(hay@.subrange(0, 0 + needle@.len() as int) =~= needle@);
        }
        return true;
    }
    if needle_len > hay_len {
        return false;
    }
    let mut i: usize = 0;
    while i <= hay_len - needle_len
        invariant
            hay_len == hay@.len(),
            needle_len == needle@.len(),
            0 < needle_len <= hay_len,
            0 <= i <= hay_len - needle_len + 1,
            forall|k: int|
                0 <= k < i ==> #[trigger] hay@.subrange(k, k + needle@.len() as int) != needle@,
        decreases hay_len - needle_len + 1 - i,
    {
        if matches_at(hay, needle, i) {
            return true;
        }
        i += 1;
    }
    false
}

/// Character-wise string equality.
pub fn str_eq(a: &str, b: &str) -> (r: bool)
    ensures
        r == (a@ == b@),
{
    let a_len = a.unicode_len();
    let b_len = b.unicode_len();
    if a_len != b_len {
        return false;
    }
    let eq = matches_at(a, b, 0);
    proof {
        assert(a@.subrange(0, 0 + b@.len() as int) =~= a@);
    }
    eq
}

// ---------------------------------------------------------------------------
// Trimming
// ---------------------------------------------------------------------------

/// The whitespace characters discarded around a list entry.
pub open spec fn is_space_char(c: char) -> bool {
    c == ' ' || c == '\t' || c == '\r'
}

/// Executable counterpart of [`is_space_char`].
fn is_space(c: char) -> (b: bool)
    ensures
        b == is_space_char(c),
{
    c == ' ' || c == '\t' || c == '\r'
}

/// `s` without its leading whitespace.
pub open spec fn trim_start_spec(s: Seq<char>) -> Seq<char>
    decreases s.len(),
{
    if s.len() > 0 && is_space_char(s[0]) {
        trim_start_spec(s.drop_first())
    } else {
        s
    }
}

/// `s` without its trailing whitespace.
pub open spec fn trim_end_spec(s: Seq<char>) -> Seq<char>
    decreases s.len(),
{
    if s.len() > 0 && is_space_char(s[s.len() - 1]) {
        trim_end_spec(s.drop_last())
    } else {
        s
    }
}

/// `s` without leading and trailing whitespace.
pub open spec fn trim_spec(s: Seq<char>) -> Seq<char> {
    trim_end_spec(trim_start_spec(s))
}

proof fn lemma_trim_start_skip(s: Seq<char>, i: int)
    requires
        0 <= i <= s.len(),
        forall|k: int| 0 <= k < i ==> is_space_char(s[k]),
    ensures
        trim_start_spec(s) == trim_start_spec(s.skip(i)),
    decreases i,
{
    if i > 0 {
        assert(s.skip(0) =~= s);
        assert(s.drop_first() =~= s.skip(1));
        lemma_trim_start_skip(s.skip(1), i - 1);
        assert(s.skip(1).skip(i - 1) =~= s.skip(i));
    } else {
        assert(s.skip(0) =~= s);
    }
}

proof fn lemma_trim_end_within(s: Seq<char>, i: int, j: int)
    requires
        0 <= i <= j <= s.len(),
        forall|k: int| j <= k < s.len() ==> is_space_char(s[k]),
    ensures
        trim_end_spec(s.skip(i)) == trim_end_spec(s.subrange(i, j)),
    decreases s.len() - j,
{
    if j == s.len() {
        assert(s.subrange(i, j) =~= s.skip(i));
    } else {
        lemma_trim_end_within(s, i, j + 1);
        let t = s.subrange(i, j + 1);
        assert(t.len() > 0 && is_space_char(t[t.len() - 1]));
        assert(t.drop_last() =~= s.subrange(i, j));
    }
}

/// Removes the surrounding whitespace of `s`, exactly as [`trim_spec`]
/// describes.
pub fn trim_str<'a>(s: &'a str) -> (r: &'a str)
    ensures
        r@ == trim_spec(s@),
{
    let len = s.unicode_len();
    let mut start: usize = 0;
    while start < len && is_space(s.get_char(start))
        invariant
            len == s@.len(),
            0 <= start <= len,
            forall|k: int| 0 <= k < start ==> is_space_char(s@[k]),
        decreases len - start,
    {
        start += 1;
    }
    proof {
        lemma_trim_start_skip(s@, start as int);
        if start < len {
            assert(s@.skip(start as int)[0] == s@[start as int]);
        }
        assert(trim_start_spec(s@.skip(start as int)) == s@.skip(start as int));
    }
    let mut end: usize = len;
    while end > start && is_space(s.get_char(end - 1))
        invariant
            len == s@.len(),
            0 <= start <= end <= len,
            forall|k: int| end <= k < len ==> is_space_char(s@[k]),
        decreases end,
    {
        end -= 1;
    }
    proof {
        lemma_trim_end_within(s@, start as int, end as int);
        let t = s@.subrange(start as int, end as int);
        if end > start {
            assert(t[t.len() - 1] == s@[end - 1]);
        }
        assert(trim_end_spec(t) == t);
    }
    s.substring_char(start, end)
}

// ---------------------------------------------------------------------------
// Splitting into lines
// ---------------------------------------------------------------------------

/// Position of the first newline in `s`, or `s.len()` if there is none.
pub open spec fn first_newline(s: Seq<char>) -> nat
    decreases s.len(),
{
    if s.len() == 0 {
        0
    } else if s[0] == '\n' {
        0
    } else {
        1 + first_newline(s.drop_first())
    }
}

/// The first newline is exactly the first position holding `'\n'`.
pub proof fn lemma_first_newline_position(s: Seq<char>, j: int)
    requires
        0 <= j <= s.len(),
        forall|k: int| 0 <= k < j ==> s[k] != '\n',
        j == s.len() || s[j] == '\n',
    ensures
        first_newline(s) == j,
    decreases j,
{
    if j > 0 {
        lemma_first_newline_position(s.drop_first(), j - 1);
    }
}

/// `s` divided at each newline; the separators themselves are dropped.
/// Text with no newline is a single line, so the result is never empty.
pub open spec fn split_lines_spec(s: Seq<char>) -> Seq<Seq<char>>
    decreases s.len(),
{
    let i = first_newline(s);
    if i >= s.len() {
        seq![s]
    } else {
        seq![s.take(i as int)] + split_lines_spec(s.skip(i as int + 1))
    }
}

/// Divides `s` at newlines, exactly as [`split_lines_spec`] describes.
pub fn split_lines(s: &str) -> (v: Vec<String>)
    ensures
        v.deep_view() == split_lines_spec(s@),
{
    let len = s.unicode_len();
    let mut v: Vec<String> = Vec::new();
    let mut start: usize = 0;
    let mut i: usize = 0;
    proof {
        assert(s@.skip(0) =~= s@);
        assert(v.deep_view() =~= Seq::<Seq<char>>::empty());
        assert(v.deep_view() + split_lines_spec(s@) =~= split_lines_spec(s@));
    }
    while i < len
        invariant
            len == s@.len(),
            0 <= start <= i <= len,
            forall|k: int| start <= k < i ==> s@[k] != '\n',
            split_lines_spec(s@) =~= v.deep_view() + split_lines_spec(s@.skip(start as int)),
        decreases len - i,
    {
        if s.get_char(i) == '\n' {
            let line = String::from_str(s.substring_char(start, i));
            let ghost old_dv = v.deep_view();
            v.push(line);
            proof {
                let rest = s@.skip(start as int);
                assert forall|k: int| 0 <= k < i - start implies rest[k] != '\n' by {
                    assert(rest[k] == s@[start + k]);
                }
                assert(rest[i - start] == s@[i as int]);
                lemma_first_newline_position(rest, i - start);
                assert(rest.take(i - start) =~= s@.subrange(start as int, i as int));
                assert(rest.skip(i - start + 1) =~= s@.skip(i as int + 1));
                assert(split_lines_spec(rest) == seq![line@] + split_lines_spec(
                    s@.skip(i as int + 1),
                ));
                assert(v.deep_view() =~= old_dv.push(line@));
                assert(v.deep_view() + split_lines_spec(s@.skip(i as int + 1)) =~= old_dv + (
                seq![line@] + split_lines_spec(s@.skip(i as int + 1))));
            }
            start = i + 1;
        }
        i += 1;
    }
    let last = String::from_str(s.substring_char(start, len));
    let ghost old_dv = v.deep_view();
    v.push(last);
    proof {
        let rest = s@.skip(start as int);
        assert forall|k: int| 0 <= k < rest.len() implies rest[k] != '\n' by {
            assert(rest[k] == s@[start + k]);
        }
        lemma_first_newline_position(rest, rest.len() as int);
        assert(rest =~= s@.subrange(start as int, len as int));
        assert(split_lines_spec(rest) == seq![last@]);
        assert(v.deep_view() =~= old_dv.push(last@));
        assert(v.deep_view() =~= old_dv + seq![last@]);
        assert(v.deep_view() =~= split_lines_spec(s@));
    }
    v
}

// ---------------------------------------------------------------------------
// Cleaning a list of entries
// ---------------------------------------------------------------------------

/// Each line trimmed, with the lines that are blank after trimming dropped.
pub open spec fn clean_lines_spec(lines: Seq<Seq<char>>) -> Seq<Seq<char>>
    decreases lines.len(),
{
    if lines.len() == 0 {
        Seq::empty()
    } else {
        let rest = clean_lines_spec(lines.drop_last());
        let t = trim_spec(lines.last());
        if t.len() == 0 {
            rest
        } else {
            rest.push(t)
        }
    }
}

/// The entries of a raw list text: split into lines, trimmed, blanks dropped.
pub open spec fn clean_list_spec(s: Seq<char>) -> Seq<Seq<char>> {
    clean_lines_spec(split_lines_spec(s))
}

/// Splits a raw list text into its entries, exactly as [`clean_list_spec`]
/// describes.
pub fn clean_entries(s: &str) -> (v: Vec<String>)
    ensures
        v.deep_view() == clean_list_spec(s@),
{
    let lines = split_lines(s);
    let mut v: Vec<String> = Vec::new();
    let mut i: usize = 0;
    while i < lines.len()
        invariant
            0 <= i <= lines.len(),
            lines.deep_view() == split_lines_spec(s@),
            v.deep_view() =~= clean_lines_spec(lines.deep_view().take(i as int)),
        decreases lines.len() - i,
    {
        let t = trim_str(lines[i].as_str());
        proof {
            let prefix = lines.deep_view().take(i as int + 1);
            assert(prefix.drop_last() =~= lines.deep_view().take(i as int));
            assert(prefix.last() == lines.deep_view()[i as int]);
            assert(lines.deep_view()[i as int] == lines[i as int]@);
        }
        if t.unicode_len() != 0 {
            let entry = String::from_str(t);
            let ghost old_dv = v.deep_view();
            v.push(entry);
            proof {
                assert(v.deep_view() =~= old_dv.push(entry@));
            }
        }
        i += 1;
    }
    proof {
        assert(lines.deep_view().take(lines.deep_view().len() as int) =~= lines.deep_view());
    }
    v
}

} // verus!
