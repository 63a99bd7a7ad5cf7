//! Text primitives: Unicode white space and trimming.

use vstd::prelude::*;

verus! {

/// The characters that carry the Unicode `White_Space` property.
pub open spec fn is_white_space(c: char) -> bool {
    let u = c as u32;
    ||| 0x9 <= u <= 0xd
    ||| u == 0x20
    ||| u == 0x85
    ||| u == 0xa0
    ||| u == 0x1680
    ||| 0x2000 <= u <= 0x200a
    ||| u == 0x2028
    ||| u == 0x2029
    ||| u == 0x202f
    ||| u == 0x205f
    ||| u == 0x3000
}

/// `s` without its leading white space.
pub open spec fn trim_start_chars(s: Seq<char>) -> Seq<char>
    decreases s.len(),
{
    if s.len() > 0 && is_white_space(s[0]) {
        trim_start_chars(s.drop_first())
    } else {
        s
    }
}

/// `s` without its trailing white space.
pub open spec fn trim_end_chars(s: Seq<char>) -> Seq<char>
    decreases s.len(),
{
    if s.len() > 0 && is_white_space(s.last()) {
        trim_end_chars(s.drop_last())
    } else {
        s
    }
}

/// `s` without its leading and trailing white space.
pub open spec fn trim_chars(s: Seq<char>) -> Seq<char> {
    trim_end_chars(trim_start_chars(s))
}

proof fn lemma_trim_start_shape(s: Seq<char>)
    ensures
        trim_start_chars(s).len() > 0 ==> !is_white_space(trim_start_chars(s)[0]),
        trim_start_chars(s).len() <= s.len(),
        trim_start_chars(s) == s.skip(s.len() - trim_start_chars(s).len()),
        forall|k: int|
            0 <= k < s.len() - trim_start_chars(s).len() ==> is_white_space(#[trigger] s[k]),
    decreases s.len(),
{
    if s.len() > 0 && is_white_space(s[0]) {
        lemma_trim_start_shape(s.drop_first());
        let t = trim_start_chars(s.drop_first());
        assert(s.drop_first().skip(s.drop_first().len() - t.len()) =~= s.skip(s.len() - t.len()));
        assert forall|k: int| 0 <= k < s.len() - t.len() implies is_white_space(#[trigger] s[k]) by {
            if k > 0 {
                assert(s[k] == s.drop_first()[k - 1]);
            }
        }
    } else {
        assert(s.skip(0) =~= s);
    }
}

proof fn lemma_trim_end_shape(s: Seq<char>)
    ensures
        trim_end_chars(s).len() <= s.len(),
        trim_end_chars(s) == s.take(trim_end_chars(s).len() as int),
        trim_end_chars(s).len() > 0 ==> !is_white_space(trim_end_chars(s).last()),
        forall|k: int| trim_end_chars(s).len() <= k < s.len() ==> is_white_space(#[trigger] s[k]),
    decreases s.len(),
{
    if s.len() > 0 && is_white_space(s.last()) {
        lemma_trim_end_shape(s.drop_last());
        let t = trim_end_chars(s.drop_last());
        assert(s.drop_last().take(t.len() as int) =~= s.take(t.len() as int));
        assert forall|k: int| t.len() <= k < s.len() implies is_white_space(#[trigger] s[k]) by {
            if k < s.len() - 1 {
                assert(s[k] == s.drop_last()[k]);
            }
        }
    } else {
        assert(s.take(s.len() as int) =~= s);
    }
}

/// A trimmed text that is not empty starts and ends with a character that
/// is not white space.
pub proof fn lemma_trimmed_ends(s: Seq<char>)
    ensures
        trim_chars(s).len() > 0 ==> !is_white_space(trim_chars(s)[0]) && !is_white_space(
            trim_chars(s).last(),
        ),
{
    lemma_trim_start_shape(s);
    lemma_trim_end_shape(trim_start_chars(s));
    let t = trim_chars(s);
    if t.len() > 0 {
        assert(t[0] == trim_start_chars(s).take(t.len() as int)[0]);
    }
}

/// Trimming removes white space at the two ends of a text and nothing else:
/// the trimmed text is the stretch `s[i..j]` of `s`, everything before `i`
/// and from `j` on is white space, and a stretch that is not empty starts
/// and ends with a character that is not white space.
pub proof fn lemma_trim_removes_only_end_white_space(s: Seq<char>) -> (r: (int, int))
    ensures
        0 <= r.0 <= r.1 <= s.len(),
        trim_chars(s) == s.subrange(r.0, r.1),
        forall|k: int| 0 <= k < r.0 ==> is_white_space(#[trigger] s[k]),
        forall|k: int| r.1 <= k < s.len() ==> is_white_space(#[trigger] s[k]),
        r.0 < r.1 ==> !is_white_space(s[r.0]) && !is_white_space(s[r.1 - 1]),
{
    lemma_trim_start_shape(s);
    let u = trim_start_chars(s);
    lemma_trim_end_shape(u);
    lemma_trimmed_ends(s);
    let i = s.len() - u.len();
    let t = trim_end_chars(u);
    let j = i + t.len();
    assert(t =~= s.subrange(i, j));
    assert forall|k: int| j <= k < s.len() implies is_white_space(#[trigger] s[k]) by {
        assert(s[k] == u[k - i]);
    }
    (i, j)
}

/// A text that is empty, or starts and ends with a character that is not
/// white space, is its own trimmed text, whatever its length.
pub proof fn lemma_trim_keeps_text_without_end_white_space(s: Seq<char>)
    requires
        s.len() == 0 || (!is_white_space(s[0]) && !is_white_space(s.last())),
    ensures
        trim_chars(s) == s,
{
    let r = lemma_trim_removes_only_end_white_space(s);
    if s.len() > 0 {
        if r.0 == r.1 {
            if r.0 > 0 {
                assert(is_white_space(s[0]));
            } else {
                assert(is_white_space(s[0]));
            }
        }
        assert(r.0 == 0);
        assert(r.1 == s.len());
        assert(s.subrange(0, s.len() as int) =~= s);
    }
}

/// Trimming a trimmed text changes nothing.
pub proof fn lemma_trim_idempotent(s: Seq<char>)
    ensures
        trim_chars(trim_chars(s)) == trim_chars(s),
{
    lemma_trimmed_ends(s);
    let t = trim_chars(s);
    assert(trim_start_chars(t) == t);
    assert(trim_end_chars(t) == t);
}

/// Whether `c` has the Unicode `White_Space` property.
pub fn is_white_space_char(c: char) -> (res: bool)
    ensures
        res == is_white_space(c),
{
    let u = c as u32;
    (0x9 <= u && u <= 0xd) || u == 0x20 || u == 0x85 || u == 0xa0 || u == 0x1680 || (0x2000 <= u
        && u <= 0x200a) || u == 0x2028 || u == 0x2029 || u == 0x202f || u == 0x205f || u == 0x3000
}

/// Returns `s` with leading and trailing white space removed.
pub fn trim(s: &str) -> (res: String)
    ensures
        res@ == trim_chars(s@),
        exists|i: int, j: int|
            {
                &&& 0 <= i <= j <= s@.len()
                &&& res@ == s@.subrange(i, j)
                &&& forall|k: int| 0 <= k < i ==> is_white_space(#[trigger] s@[k])
                &&& forall|k: int| j <= k < s@.len() ==> is_white_space(#[trigger] s@[k])
                &&& i < j ==> !is_white_space(s@[i]) && !is_white_space(s@[j - 1])
            },
        s@.len() == 0 || (!is_white_space(s@[0]) && !is_white_space(s@.last())) ==> res@ == s@,
{
    let res = trim_ends(s);
    proof {
        lemma_trim_shape(s@);
    }
    res
}

proof fn lemma_trim_shape(s: Seq<char>)
    ensures
        exists|i: int, j: int|
            {
                &&& 0 <= i <= j <= s.len()
                &&& trim_chars(s) == s.subrange(i, j)
                &&& forall|k: int| 0 <= k < i ==> is_white_space(#[trigger] s[k])
                &&& forall|k: int| j <= k < s.len() ==> is_white_space(#[trigger] s[k])
                &&& i < j ==> !is_white_space(s[i]) && !is_white_space(s[j - 1])
            },
        s.len() == 0 || (!is_white_space(s[0]) && !is_white_space(s.last())) ==> trim_chars(s) == s,
{
    let r = lemma_trim_removes_only_end_white_space(s);
    if s.len() == 0 || (!is_white_space(s[0]) && !is_white_space(s.last())) {
        lemma_trim_keeps_text_without_end_white_space(s);
    }
}

fn trim_ends(s: &str) -> (res: String)
    ensures
        res@ == trim_chars(s@),
{
    let len = s.unicode_len();
    let mut start: usize = 0;
    assert(s@.subrange(0, len as int) =~= s@);
    while start < len && is_white_space_char(s.get_char(start))
        invariant
            len == s@.len(),
            start <= len,
            trim_start_chars(s@) == trim_start_chars(s@.subrange(start as int, len as int)),
        decreases len - start,
    {
        assert(s@.subrange(start as int, len as int).drop_first() =~= s@.subrange(
            start + 1,
            len as int,
        ));
        start = start + 1;
    }
    let ghost rest = s@.subrange(start as int, len as int);
    assert(trim_start_chars(rest) == rest) by {
        if rest.len() > 0 {
            assert(rest[0] == s@[start as int]);
        }
    }
    let mut end: usize = len;
    while end > start && is_white_space_char(s.get_char(end - 1))
        invariant
            len == s@.len(),
            start <= end <= len,
            trim_end_chars(rest) == trim_end_chars(s@.subrange(start as int, end as int)),
        decreases end,
    {
        assert(s@.subrange(start as int, end as int).drop_last() =~= s@.subrange(
            start as int,
            end - 1,
        ));
        end = end - 1;
    }
    let ghost kept = s@.subrange(start as int, end as int);
    assert(trim_end_chars(kept) == kept) by {
        if kept.len() > 0 {
            assert(kept.last() == s@[end - 1]);
        }
    }
    String::from_str(s.substring_char(start, end))
}

} // verus!
