//! Tags are comma-joined free text. Appending a tag unions it into
//! the list: a value already present as a whole comma-separated
//! element is never duplicated.

use vstd::prelude::*;
use vstd::string::*;

verus! {

/// Whether `t` stands as a whole comma-separated element of `s`
/// starting at position `i`: the characters match, and both sides
/// border a comma or an end of the list.
pub open spec fn is_elem_at(s: Seq<char>, t: Seq<char>, i: int) -> bool {
    &&& 0 <= i
    &&& i + t.len() <= s.len()
    &&& s.subrange(i, i + t.len() as int) == t
    &&& (i == 0 || s[i - 1] == ',')
    &&& (i + t.len() == s.len() || s[i + t.len() as int] == ',')
}

/// Whether `t` occurs as a whole comma-separated element of `s`.
pub open spec fn has_elem(s: Seq<char>, t: Seq<char>) -> bool {
    exists|i: int| #[trigger] is_elem_at(s, t, i)
}

fn seq_eq_at(s: &str, i: usize, t: &str) -> (r: bool)
    requires
        i + t@.len() <= s@.len(),
    ensures
        r == (s@.subrange(i as int, i + t@.len()) == t@),
{
    let slen = s.unicode_len();
    let tlen = t.unicode_len();
    let mut k: usize = 0;
    while k < tlen
        invariant
            0 <= k <= tlen,
            slen == s@.len(),
            tlen == t@.len(),
            i + tlen <= s@.len(),
            forall|m: int| 0 <= m < k ==> s@[i + m] == t@[m],
        decreases tlen - k,
    {
        if s.get_char(i + k) != t.get_char(k) {
            proof {
                assert(s@.subrange(i as int, i + t@.len())[k as int] == s@[i + k]);
            }
            return false;
        }
        k = k + 1;
    }
    proof {
        assert(s@.subrange(i as int, i + t@.len()) =~= t@);
    }
    true
}

fn elem_at(s: &str, i: usize, t: &str) -> (r: bool)
    requires
        i + t@.len() <= s@.len(),
    ensures
        r == is_elem_at(s@, t@, i as int),
{
    let slen = s.unicode_len();
    let tlen = t.unicode_len();
    let left_ok = i == 0 || s.get_char(i - 1) == ',';
    if !left_ok {
        return false;
    }
    let right_ok = i + tlen == slen || s.get_char(i + tlen) == ',';
    if !right_ok {
        return false;
    }
    seq_eq_at(s, i, t)
}

/// Whether `t` occurs as a whole comma-separated element of the tag
/// list `s`.
pub fn tags_has_elem(s: &str, t: &str) -> (r: bool)
    ensures
        r == has_elem(s@, t@),
{
    let slen = s.unicode_len();
    let tlen = t.unicode_len();
    if tlen > slen {
        proof {
            assert(forall|i: int| !is_elem_at(s@, t@, i));
        }
        return false;
    }
    let bound = slen - tlen;
    let mut i: usize = 0;
    while i < bound
        invariant
            0 <= i <= bound,
            bound == slen - tlen,
            tlen <= slen,
            slen == s@.len(),
            tlen == t@.len(),
            forall|j: int| 0 <= j < i ==> !is_elem_at(s@, t@, j),
        decreases bound - i,
    {
        if elem_at(s, i, t) {
            proof {
                assert(is_elem_at(s@, t@, i as int));
            }
            return true;
        }
        i = i + 1;
    }
    if elem_at(s, bound, t) {
        proof {
            assert(is_elem_at(s@, t@, bound as int));
        }
        return true;
    }
    proof {
        assert(forall|j: int| j > slen - tlen ==> !is_elem_at(s@, t@, j));
    }
    false
}

/// The tag list after a union-append: unchanged when the tag is
/// already a whole element; the tag itself when the list was empty;
/// else the list, a comma, and the tag.
pub open spec fn appended_tags(s: Seq<char>, t: Seq<char>) -> Seq<char> {
    if has_elem(s, t) {
        s
    } else if s.len() == 0 {
        t
    } else {
        s + ","@ + t
    }
}

/// Appends `tag` to the comma-joined list `tags` without ever
/// duplicating an element that is already present.
pub fn append_tag(tags: &str, tag: &str) -> (r: String)
    ensures
        r@ == appended_tags(tags@, tag@),
{
    if tags_has_elem(tags, tag) {
        tags.to_owned()
    } else if tags.is_empty() {
        tags_empty_case(tags, tag)
    } else {
        let mut r = tags.to_owned();
        r.append(",");
        r.append(tag);
        r
    }
}

fn tags_empty_case(tags: &str, tag: &str) -> (r: String)
    requires
        tags@.len() == 0,
        !has_elem(tags@, tag@),
    ensures
        r@ == appended_tags(tags@, tag@),
{
    tag.to_owned()
}

/// After a union-append the tag is always a whole element of the
/// result.
pub proof fn lemma_append_tag_has(s: Seq<char>, t: Seq<char>)
    ensures
        has_elem(appended_tags(s, t), t),
{
    reveal_strlit(",");
    if has_elem(s, t) {
    } else if s.len() == 0 {
        let r = appended_tags(s, t);
        assert(r.subrange(0, t.len() as int) =~= t);
        assert(is_elem_at(r, t, 0));
    } else {
        let r = s + ","@ + t;
        let i: int = s.len() as int + 1;
        assert(r[i - 1] == ',');
        assert(r.subrange(i, i + t.len() as int) =~= t);
        assert(is_elem_at(r, t, i));
    }
}

} // verus!
