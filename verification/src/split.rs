//! Splitting of feature strings into fields and composite fields into pairs.
//!
//! A feature string is a comma-separated tuple.  Two of its positions are
//! composite: a group and a detail joined by a secondary delimiter, which is
//! an ASCII hyphen in newer dictionary schemas and an interpunct in older
//! ones.  The splitter accepts either, trying the hyphen first.

use vstd::prelude::*;

verus! {

/// The fields of `s` split on the delimiter `d`.  A string without the
/// delimiter is a single field; each occurrence of the delimiter ends a
/// field, so `n` occurrences give `n + 1` fields.
pub open spec fn spec_split(s: Seq<char>, d: char) -> Seq<Seq<char>>
    decreases s.len(),
{
    match s.index_of_first(d) {
        Some(i) => if 0 <= i < s.len() {
            seq![s.take(i)] + spec_split(s.skip(i + 1), d)
        } else {
            seq![s]
        },
        None => seq![s],
    }
}

/// Field `i` of a tuple, or the empty field when the tuple is too short.
pub open spec fn spec_field(fields: Seq<Seq<char>>, i: int) -> Seq<char> {
    if 0 <= i < fields.len() {
        fields[i]
    } else {
        Seq::empty()
    }
}

/// The (group, detail) pair of a composite field: split on `-` when present,
/// otherwise on the interpunct, otherwise the pair is the whole field and an
/// empty detail.
pub open spec fn spec_split_type(s: Seq<char>) -> (Seq<char>, Seq<char>) {
    let a = spec_split(s, '-');
    let b = spec_split(s, '\u{30fb}');
    if a.len() >= 2 {
        (a[0], a[1])
    } else if b.len() >= 2 {
        (b[0], b[1])
    } else {
        (s, Seq::empty())
    }
}

/// Compares two string slices character by character.
pub fn str_eq(a: &str, b: &str) -> (r: bool)
    ensures
        r == (a@ == b@),
{
    let a_len = a.unicode_len();
    let b_len = b.unicode_len();
    if a_len != b_len {
        assert(a@ != b@) by {
            assert(a@.len() != b@.len());
        }
        return false;
    }
    let mut i: usize = 0;
    while i < a_len
        invariant
            a_len == a@.len(),
            b_len == b@.len(),
            a_len == b_len,
            i <= a_len,
            forall|j: int| 0 <= j < i ==> a@[j] == b@[j],
        decreases a_len - i,
    {
        if a.get_char(i) != b.get_char(i) {
            assert(a@[i as int] != b@[i as int]);
            return false;
        }
        i += 1;
    }
    assert(a@ =~= b@);
    true
}

/// The position of the first occurrence of `d` in `s`, if any.
fn find_char(s: &str, d: char) -> (r: Option<usize>)
    ensures
        match r {
            Some(i) => i < s@.len() && s@[i as int] == d && (forall|j: int|
                0 <= j < i ==> s@[j] != d),
            None => forall|j: int| 0 <= j < s@.len() ==> s@[j] != d,
        },
{
    let len = s.unicode_len();
    let mut i: usize = 0;
    while i < len
        invariant
            len == s@.len(),
            i <= len,
            forall|j: int| 0 <= j < i ==> s@[j] != d,
        decreases len - i,
    {
        if s.get_char(i) == d {
            return Some(i);
        }
        i += 1;
    }
    None
}

/// When `d` first occurs at `i` in `s`, `index_of_first` agrees.
proof fn lemma_index_of_first_agrees(s: Seq<char>, d: char, i: int)
    requires
        0 <= i < s.len(),
        s[i] == d,
        forall|j: int| 0 <= j < i ==> s[j] != d,
    ensures
        s.index_of_first(d) == Some(i),
{
    assert(s.contains(d));
    s.index_of_first_ensures(d);
    let k = s.index_of_first(d)->Some_0;
    if k < i {
        assert(s[k] != d);
    }
    if k > i {
        assert(s[i] != d);
    }
}

/// When `d` does not occur in `s`, `index_of_first` returns nothing.
proof fn lemma_index_of_first_absent(s: Seq<char>, d: char)
    requires
        forall|j: int| 0 <= j < s.len() ==> s[j] != d,
    ensures
        s.index_of_first(d) is None,
{
    s.index_of_first_ensures(d);
    if s.index_of_first(d) is Some {
        let k = s.index_of_first(d)->Some_0;
        assert(s[k] != d);
    }
}

/// Splits `s` into its fields on the delimiter `d`.
pub fn split_on_char(s: &str, d: char) -> (r: Vec<String>)
    ensures
        r.deep_view() == spec_split(s@, d),
    decreases s@.len(),
{
    match find_char(s, d) {
        None => {
            let mut v: Vec<String> = Vec::new();
            v.push(String::from_str(s));
            proof {
                lemma_index_of_first_absent(s@, d);
                assert(v.deep_view() =~= spec_split(s@, d));
            }
            v
        },
        Some(i) => {
            let len = s.unicode_len();
            let head = s.substring_char(0, i);
            let tail = s.substring_char(i + 1, len);
            let mut v = split_on_char(tail, d);
            v.insert(0, String::from_str(head));
            proof {
                lemma_index_of_first_agrees(s@, d, i as int);
                assert(head@ =~= s@.take(i as int));
                assert(tail@ =~= s@.skip(i + 1));
                assert(v.deep_view() =~= spec_split(s@, d));
            }
            v
        },
    }
}

/// Splits a composite field into its (group, detail) pair, accepting either
/// secondary delimiter.
pub fn split_type(inp: &str) -> (r: (String, String))
    ensures
        (r.0@, r.1@) == spec_split_type(inp@),
{
    let parts = split_on_char(inp, '-');
    if parts.len() >= 2 {
        (parts[0].clone(), parts[1].clone())
    } else {
        let parts2 = split_on_char(inp, '\u{30fb}');
        if parts2.len() >= 2 {
            (parts2[0].clone(), parts2[1].clone())
        } else {
            (String::from_str(inp), String::new())
        }
    }
}

/// Field `pos` of the tuple, or the empty string when the tuple is shorter.
pub fn str_or_empty<'a>(vec: &'a Vec<String>, pos: usize) -> (r: &'a str)
    ensures
        r@ == spec_field(vec.deep_view(), pos as int),
{
    if pos < vec.len() {
        vec[pos].as_str()
    } else {
        let r = "";
        proof {
            reveal_strlit("");
            assert(r@ =~= Seq::<char>::empty());
        }
        r
    }
}

} // verus!
