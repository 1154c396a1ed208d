//! Parsing of distinguished-name strings of the form
//! `CN=..., SN=..., INN=...`: the certificate subject line is cut at the
//! commas, each part is stripped of surrounding blanks, and an attribute is
//! found by its `KEY=` prefix.

use vstd::prelude::*;

use crate::text::{trim_blanks, trimmed};

verus! {

/// Index of the first comma in `s`, or `s.len()` if there is none.
pub open spec fn first_comma(s: Seq<char>) -> nat
    decreases s.len(),
{
    if s.len() == 0 {
        0
    } else if s[0] == ',' {
        0
    } else {
        1 + first_comma(s.drop_first())
    }
}

proof fn lemma_first_comma_at(s: Seq<char>, i: int)
    requires
        0 <= i <= s.len(),
        forall|k: int| 0 <= k < i ==> s[k] != ',',
        i < s.len() ==> s[i] == ',',
    ensures
        first_comma(s) == i,
    decreases i,
{
    if i > 0 {
        lemma_first_comma_at(s.drop_first(), i - 1);
    }
}

/// Whether `s` begins with `prefix`.
pub open spec fn starts_with(s: Seq<char>, prefix: Seq<char>) -> bool {
    prefix.len() <= s.len() && s.subrange(0, prefix.len() as int) == prefix
}

/// The value of the attribute `key` in the distinguished name `s`: the
/// name is cut at the commas, and the first part that — stripped of its
/// surrounding blanks — begins with `key` yields what follows that prefix.
pub open spec fn attr_value_in(s: Seq<char>, key: Seq<char>) -> Option<Seq<char>>
    decreases s.len(),
{
    let j = first_comma(s) as int;
    let part = trimmed(s.subrange(0, j));
    if starts_with(part, key) {
        Option::Some(part.skip(key.len() as int))
    } else if j >= s.len() {
        Option::None
    } else {
        attr_value_in(s.subrange(j + 1, s.len() as int), key)
    }
}

/// Whether `s` begins with `prefix`, decided character by character.
fn str_starts_with(s: &str, prefix: &str) -> (r: bool)
    ensures
        r == starts_with(s@, prefix@),
{
    let n = s.unicode_len();
    let m = prefix.unicode_len();
    if m > n {
        return false;
    }
    let mut i: usize = 0;
    while i < m
        invariant
            n == s@.len(),
            m == prefix@.len(),
            m <= n,
            0 <= i <= m,
            forall|k: int| 0 <= k < i ==> s@[k] == prefix@[k],
        decreases m - i,
    {
        if s.get_char(i) != prefix.get_char(i) {
            return false;
        }
        i = i + 1;
    }
    assert(s@.subrange(0, m as int) =~= prefix@);
    true
}

/// Extracts the value of the attribute `key` (for example `"CN="`) from a
/// distinguished-name string of comma-separated parts.
pub fn extract_attr(s: &str, key: &str) -> (r: Option<String>)
    ensures
        match r {
            Option::Some(v) => attr_value_in(s@, key@) == Option::Some(v@),
            Option::None => attr_value_in(s@, key@) is None,
        },
{
    let n = s.unicode_len();
    assert(s@.subrange(0, n as int) =~= s@);
    let mut start: usize = 0;
    loop
        invariant
            n == s@.len(),
            0 <= start <= n,
            attr_value_in(s@, key@) == attr_value_in(
                s@.subrange(start as int, n as int),
                key@,
            ),
        decreases n - start,
    {
        let ghost tail = s@.subrange(start as int, n as int);
        let mut j: usize = start;
        while j < n && s.get_char(j) != ','
            invariant
                n == s@.len(),
                start <= j <= n,
                forall|k: int| start <= k < j ==> s@[k] != ',',
            decreases n - j,
        {
            j = j + 1;
        }
        proof {
            assert forall|k: int| 0 <= k < j - start implies tail[k] != ',' by {
                assert(tail[k] == s@[start + k]);
            }
            if j < n {
                assert(tail[j - start] == s@[j as int]);
            }
            lemma_first_comma_at(tail, j - start);
            assert(tail.subrange(0, j - start) =~= s@.subrange(start as int, j as int));
        }
        let part = s.substring_char(start, j);
        let t = trim_blanks(part);
        if str_starts_with(t.as_str(), key) {
            let klen = key.unicode_len();
            let tlen = t.as_str().unicode_len();
            let v = t.as_str().substring_char(klen, tlen).to_owned();
            assert(v@ =~= trimmed(tail.subrange(0, j - start)).skip(key@.len() as int));
            return Option::Some(v);
        }
        if j == n {
            return Option::None;
        }
        proof {
            assert(tail.subrange(j - start + 1, tail.len() as int) =~= s@.subrange(
                j + 1 as int,
                n as int,
            ));
        }
        start = j + 1;
    }
}

/// The value of attribute `prefix` in `dn`, or the empty string where the
/// attribute is absent.
pub fn attr_value(dn: &str, prefix: &str) -> (r: String)
    ensures
        r@ == match attr_value_in(dn@, prefix@) {
            Option::Some(v) => v,
            Option::None => Seq::<char>::empty(),
        },
{
    match extract_attr(dn, prefix) {
        Option::Some(v) => v,
        Option::None => String::new(),
    }
}

/// The surname of the subject if one is recorded, else its common name,
/// else the whole first part of the distinguished name, stripped of blanks.
pub fn extract_surname_or_cn(subject: &str) -> (r: Option<String>)
    ensures
        r is Some,
        r.unwrap()@ == surname_or_cn(subject@),
{
    if let Option::Some(sn) = extract_attr(subject, "SN=") {
        return Option::Some(sn);
    }
    if let Option::Some(cn) = extract_attr(subject, "CN=") {
        return Option::Some(cn);
    }
    let n = subject.unicode_len();
    let mut j: usize = 0;
    while j < n && subject.get_char(j) != ','
        invariant
            n == subject@.len(),
            0 <= j <= n,
            forall|k: int| 0 <= k < j ==> subject@[k] != ',',
        decreases n - j,
    {
        j = j + 1;
    }
    proof {
        lemma_first_comma_at(subject@, j as int);
    }
    let part = subject.substring_char(0, j);
    Option::Some(trim_blanks(part))
}

/// What `extract_surname_or_cn` yields: `SN=` first, then `CN=`, then the
/// trimmed first part of the name.
pub open spec fn surname_or_cn(subject: Seq<char>) -> Seq<char> {
    match attr_value_in(subject, "SN="@) {
        Option::Some(sn) => sn,
        Option::None => match attr_value_in(subject, "CN="@) {
            Option::Some(cn) => cn,
            Option::None => trimmed(subject.subrange(0, first_comma(subject) as int)),
        },
    }
}

} // verus!
