//! The case-blind certificate search: a certificate is shown when the
//! lowered query occurs in its lowered subject line.

use vstd::prelude::*;

use crate::certs::CertificateInfo;

verus! {

/// What `str::to_lowercase` returns for a given character sequence: the
/// result depends on the characters alone.
pub uninterp spec fn lower_of(s: Seq<char>) -> Seq<char>;

/// Relies on `str::to_lowercase`: the lowercase equivalent of the string,
/// empty exactly for the empty string.
#[verifier::external_body]
fn lowercase(s: &str) -> (r: String)
    ensures
        r@ == lower_of(s@),
        s@.len() == 0 ==> r@.len() == 0,
{
    s.to_lowercase()
}

/// Whether `needle` occurs contiguously inside `hay`.
pub open spec fn is_substring(hay: Seq<char>, needle: Seq<char>) -> bool {
    exists|i: int|
        0 <= i && i + needle.len() <= hay.len() && #[trigger] hay.subrange(
            i,
            i + needle.len() as int,
        ) == needle
}

/// Whether the query selects this certificate: its lowered form occurs in
/// the lowered subject line.
pub open spec fn cert_matches(cert: CertificateInfo, query: Seq<char>) -> bool {
    is_substring(lower_of(cert.subject_name@), lower_of(query))
}

/// Decides `is_substring` by direct search.
pub fn contains_chars(hay: &str, needle: &str) -> (r: bool)
    ensures
        r == is_substring(hay@, needle@),
{
    let hlen = hay.unicode_len();
    let nlen = needle.unicode_len();
    if nlen > hlen {
        assert(!is_substring(hay@, needle@));
        return false;
    }
    if nlen == 0 {
        proof {
            assert(hay@.subrange(0, 0 + needle@.len() as int) =~= needle@);
            assert(is_substring(hay@, needle@));
        }
        return true;
    }
    let needle_owned = needle.to_owned();
    let mut i: usize = 0;
    while i <= hlen - nlen
        invariant
            hlen == hay@.len(),
            nlen == needle@.len(),
            1 <= nlen <= hlen,
            needle_owned@ == needle@,
            0 <= i <= hlen - nlen + 1,
            forall|k: int|
                0 <= k < i ==> #[trigger] hay@.subrange(k, k + needle@.len() as int)
                    != needle@,
        decreases hlen - i,
    {
        let window = hay.substring_char(i, i + nlen).to_owned();
        if window == needle_owned {
            assert(hay@.subrange(i as int, i + nlen as int) == needle@);
            return true;
        }
        i = i + 1;
    }
    assert forall|k: int| 0 <= k && k + needle@.len() <= hay@.len() implies #[trigger] hay@
        .subrange(k, k + needle@.len() as int) != needle@ by {
        assert(k < i);
    }
    false
}

/// The certificates that the query selects, in their original order.
pub open spec fn matching_certs(certs: Seq<CertificateInfo>, query: Seq<char>) -> Seq<
    CertificateInfo,
>
    decreases certs.len(),
{
    if certs.len() == 0 {
        Seq::<CertificateInfo>::empty()
    } else if cert_matches(certs.last(), query) {
        matching_certs(certs.drop_last(), query).push(certs.last())
    } else {
        matching_certs(certs.drop_last(), query)
    }
}

/// Filters the certificate list by the search query, keeping the order.
pub fn filter_certificates(certs: &Vec<CertificateInfo>, query: &str) -> (r: Vec<
    CertificateInfo,
>)
    ensures
        r@ == matching_certs(certs@, query@),
{
    let lowered_query = lowercase(query);
    let mut kept: Vec<CertificateInfo> = Vec::new();
    let mut i: usize = 0;
    assert(certs@.subrange(0, 0) =~= Seq::<CertificateInfo>::empty());
    while i < certs.len()
        invariant
            0 <= i <= certs@.len(),
            lowered_query@ == lower_of(query@),
            kept@ == matching_certs(certs@.subrange(0, i as int), query@),
        decreases certs@.len() - i,
    {
        let lowered_subject = lowercase(certs[i].subject_name.as_str());
        if contains_chars(lowered_subject.as_str(), lowered_query.as_str()) {
            kept.push(certs[i].duplicate());
        }
        proof {
            let pre = certs@.subrange(0, i + 1);
            assert(pre.drop_last() =~= certs@.subrange(0, i as int));
            assert(pre.last() == certs@[i as int]);
        }
        i = i + 1;
    }
    assert(certs@.subrange(0, certs@.len() as int) =~= certs@);
    kept
}

} // verus!
