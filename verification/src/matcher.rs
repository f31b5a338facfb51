//! Device matcher: filters scanned advertisements by advertised-name prefix.
//!
//! Matching is case-sensitive byte-prefix comparison, with no normalization;
//! a device that advertises no name never matches.

use vstd::prelude::*;

verus! {

/// One advertisement seen during a scan: a caller-assigned device identifier
/// and the advertised name, if any, as raw bytes.
#[derive(Debug)]
pub struct AdvertisedDevice {
    /// Identifier the transport layer uses to address this peripheral.
    pub id: u64,
    /// Advertised local name, absent when the advertisement carried none.
    pub name: Option<Vec<u8>>,
}

/// `p` is a prefix of `s`.
pub open spec fn is_prefix(p: Seq<u8>, s: Seq<u8>) -> bool {
    p.len() <= s.len() && s.take(p.len() as int) == p
}

/// Whether an advertised name matches a prefix: the name must be present and
/// start with the prefix.
pub open spec fn matches_spec(name: Option<Seq<u8>>, prefix: Seq<u8>) -> bool {
    match name {
        Some(n) => is_prefix(prefix, n),
        None => false,
    }
}

/// Whether a scanned device's advertisement matches the prefix.
pub open spec fn device_matches(d: AdvertisedDevice, prefix: Seq<u8>) -> bool {
    match d.name {
        Some(n) => is_prefix(prefix, n@),
        None => false,
    }
}

/// Returns true iff the advertised name is present and starts with `prefix`.
#[verifier::loop_isolation(false)]
pub fn matches(advertised_name: Option<&Vec<u8>>, prefix: &Vec<u8>) -> (r: bool)
    ensures
        r == matches_spec(
            match advertised_name {
                Some(n) => Some(n@),
                None => None,
            },
            prefix@,
        ),
{
    match advertised_name {
        None => false,
        Some(name) => {
            if prefix.len() > name.len() {
                return false;
            }
            let mut i: usize = 0;
            while i < prefix.len()
                invariant
                    i <= prefix@.len() <= name@.len(),
                    forall|j: int| 0 <= j < i ==> name@[j] == prefix@[j],
                decreases prefix@.len() - i,
            {
                if name[i] != prefix[i] {
                    assert(name@.take(prefix@.len() as int)[i as int] != prefix@[i as int]);
                    return false;
                }
                i = i + 1;
            }
            assert(name@.take(prefix@.len() as int) =~= prefix@);
            true
        },
    }
}

/// The identifiers of the first `n` scanned devices whose advertisement
/// matches the prefix, in scan order.
pub open spec fn matched_prefix(s: Seq<AdvertisedDevice>, prefix: Seq<u8>, n: int) -> Seq<u64>
    decreases n,
{
    if n <= 0 {
        Seq::empty()
    } else if device_matches(s[n - 1], prefix) {
        matched_prefix(s, prefix, n - 1).push(s[n - 1].id)
    } else {
        matched_prefix(s, prefix, n - 1)
    }
}

/// The identifiers of the scanned devices whose advertisement matches the
/// prefix, in scan order.
pub open spec fn matched_spec(s: Seq<AdvertisedDevice>, prefix: Seq<u8>) -> Seq<u64> {
    matched_prefix(s, prefix, s.len() as int)
}

/// Law: a device without an advertised name never matches, whatever the
/// prefix; a named device matches exactly when the prefix is a byte-prefix of
/// its name.
pub proof fn lemma_matches_iff_prefix(name: Option<Seq<u8>>, prefix: Seq<u8>)
    ensures
        name is None ==> !matches_spec(name, prefix),
        name matches Some(n) ==> (matches_spec(name, prefix) <==> is_prefix(prefix, n)),
{
}

/// Law: every matched identifier belongs to one of the scanned devices, and
/// when the scanned devices are pairwise distinct so are the matched
/// identifiers — filtering never invents or repeats a device.
pub proof fn lemma_matched_ids_distinct(s: Seq<AdvertisedDevice>, prefix: Seq<u8>, n: int)
    requires
        0 <= n <= s.len(),
        forall|a: int, b: int| 0 <= a < b < s.len() ==> s[a].id != s[b].id,
    ensures
        forall|a: int|
            0 <= a < matched_prefix(s, prefix, n).len() ==> exists|k: int|
                0 <= k < n && #[trigger] matched_prefix(s, prefix, n)[a] == #[trigger] s[k].id,
        forall|a: int, b: int|
            0 <= a < b < matched_prefix(s, prefix, n).len() ==> matched_prefix(s, prefix, n)[a]
                != matched_prefix(s, prefix, n)[b],
    decreases n,
{
    if n > 0 {
        lemma_matched_ids_distinct(s, prefix, n - 1);
        let prev = matched_prefix(s, prefix, n - 1);
        let cur = matched_prefix(s, prefix, n);
        if device_matches(s[n - 1], prefix) {
            assert(cur == prev.push(s[n - 1].id));
            assert forall|a: int| 0 <= a < cur.len() implies exists|k: int|
                0 <= k < n && #[trigger] cur[a] == #[trigger] s[k].id by {
                if a < prev.len() {
                    assert(cur[a] == prev[a]);
                    let k = choose|k: int| 0 <= k < n - 1 && prev[a] == s[k].id;
                    assert(0 <= k < n && cur[a] == s[k].id);
                } else {
                    assert(cur[a] == s[n - 1].id);
                }
            }
            assert forall|a: int, b: int| 0 <= a < b < cur.len() implies cur[a] != cur[b] by {
                if b < prev.len() {
                    assert(cur[a] == prev[a] && cur[b] == prev[b]);
                } else {
                    assert(cur[b] == s[n - 1].id);
                    assert(cur[a] == prev[a]);
                    let k = choose|k: int| 0 <= k < n - 1 && prev[a] == s[k].id;
                    assert(s[k].id != s[n - 1].id);
                }
            }
        }
    }
}

/// Filters the scanned advertisements by prefix, keeping scan order: the
/// identifiers of the devices that the connection phase will try to resolve.
pub fn match_candidates(scanned: &Vec<AdvertisedDevice>, prefix: &Vec<u8>) -> (m: Vec<u64>)
    ensures
        m@ == matched_spec(scanned@, prefix@),
{
    let mut m: Vec<u64> = Vec::new();
    let mut i: usize = 0;
    while i < scanned.len()
        invariant
            i <= scanned@.len(),
            m@ == matched_prefix(scanned@, prefix@, i as int),
        decreases scanned@.len() - i,
    {
        let d = &scanned[i];
        if matches(
            match &d.name {
                Some(n) => Some(n),
                None => None,
            },
            prefix,
        ) {
            m.push(d.id);
        }
        i = i + 1;
    }
    m
}

} // verus!
