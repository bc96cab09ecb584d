//! Scan filtering: which discovered peripherals count as performance
//! monitors.
//!
//! A peripheral qualifies when its advertised name contains the
//! vendor-specific marker, case-sensitively. The radio edge hands in the
//! names it saw during the scan window; this module picks the qualifying
//! indices and decides whether the scan found anything at all.

use vstd::prelude::*;
use vstd::string::StrSliceExecFns;

use crate::errors::DiscoveryError;

verus! {

/// Whether `needle` occurs at position `at` of `hay`.
pub open spec fn matches_at(hay: Seq<char>, needle: Seq<char>, at: int) -> bool {
    0 <= at && at + needle.len() <= hay.len() && hay.subrange(at, at + needle.len()) == needle
}

/// Whether `needle` occurs anywhere in `hay`.
pub open spec fn contains_seq(hay: Seq<char>, needle: Seq<char>) -> bool {
    exists|at: int| matches_at(hay, needle, at)
}

/// The marker that identifies a performance monitor in an advertised name.
pub open spec fn spec_monitor_marker() -> Seq<char> {
    "PM"@
}

/// Runtime counterpart of [`spec_monitor_marker`].
pub fn monitor_marker() -> (r: &'static str)
    ensures
        r@ == spec_monitor_marker(),
{
    "PM"
}

/// Whether `needle` occurs at position `at` of `hay`, compared character by
/// character.
fn check_match_at(hay: &str, needle: &str, at: usize) -> (r: bool)
    requires
        at + needle@.len() <= hay@.len(),
        hay@.len() <= usize::MAX,
    ensures
        r == matches_at(hay@, needle@, at as int),
{
    let needle_len = needle.unicode_len();
    let mut offset: usize = 0;
    while offset < needle_len
        invariant
            needle_len == needle@.len(),
            at + needle_len <= hay@.len(),
            hay@.len() <= usize::MAX,
            offset <= needle_len,
            forall|q: int| 0 <= q < offset ==> hay@[at + q] == needle@[q],
        decreases needle_len - offset,
    {
        if hay.get_char(at + offset) != needle.get_char(offset) {
            proof {
                assert(hay@.subrange(at as int, at + needle@.len())[offset as int] == hay@[at
                    + offset]);
            }
            return false;
        }
        offset = offset + 1;
    }
    proof {
        assert(hay@.subrange(at as int, at + needle@.len()) =~= needle@);
    }
    true
}

/// Substring search, position by position.
pub fn contains_substring(hay: &str, needle: &str) -> (r: bool)
    ensures
        r == contains_seq(hay@, needle@),
{
    let hay_len = hay.unicode_len();
    let needle_len = needle.unicode_len();
    if needle_len > hay_len {
        proof {
            assert(forall|at: int| !matches_at(hay@, needle@, at));
        }
        return false;
    }
    if needle_len == 0 {
        proof {
            assert(hay@.subrange(0, 0) =~= needle@);
            assert(matches_at(hay@, needle@, 0));
        }
        return true;
    }
    let mut at: usize = 0;
    while at <= hay_len - needle_len
        invariant
            1 <= needle_len <= hay_len,
            hay_len == hay@.len(),
            needle_len == needle@.len(),
            at <= hay_len - needle_len + 1,
            forall|p: int| 0 <= p < at ==> !matches_at(hay@, needle@, p),
        decreases hay_len - needle_len - at + 1,
    {
        if check_match_at(hay, needle, at) {
            return true;
        }
        at = at + 1;
    }
    proof {
        assert(forall|p: int| at <= p ==> !matches_at(hay@, needle@, p));
    }
    false
}

/// Whether one advertised name qualifies as a performance monitor.
pub fn is_performance_monitor_name(name: &str) -> (r: bool)
    ensures
        r == contains_seq(name@, spec_monitor_marker()),
{
    contains_substring(name, monitor_marker())
}

/// Picks the performance monitors out of the scanned names: the indices of
/// every name containing the marker, in scan order. Fails with
/// [`DiscoveryError::NoPeripheralFound`] exactly when no name qualifies.
pub fn filter_performance_monitors(names: &Vec<String>) -> (r: Result<Vec<usize>, DiscoveryError>)
    ensures
        match r {
            Ok(picked) => {
                &&& picked@.len() > 0
                &&& forall|k: int|
                    0 <= k < picked@.len() ==> picked@[k] < names@.len() && contains_seq(
                        names@[picked@[k] as int]@,
                        spec_monitor_marker(),
                    )
                &&& forall|k1: int, k2: int|
                    0 <= k1 < k2 < picked@.len() ==> picked@[k1] < picked@[k2]
                &&& forall|i: int|
                    0 <= i < names@.len() && contains_seq(names@[i]@, spec_monitor_marker())
                        ==> picked@.contains(i as usize)
            },
            Err(e) => {
                &&& e == DiscoveryError::NoPeripheralFound
                &&& forall|i: int|
                    0 <= i < names@.len() ==> !contains_seq(names@[i]@, spec_monitor_marker())
            },
        },
{
    let mut picked: Vec<usize> = Vec::new();
    let mut i: usize = 0;
    while i < names.len()
        invariant
            i <= names@.len(),
            forall|k: int|
                0 <= k < picked@.len() ==> picked@[k] < i && contains_seq(
                    names@[picked@[k] as int]@,
                    spec_monitor_marker(),
                ),
            forall|k1: int, k2: int| 0 <= k1 < k2 < picked@.len() ==> picked@[k1] < picked@[k2],
            forall|j: int|
                0 <= j < i && contains_seq(names@[j]@, spec_monitor_marker()) ==> picked@.contains(
                    j as usize,
                ),
        decreases names@.len() - i,
    {
        if is_performance_monitor_name(names[i].as_str()) {
            let ghost prev = picked@;
            picked.push(i);
            proof {
                assert(picked@ =~= prev.push(i as usize));
                assert forall|j: int|
                    0 <= j <= i && contains_seq(names@[j]@, spec_monitor_marker()) implies picked@
                    .contains(j as usize) by {
                    if j < i {
                        let k = choose|k: int| 0 <= k < prev.len() && prev[k] == (j as usize);
                        assert(picked@[k] == j as usize);
                    } else {
                        assert(picked@[picked@.len() - 1] == j as usize);
                    }
                }
            }
        }
        i = i + 1;
    }
    if picked.len() == 0 {
        proof {
            assert forall|j: int|
                0 <= j < names@.len() implies !contains_seq(names@[j]@, spec_monitor_marker()) by {
                if contains_seq(names@[j]@, spec_monitor_marker()) {
                    assert(picked@.contains(j as usize));
                }
            }
        }
        Err(DiscoveryError::NoPeripheralFound)
    } else {
        Ok(picked)
    }
}

/// The discovery decision at the adapter stage: fails with
/// [`DiscoveryError::NoAdapterFound`] exactly when the radio stack reported
/// zero adapters.
pub fn require_adapters(adapter_count: usize) -> (r: Result<(), DiscoveryError>)
    ensures
        adapter_count > 0 <==> r is Ok,
        adapter_count == 0 <==> r == Err::<(), DiscoveryError>(DiscoveryError::NoAdapterFound),
{
    if adapter_count == 0 {
        Err(DiscoveryError::NoAdapterFound)
    } else {
        Ok(())
    }
}

} // verus!
