//! Finding a device in an enumeration, by identifier or by position.
//!
//! With a target identifier the earliest exact match wins; without one the
//! first enumerated device is taken.

use vstd::prelude::*;

verus! {

/// Whether an identifier satisfies the target: an exact match when a target
/// is given, anything otherwise.
pub open spec fn id_matches(id: Seq<char>, target: Option<Seq<char>>) -> bool {
    match target {
        Some(t) => id == t,
        None => true,
    }
}

/// The target identifier as a character sequence, when one is given.
pub open spec fn target_view(target_id: Option<&String>) -> Option<Seq<char>> {
    match target_id {
        Some(t) => Some(t@),
        None => None,
    }
}

/// Whether this identifier satisfies the target.
pub fn matches_target(id: &String, target_id: Option<&String>) -> (r: bool)
    ensures
        r == id_matches(id@, target_view(target_id)),
{
    match target_id {
        Some(t) => *id == *t,
        None => true,
    }
}

/// Position of the device to take from an enumeration: the earliest
/// identifier matching the target, or the first device when no target is
/// given; nothing when no identifier satisfies the target.
pub fn find_device_in_list(ids: &Vec<String>, target_id: Option<&String>) -> (r: Option<usize>)
    ensures
        r is Some ==> 0 <= r->0 < ids@.len() && id_matches(
            ids@[r->0 as int]@,
            target_view(target_id),
        ) && (forall|k: int|
            0 <= k < r->0 ==> !id_matches(ids@[k]@, target_view(target_id))),
        r is None ==> forall|k: int|
            0 <= k < ids@.len() ==> !id_matches(ids@[k]@, target_view(target_id)),
{
    let n = ids.len();
    let mut i: usize = 0;
    while i < n
        invariant
            n == ids@.len(),
            0 <= i <= n,
            forall|k: int| 0 <= k < i ==> !id_matches(ids@[k]@, target_view(target_id)),
        decreases n - i,
    {
        if matches_target(&ids[i], target_id) {
            return Some(i);
        }
        i += 1;
    }
    None
}

} // verus!
