//! The order of versions.

use vstd::prelude::*;
use std::cmp::Ordering;
use crate::instance::AemInstanceType;
use crate::profile::{profile_order, profile_order_of, EnvironmentProfile};
use crate::scan::{goes_before, ScannedAemInstance};
use crate::text::{compare_text, text_order};
use crate::version::{
    ints, numbers_of, numbers_order, numbers_order_at, version_numbers, version_order,
};

verus! {

/// Compares two versions by their numbers: the first pair of unequal numbers
/// decides, and where there is none, the version with fewer numbers is the
/// lesser.
pub fn compare_versions(a: &str, b: &str) -> (r: Ordering)
    ensures
        r is Less <==> version_order(a@, b@) == -1,
        r is Equal <==> version_order(a@, b@) == 0,
        r is Greater <==> version_order(a@, b@) == 1,
{
    let va = numbers_of(a);
    let vb = numbers_of(b);
    let mut i: usize = 0;
    while i < va.len() && i < vb.len()
        invariant
            i <= va.len(),
            i <= vb.len(),
            ints(va@) == version_numbers(a@),
            ints(vb@) == version_numbers(b@),
            ints(va@).len() == va@.len(),
            ints(vb@).len() == vb@.len(),
            forall|j: int| 0 <= j < va@.len() ==> #[trigger] ints(va@)[j] == va@[j],
            forall|j: int| 0 <= j < vb@.len() ==> #[trigger] ints(vb@)[j] == vb@[j],
            numbers_order(ints(va@), ints(vb@), 0) == numbers_order_at(ints(va@), ints(vb@), i),
        decreases va.len() - i,
    {
        if va[i] < vb[i] {
            return Ordering::Less;
        }
        if va[i] > vb[i] {
            return Ordering::Greater;
        }
        i += 1;
    }
    if va.len() < vb.len() {
        Ordering::Less
    } else if va.len() > vb.len() {
        Ordering::Greater
    } else {
        Ordering::Equal
    }
}


/// Compares two texts character by character.
pub fn compare_strings(a: &str, b: &str) -> (r: Ordering)
    ensures
        r is Less <==> text_order(a@, b@) == -1,
        r is Equal <==> text_order(a@, b@) == 0,
        r is Greater <==> text_order(a@, b@) == 1,
{
    let sign = compare_text(a, b);
    if sign < 0 {
        Ordering::Less
    } else if sign > 0 {
        Ordering::Greater
    } else {
        Ordering::Equal
    }
}

/// Compares two profiles for the list of profiles: of two profiles that
/// were used, the one used later goes first; a profile that was never used
/// goes before one that was; two that were never used go by their names.
pub fn compare_profiles(a: &EnvironmentProfile, b: &EnvironmentProfile) -> (r: Ordering)
    ensures
        r is Less <==> profile_order_of(a@, b@) == -1,
        r is Equal <==> profile_order_of(a@, b@) == 0,
        r is Greater <==> profile_order_of(a@, b@) == 1,
{
    let sign = profile_order(a, b);
    if sign < 0 {
        Ordering::Less
    } else if sign > 0 {
        Ordering::Greater
    } else {
        Ordering::Equal
    }
}


/// Compares two found instances for the list of found instances: an author
/// goes before a publisher, and otherwise the lower port goes first.
pub fn compare_scanned(a: &ScannedAemInstance, b: &ScannedAemInstance) -> (r: Ordering)
    ensures
        r is Less <==> goes_before((a.instance_type, a.port), (b.instance_type, b.port)),
        r is Greater <==> goes_before((b.instance_type, b.port), (a.instance_type, a.port)),
{
    if a.instance_type == AemInstanceType::Author && b.instance_type == AemInstanceType::Publish {
        Ordering::Less
    } else if a.instance_type == AemInstanceType::Publish && b.instance_type
        == AemInstanceType::Author {
        Ordering::Greater
    } else if a.port < b.port {
        Ordering::Less
    } else if a.port > b.port {
        Ordering::Greater
    } else {
        Ordering::Equal
    }
}

} // verus!
