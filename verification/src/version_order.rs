//! The order of version strings in the terms of the standard library.

use std::cmp::Ordering;
use vstd::prelude::*;
use crate::versions::{compare_versions, version_order, VersionOrder};

verus! {

/// Compares two version strings: by the numbers between their dots, a
/// part that is no number, or is missing, counting as 0.
pub fn version_compare(v1: &str, v2: &str) -> (r: Ordering)
    ensures
        match version_order(v1@, v2@) {
            VersionOrder::Older => r == Ordering::Less,
            VersionOrder::Same => r == Ordering::Equal,
            VersionOrder::Newer => r == Ordering::Greater,
        },
{
    match compare_versions(v1, v2) {
        VersionOrder::Older => Ordering::Less,
        VersionOrder::Same => Ordering::Equal,
        VersionOrder::Newer => Ordering::Greater,
    }
}

} // verus!
