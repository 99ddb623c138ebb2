//! Health-check span filter: a pure predicate over a span or event's target
//! and name that decides whether the export layer forwards it. Health-check
//! traffic is high-frequency and low-information, so it is suppressed at the
//! export layer only; the console layer stays unfiltered by this rule.

use crate::text::{contains_sub, is_prefix_of, str_contains, str_starts_with};
use vstd::prelude::*;

verus! {

/// The admission rule, first match wins: reject targets from the gRPC
/// health-check transport library or the generic health service namespace,
/// then reject span names that look like health checks, otherwise admit.
/// The substring matches are case-sensitive as written; false positives on
/// unrelated spans whose names merely contain these words are a deliberate
/// tradeoff.
pub open spec fn spec_admits(target: Seq<char>, name: Seq<char>) -> bool {
    &&& !is_prefix_of("tonic_health"@, target)
    &&& !contains_sub(target, "grpc.health"@)
    &&& !contains_sub(target, "Health"@)
    &&& !contains_sub(name, "health"@)
    &&& !contains_sub(name, "Health"@)
    &&& !contains_sub(name, "Check"@)
}

/// Decides whether a span or event with this source target and name is
/// forwarded to the export layer.
pub fn health_check_admits(target: &str, name: &str) -> (r: bool)
    ensures
        r == spec_admits(target@, name@),
{
    if str_starts_with(target, "tonic_health") {
        return false;
    }
    if str_contains(target, "grpc.health") || str_contains(target, "Health") {
        return false;
    }
    if str_contains(name, "health") || str_contains(name, "Health") || str_contains(
        name,
        "Check",
    ) {
        return false;
    }
    true
}

} // verus!
