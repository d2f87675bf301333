//! Scope labels: the short name under which a network instance appears in a
//! rendered line.

use vstd::prelude::*;

verus! {

/// The label of a network: fixed names for the networks 0, 1 and 2, and one
/// shared name for every other id.
pub open spec fn scope_of(network_id: u32) -> Seq<char> {
    if network_id == 0 {
        "zeam-n1"@
    } else if network_id == 1 {
        "zeam-n2"@
    } else if network_id == 2 {
        "zeam-n3"@
    } else {
        "zeam-default"@
    }
}

/// Resolves a network id to its scope label.
pub fn scope_label(network_id: u32) -> (label: &'static str)
    ensures
        label@ == scope_of(network_id),
{
    match network_id {
        0 => "zeam-n1",
        1 => "zeam-n2",
        2 => "zeam-n3",
        _ => "zeam-default",
    }
}

} // verus!
