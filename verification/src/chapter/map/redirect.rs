//! The map identifiers the engine files under another map's identifier.

use vstd::prelude::*;

verus! {

/// The identifier a map is filed under in the per-stage tables.
pub open spec fn redirect_spec(id: u32) -> u32 {
    if id == 20000 { 3008 }
    else if id == 20001 { 3009 }
    else if id == 20002 { 3010 }
    else if id == 21000 { 3011 }
    else if id == 21001 { 3012 }
    else if id == 21002 { 3013 }
    else if id == 22000 { 3015 }
    else if id == 22001 { 3015 }
    else if id == 22002 { 3016 }
    else if id == 23000 { 3007 }
    else if id == 30000 { 3018 }
    else if id == 38000 { 3017 }
    else { id }
}

/// Redirects the Zombie Outbreak, invasion and Aku Realms map identifiers to
/// the identifiers their stages are filed under, and leaves every other
/// identifier unchanged.
pub fn redirect_map_id(id: u32) -> (r: u32)
    ensures
        r == redirect_spec(id),
{
    match id {
        20000 => 3008,
        20001 => 3009,
        20002 => 3010,
        21000 => 3011,
        21001 => 3012,
        21002 => 3013,
        22000 => 3015,
        22001 => 3015,
        22002 => 3016,
        23000 => 3007,
        30000 => 3018,
        38000 => 3017,
        _ => id,
    }
}

/// Redirecting an identifier a second time changes nothing.
pub proof fn lemma_redirect_idempotent(id: u32)
    ensures
        redirect_spec(redirect_spec(id)) == redirect_spec(id),
{
}

} // verus!
