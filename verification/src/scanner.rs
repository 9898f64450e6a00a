//! The scan filter: which advertisement counts as the target peer.
//!
//! A peer matches when its advertised name contains the wanted name as a
//! substring, or its advertised 16-bit service UUID list contains the wanted
//! service. The first match wins and stops the scan; the radio layer owns
//! the scan window itself.

use vstd::prelude::*;

use crate::bytes::{contains_bytes, contains_seq};

verus! {

/// The 16-bit UUID of the target wearable service.
pub const MIWEAR_SERVICE_UUID: u16 = 0xFE95;

/// What the scan filter reads of one advertisement: the advertised name, if
/// any, and the advertised plain 16-bit service UUIDs. (A 128-bit advertised
/// UUID can never equal the 16-bit target, so only the short ones matter.)
pub struct Advertisement {
    pub name: Option<Vec<u8>>,
    pub service_uuids: Vec<u16>,
}

/// The filter: the advertised name contains `wanted_name`, or the service
/// list contains `wanted_service`.
pub open spec fn spec_scan_hit(
    adv: Advertisement,
    wanted_name: Seq<u8>,
    wanted_service: u16,
) -> bool {
    ||| (adv.name matches Some(n) && contains_seq(n@, wanted_name))
    ||| adv.service_uuids@.contains(wanted_service)
}

/// Decides whether one advertisement selects the peer.
pub fn scan_hit(adv: &Advertisement, wanted_name: &[u8], wanted_service: u16) -> (hit: bool)
    ensures
        hit == spec_scan_hit(*adv, wanted_name@, wanted_service),
{
    let name_hit = match &adv.name {
        Some(n) => contains_bytes(n.as_slice(), wanted_name),
        None => false,
    };
    if name_hit {
        return true;
    }
    let n = adv.service_uuids.len();
    let mut i: usize = 0;
    while i < n
        invariant
            n == adv.service_uuids@.len(),
            i <= n,
            forall|k: int| 0 <= k < i ==> adv.service_uuids@[k] != wanted_service,
        decreases n - i,
    {
        if adv.service_uuids[i] == wanted_service {
            return true;
        }
        i = i + 1;
    }
    false
}

} // verus!
