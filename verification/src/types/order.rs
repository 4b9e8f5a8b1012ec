//! The order of certificate IDs: by their numbers.

use core::cmp::Ordering;

use vstd::prelude::*;
use vstd::std_specs::cmp::PartialOrdSpec;

use crate::types::CertificateId;

verus! {

/// The order of two numbers.
pub open spec fn number_order(a: u32, b: u32) -> Ordering {
    if a < b {
        Ordering::Less
    } else if a == b {
        Ordering::Equal
    } else {
        Ordering::Greater
    }
}

impl PartialOrd for CertificateId {
    fn partial_cmp(&self, other: &CertificateId) -> (r: Option<Ordering>) {
        let a = self.get();
        let b = other.get();
        if a < b {
            Some(Ordering::Less)
        } else if a == b {
            Some(Ordering::Equal)
        } else {
            Some(Ordering::Greater)
        }
    }
}

impl vstd::std_specs::cmp::PartialOrdSpecImpl for CertificateId {
    open spec fn obeys_partial_cmp_spec() -> bool {
        true
    }

    open spec fn partial_cmp_spec(&self, other: &CertificateId) -> Option<Ordering> {
        Some(number_order(self@, other@))
    }
}

/// CIDs are ordered as their numbers: `CertificateId::new(x) <
/// CertificateId::new(y)` exactly when `x < y`.
pub proof fn lemma_order_by_number(a: CertificateId, b: CertificateId)
    ensures
        (PartialOrdSpec::partial_cmp_spec(&a, &b) == Some(Ordering::Less)) <==> a@ < b@,
        (PartialOrdSpec::partial_cmp_spec(&a, &b) == Some(Ordering::Equal)) <==> a == b,
        (PartialOrdSpec::partial_cmp_spec(&a, &b) == Some(Ordering::Greater)) <==> a@ > b@,
{
    CertificateId::lemma_number_determines(a, b);
}

} // verus!
