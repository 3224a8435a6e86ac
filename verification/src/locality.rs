//! Visibility of subscriptions and publications.

use vstd::prelude::*;

verus! {

/// Who may observe a publication or feed a subscription.
#[derive(Clone, Copy, Debug, PartialEq, Eq, Structural)]
pub enum Locality {
    /// Every participant of the overlay network.
    Any,
    /// Only participants attached to this bridge instance.
    SessionLocal,
}

/// The visibility a topic gets from the routing policy's verdict on it.
pub open spec fn visibility_of(allowed: bool) -> Locality {
    if allowed {
        Locality::Any
    } else {
        Locality::SessionLocal
    }
}

/// Chooses the visibility for a topic from the routing policy's verdict.
pub fn visibility_for(allowed: bool) -> (v: Locality)
    ensures
        v == visibility_of(allowed),
{
    if allowed {
        Locality::Any
    } else {
        Locality::SessionLocal
    }
}

} // verus!
