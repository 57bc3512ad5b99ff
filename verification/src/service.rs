//! Compile-time checks of a service value.
//!
//! A router accepts a service only if it can be cloned and shared between
//! threads. Where a service lacks one of these, the compiler's complaint
//! normally appears deep inside the router's own bounds. Passing the service
//! through one of these functions moves the complaint to the call, where the
//! service is written. Neither function does anything when run.

use vstd::prelude::*;

verus! {

/// Accepts a service that a router can hold, and nothing else.
pub fn check_service<S>(_service: &S) where S: Clone + Send + Sync + 'static {
}

/// Accepts a service that a router can hold, and hands it back as it is.
pub fn debug_service<S>(service: S) -> (checked: S) where S: Clone + Send + Sync + 'static
    ensures
        checked == service,
{
    check_service(&service);
    service
}

} // verus!
