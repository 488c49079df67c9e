//! Verified core of a minimal HTTP service skeleton.
//!
//! Three fixed routes (a greeting at `/`, a health report at `/health`, an
//! empty user listing at `/api/users`) are modelled as pure functions from a
//! request path to a fully determined response: status code, JSON body and
//! permissive cross-origin headers. Port resolution from an optional
//! environment value is verified as well. The network listener, the async
//! runtime and the framework wiring live outside this crate and call into it.

use vstd::prelude::*;

pub mod clock;
pub mod config;
pub mod json;
pub mod responses;
pub mod routing;

verus! {

/// The fixed greeting string served at the root route.
pub open spec fn spec_greeting() -> Seq<char> {
    "Axum skeleton API is running!"@
}

} // verus!
