//! Verified decision logic of the inverse-linear-interpolation orchestrator:
//! the service identity, the replies it gives, the status mapping of its
//! dependency calls, the three-call evaluation protocol and its API document.

pub mod identity;
pub mod evaluate;
pub mod reply;
pub mod laws;
pub mod openapi;
