//! The guard holder: owns the client's initialization guard for as long as
//! the server runs, and describes the adapter to the server.

use crate::trace;
use rocket::http::HeaderMap;
use sentry::ClientInitGuard;
use std::sync::Mutex;
use vstd::prelude::*;

verus! {

/// Sentry's initialization guard: dropping it flushes and shuts down the
/// client.
#[verifier::external_type_specification]
#[verifier::external_body]
pub struct ExClientInitGuard(ClientInitGuard);

/// The standard library's mutual-exclusion lock.
#[verifier::external_type_specification]
#[verifier::external_body]
#[verifier::reject_recursive_types(T)]
pub struct ExMutex<T: ?Sized>(Mutex<T>);

/// What a guard slot was made around: the value that was handed to
/// `Mutex::new` when the lock was made. It belongs to the lock for good and
/// says nothing of what the lock guards after somebody has locked it.
pub uninterp spec fn made_around(slot: Mutex<Option<ClientInitGuard>>) -> Option<ClientInitGuard>;

/// `Mutex::new`. Assumed: no more than what names the lock's origin, that the
/// new lock was made around `handle`.
#[verifier::external_body]
fn new_slot(handle: Option<ClientInitGuard>) -> (slot: Mutex<Option<ClientInitGuard>>)
    ensures
        made_around(slot) == handle,
{
    Mutex::new(handle)
}

/// Name under which the adapter registers.
pub open spec fn fairing_name() -> Seq<char> {
    "rocket-sentry"@
}

/// What the adapter tells the server about itself.
#[derive(Clone, Copy, Debug)]
pub struct FairingInfo {
    /// Stable name of the adapter.
    pub name: &'static str,
    /// Takes part once, when the server ignites.
    pub ignite: bool,
    /// Takes part in every request, before it is routed.
    pub request: bool,
    /// At most one instance may be attached to a server.
    pub singleton: bool,
}

/// Holds the client's guard behind a lock, so that whoever inspects or
/// replaces it does so alone. The guard is dropped with the holder.
pub struct RocketSentry {
    guard: Mutex<Option<ClientInitGuard>>,
}

impl RocketSentry {
    /// The guard that the holder took ownership of when it was made. Nothing
    /// here takes it out of the holder again: it lives until the holder is
    /// dropped.
    pub closed spec fn owned_guard(&self) -> Option<ClientInitGuard> {
        made_around(self.guard)
    }

    /// Takes ownership of `sentry`, the guard of a client that was initialized
    /// already, and puts it behind the holder's lock. A guard of a disabled
    /// client is as good as any other.
    pub fn fairing(sentry: ClientInitGuard) -> (holder: RocketSentry)
        ensures
            holder.owned_guard() == Some(sentry),
    {
        RocketSentry { guard: new_slot(Some(sentry)) }
    }

    /// Describes the adapter: its name, the two points at which it takes
    /// part, and that a server may carry only one of it.
    pub fn info(&self) -> (info: FairingInfo)
        ensures
            info.name@ == fairing_name(),
            info.ignite,
            info.request,
            info.singleton,
    {
        FairingInfo { name: "rocket-sentry", ignite: true, request: true, singleton: true }
    }

    /// Runs once per request, before it is routed: starts the request's
    /// transaction from its trace header and makes it the current span. The
    /// held guard plays no part in it, so a disabled client changes nothing.
    pub fn on_request(&self, headers: &HeaderMap<'_>) {
        trace::on_request(headers)
    }
}

} // verus!
