//! Access doorbell: arbitrates exclusive access to one enclave handle.
//!
//! The enclave transition is costly and the hardware does not support safe
//! concurrent re-entry, so every boundary call must hold the single access
//! token for its enclave variant. The doorbell hands that token out and
//! takes it back; the state transition itself is its only side effect
//! (free, then held, then free again).
//!
//! The doorbell is a sequential transition system. A caller that asked for
//! blocking access and found the doorbell held receives [`AccessResponse::Wait`];
//! the host loop that drives the gateway suspends the thread and asks again
//! once the holder releases. The operating-system suspension itself lives
//! with that loop, outside the library.

use vstd::prelude::*;

use crate::router::Variant;

verus! {

/// Opaque identifier of a loaded enclave instance and its lifecycle state.
/// Exactly one instance exists per enclave variant; it is created on enclave
/// load and destroyed on unload.
#[derive(Clone, Copy, PartialEq, Eq, Structural, Debug)]
pub struct EnclaveHandle {
    /// Opaque instance identifier handed out by the platform loader.
    pub id: u64,
    /// Whether the instance is currently loaded.
    pub loaded: bool,
}

/// Proof of exclusive access to an enclave handle. At most one token is live
/// per enclave variant at any time; the holder surrenders it through
/// [`AccessDoorbell::release_access`], exactly once, on every exit path.
///
/// The token is deliberately neither `Clone` nor `Copy`: releasing consumes
/// it, so a single grant cannot be surrendered twice.
#[derive(Debug)]
pub struct AccessToken {
    variant: Variant,
    enclave_id: u64,
}

impl AccessToken {
    /// The enclave variant this token grants access to.
    pub closed spec fn spec_variant(&self) -> Variant {
        self.variant
    }

    /// The identifier of the enclave instance behind the token.
    pub closed spec fn spec_enclave_id(&self) -> u64 {
        self.enclave_id
    }

    /// Identifier of the enclave instance the token grants access to; the
    /// dispatcher passes it into the boundary call.
    pub fn enclave_id(&self) -> (id: u64)
        ensures
            id == self.spec_enclave_id(),
    {
        self.enclave_id
    }
}

/// Answer to one access request.
#[derive(Debug)]
pub enum AccessResponse {
    /// The doorbell was free; the caller now holds the only live token.
    Granted(AccessToken),
    /// The doorbell was held and the caller declined to wait.
    Busy,
    /// The doorbell was held and the caller asked to block; the host loop
    /// suspends and repeats the request after the holder releases.
    Wait,
}

/// Mutual-exclusion broker for one enclave handle.
pub struct AccessDoorbell {
    variant: Variant,
    handle: EnclaveHandle,
    held: bool,
}

impl AccessDoorbell {
    /// The enclave variant this doorbell guards.
    pub closed spec fn spec_variant(&self) -> Variant {
        self.variant
    }

    /// The enclave handle this doorbell guards.
    pub closed spec fn spec_handle(&self) -> EnclaveHandle {
        self.handle
    }

    /// Whether the access token is currently out.
    pub closed spec fn is_held(&self) -> bool {
        self.held
    }

    /// A doorbell only ever guards a loaded enclave instance.
    pub open spec fn wf(&self) -> bool {
        self.spec_handle().loaded
    }

    /// Create the doorbell for a freshly loaded enclave instance; the
    /// doorbell starts free.
    pub fn new(variant: Variant, handle: EnclaveHandle) -> (d: AccessDoorbell)
        requires
            handle.loaded,
        ensures
            d.wf(),
            d.spec_variant() == variant,
            d.spec_handle() == handle,
            !d.is_held(),
    {
        AccessDoorbell { variant, handle, held: false }
    }

    /// Identifier of the enclave instance this doorbell guards.
    pub fn handle_id(&self) -> (id: u64)
        ensures
            id == self.spec_handle().id,
    {
        self.handle.id
    }

    /// Request the access token.
    ///
    /// A free doorbell always grants. A held doorbell answers `Busy` to a
    /// non-blocking request — exactly then, so contention is never masked —
    /// and `Wait` to a blocking one.
    pub fn get_access(&mut self, blocking: bool) -> (r: AccessResponse)
        ensures
            final(self).spec_variant() == old(self).spec_variant(),
            final(self).spec_handle() == old(self).spec_handle(),
            (r is Busy) <==> (old(self).is_held() && !blocking),
            (r is Wait) <==> (old(self).is_held() && blocking),
            (r is Granted) <==> !old(self).is_held(),
            r matches AccessResponse::Granted(t) ==> {
                &&& t.spec_variant() == old(self).spec_variant()
                &&& t.spec_enclave_id() == old(self).spec_handle().id
                &&& final(self).is_held()
            },
            !(r is Granted) ==> *final(self) == *old(self),
    {
        if self.held {
            if blocking {
                AccessResponse::Wait
            } else {
                AccessResponse::Busy
            }
        } else {
            self.held = true;
            AccessResponse::Granted(AccessToken { variant: self.variant, enclave_id: self.handle.id })
        }
    }

    /// Surrender the access token, making the doorbell available to the next
    /// waiter. Consumes the token, so each grant is released exactly once.
    pub fn release_access(&mut self, token: AccessToken)
        requires
            old(self).is_held(),
            token.spec_variant() == old(self).spec_variant(),
            token.spec_enclave_id() == old(self).spec_handle().id,
        ensures
            final(self).spec_variant() == old(self).spec_variant(),
            final(self).spec_handle() == old(self).spec_handle(),
            !final(self).is_held(),
    {
        let _ = token;
        self.held = false;
    }
}

/// One request made of a doorbell, as seen in a history of concurrent
/// callers serialized by the doorbell itself.
pub enum AccessEvent {
    /// A call of [`AccessDoorbell::get_access`]; grants a token exactly when
    /// the doorbell is free, whichever mode the caller chose.
    Request { blocking: bool },
    /// A holder surrendered its token.
    Release,
}

/// Number of live tokens after a history of requests and releases against a
/// doorbell that starts free. A request mints a token only when none is
/// live — a held doorbell answers `Busy` or `Wait` and grants nothing — and
/// a release retires one.
pub open spec fn live_tokens_after(events: Seq<AccessEvent>) -> nat
    decreases events.len(),
{
    if events.len() == 0 {
        0
    } else {
        let live = live_tokens_after(events.drop_last());
        match events.last() {
            AccessEvent::Request { .. } => if live == 0 { 1nat } else { live },
            AccessEvent::Release => if live == 0 { 0nat } else { (live - 1) as nat },
        }
    }
}

/// Whether the doorbell is held after a history of requests and releases,
/// starting free: a request leaves it held — it either grants or finds it
/// already held — and a release with a token out frees it.
pub open spec fn held_after(events: Seq<AccessEvent>) -> bool
    decreases events.len(),
{
    if events.len() == 0 {
        false
    } else {
        match events.last() {
            AccessEvent::Request { .. } => true,
            AccessEvent::Release => live_tokens_after(events.drop_last()) > 1,
        }
    }
}

/// Law (mutual exclusion): however a sequence of concurrent access requests
/// and releases against one enclave variant is interleaved, at most one
/// access token is live at any instant, and the doorbell reads as held
/// exactly while that one token is out. The bound holds of every history,
/// so in particular of every prefix of a longer one.
pub proof fn lemma_mutual_exclusion(events: Seq<AccessEvent>)
    ensures
        live_tokens_after(events) <= 1,
        held_after(events) <==> live_tokens_after(events) == 1,
    decreases events.len(),
{
    if events.len() > 0 {
        lemma_mutual_exclusion(events.drop_last());
    }
}

} // verus!
