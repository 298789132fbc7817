//! Animation and skin requests made before a skeleton's asset has loaded.

use vstd::prelude::*;

verus! {

/// Deferred animation request, kept until the skeleton's asset has loaded.
#[derive(Clone, Debug)]
pub struct PendingAnimation {
    /// Track index inside the animation state (track 0 is the primary).
    pub track: usize,
    /// Animation name as declared by the skeleton data.
    pub name: String,
    /// `true` to loop, `false` to play once.
    pub looping: bool,
}

/// Where a request ends up: dispatched now (first), and the pending slot
/// afterwards (second).
pub open spec fn spec_route<T>(loaded: bool, pending: Option<T>, request: T) -> (
    Option<T>,
    Option<T>,
) {
    if loaded {
        (Some(request), pending)
    } else {
        (None, Some(request))
    }
}

/// Routes a playback or skin request: once the asset has loaded it is handed
/// back for immediate dispatch and the pending slot is left alone; before
/// that it is queued, replacing whatever was pending.
pub fn route_request<T>(loaded: bool, pending: &mut Option<T>, request: T) -> (dispatch: Option<T>)
    ensures
        (dispatch, *final(pending)) == spec_route(loaded, *old(pending), request),
        loaded ==> dispatch == Some(request) && *final(pending) == *old(pending),
        !loaded ==> dispatch is None && *final(pending) == Some(request),
{
    if loaded {
        Some(request)
    } else {
        *pending = Some(request);
        None
    }
}

/// What taking a pending slot yields (first) and leaves behind (second).
pub open spec fn spec_take<T>(pending: Option<T>) -> (Option<T>, Option<T>) {
    (pending, None)
}

/// The requests a skeleton applies when its asset has loaded, in the order
/// they are applied: the animation first, then the skin.
#[derive(Debug)]
pub struct InitRequests {
    pub animation: Option<PendingAnimation>,
    pub skin: Option<String>,
}

/// Takes the pending animation and skin for a skeleton whose asset has just
/// loaded; both pending slots are empty afterwards, so each request is
/// applied once.
pub fn take_init_requests(
    pending_animation: &mut Option<PendingAnimation>,
    pending_skin: &mut Option<String>,
) -> (r: InitRequests)
    ensures
        (r.animation, *final(pending_animation)) == spec_take(*old(pending_animation)),
        (r.skin, *final(pending_skin)) == spec_take(*old(pending_skin)),
        r.animation == *old(pending_animation) && *final(pending_animation) is None,
        r.skin == *old(pending_skin) && *final(pending_skin) is None,
{
    let animation = pending_animation.take();
    let skin = pending_skin.take();
    InitRequests { animation, skin }
}

/// Of several requests made before the asset loads, only the last one is
/// kept, whatever was pending before.
pub proof fn lemma_last_request_wins<T>(pending: Option<T>, first: T, second: T)
    ensures
        spec_route(false, spec_route(false, pending, first).1, second).1 == Some(second),
        spec_route(false, pending, first).0 is None,
{
}

/// A request queued before the asset loads is the one applied when it loads,
/// and the pending slot is empty after that: queueing, then taking at
/// initialisation, delivers the request exactly once.
pub proof fn lemma_queued_request_applied_at_init<T>(pending: Option<T>, request: T)
    ensures
        spec_take(spec_route(false, pending, request).1) == (Some(request), None::<T>),
{
}

/// Once the asset has loaded, a request is dispatched as given and never
/// touches the pending slot.
pub proof fn lemma_loaded_request_dispatched<T>(pending: Option<T>, request: T)
    ensures
        spec_route(true, pending, request) == (Some(request), pending),
{
}

} // verus!
