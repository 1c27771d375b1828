//! The share-manager's HTTP API.
//!
//! The CSI driver queries `/endpoint` to discover the NFS endpoint, and `/healthz` tells
//! whether the share-manager is ready.

use vstd::prelude::*;

use crate::text;

verus! {

/// What the share-manager tells of itself.
#[derive(Debug, Clone)]
pub struct ShareState {
    pub ready: bool,
    pub endpoint: Option<String>,
    pub volume: String,
    pub error: Option<String>,
}

/// The model of what the share-manager tells of itself.
pub struct Shown {
    pub ready: bool,
    pub endpoint: Option<Seq<char>>,
    pub volume: Seq<char>,
    pub error: Option<Seq<char>>,
}

impl View for ShareState {
    type V = Shown;

    open spec fn view(&self) -> Shown {
        Shown {
            ready: self.ready,
            endpoint: text::view_opt(self.endpoint),
            volume: self.volume@,
            error: text::view_opt(self.error),
        }
    }
}

/// Convenience to build a fresh state.
pub fn new_state(volume: &str) -> (r: ShareState)
    ensures
        r@ == (Shown { ready: false, endpoint: None, volume: volume@, error: None }),
{
    ShareState { ready: false, endpoint: None, volume: volume.to_owned(), error: None }
}

/// The HTTP status by which readiness is told.
pub open spec fn ready_status(ready: bool) -> u16 {
    if ready {
        200
    } else {
        503
    }
}

/// `/healthz`: whether the share-manager is ready.
pub fn healthz(state: &ShareState) -> (r: (u16, String))
    ensures
        r.0 == ready_status(state.ready),
        r.1@ == (if state.ready {
            "ok"@
        } else {
            "not ready"@
        }),
{
    if state.ready {
        (200, "ok".to_owned())
    } else {
        (503, "not ready".to_owned())
    }
}

/// `/endpoint`: the whole state, unavailable until the share-manager is ready.
pub fn endpoint(state: &ShareState) -> (r: (u16, ShareState))
    ensures
        r.0 == ready_status(state.ready),
        r.1@ == state@,
{
    let code: u16 = if state.ready {
        200
    } else {
        503
    };
    (code, state_handler(state))
}

/// `/state`: the whole state, in any case.
pub fn state_handler(state: &ShareState) -> (r: ShareState)
    ensures
        r@ == state@,
{
    ShareState {
        ready: state.ready,
        endpoint: text::copy_opt(&state.endpoint),
        volume: state.volume.clone(),
        error: text::copy_opt(&state.error),
    }
}

} // verus!
