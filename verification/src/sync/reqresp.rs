//! A request slot pair and a response slot pair, created together.

use vstd::prelude::*;
use crate::sync::oneshot::Oneshot;

verus! {

/// One [`Oneshot`] for the request and one for the response.
#[verifier::reject_recursive_types(Req)]
#[verifier::reject_recursive_types(Resp)]
pub struct ReqResp<Req = (), Resp = ()> {
    pub request: Oneshot<Req>,
    pub response: Oneshot<Resp>,
}

impl<Req, Resp> ReqResp<Req, Resp> {
    /// Creates both pairs with all four halves in place.
    pub fn new() -> (r: Self)
        ensures
            !r.request.future_taken(),
            !r.request.completer_taken(),
            !r.response.future_taken(),
            !r.response.completer_taken(),
            r.request.linked(),
            r.response.linked(),
    {
        let request = Oneshot::new();
        let response = Oneshot::new();
        ReqResp { request, response }
    }
}

} // verus!
