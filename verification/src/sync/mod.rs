//! One-shot completion slots and request/response pairs built from them.

pub mod oneshot;
pub mod reqresp;

use vstd::prelude::*;

verus! {

/// Creates a fresh [`oneshot::Oneshot`] whose future and completer are both
/// still in place.
pub fn oneshot<T>() -> (r: oneshot::Oneshot<T>)
    ensures
        !r.future_taken(),
        !r.completer_taken(),
        r.linked(),
{
    oneshot::Oneshot::<T>::new()
}

/// Creates a fresh [`reqresp::ReqResp`] whose four halves are all in place.
pub fn reqresp<Req, Resp>() -> (r: reqresp::ReqResp<Req, Resp>)
    ensures
        !r.request.future_taken(),
        !r.request.completer_taken(),
        !r.response.future_taken(),
        !r.response.completer_taken(),
        r.request.linked(),
        r.response.linked(),
{
    reqresp::ReqResp::new()
}

} // verus!
