use async_std::task::block_on;
use workflow_core::sync::oneshot::{Error, Oneshot};
use workflow_core::sync::{oneshot, reqresp};

#[test]
fn oneshot_future_is_handed_out_once() {
    let mut o: Oneshot<u32> = Oneshot::new();
    assert!(o.try_take_future().is_ok());
    assert_eq!(o.try_take_future().err(), Some(Error::FutureIsTaken));
    // the completer is untouched
    assert!(o.try_take_completer().is_ok());
    assert_eq!(o.try_take_completer().err(), Some(Error::CompleterIsTaken));
}

#[test]
fn oneshot_completer_is_handed_out_once() {
    let mut o: Oneshot<u32> = oneshot();
    let _c = o.take_completer();
    assert_eq!(o.try_take_completer().err(), Some(Error::CompleterIsTaken));
    assert!(o.try_take_future().is_ok());
}

#[test]
fn oneshot_delivers_the_completed_value() {
    let mut o: Oneshot<u64> = oneshot();
    let future = o.take_future();
    let completer = o.try_take_completer().ok().unwrap();
    block_on(completer.into_inner().complete(0xdecaf));
    assert_eq!(block_on(future.into_inner()), 0xdecaf);
}

#[test]
fn reqresp_starts_with_all_halves() {
    let mut rr = reqresp::<u8, String>();
    let req_future = rr.request.take_future();
    let req_completer = rr.request.take_completer();
    block_on(req_completer.into_inner().complete(7));
    assert_eq!(block_on(req_future.into_inner()), 7);
    let resp_future = rr.response.take_future();
    let resp_completer = rr.response.take_completer();
    block_on(resp_completer.into_inner().complete("done".to_string()));
    assert_eq!(block_on(resp_future.into_inner()), "done");
    assert_eq!(rr.request.try_take_future().err(), Some(Error::FutureIsTaken));
    assert_eq!(rr.response.try_take_completer().err(), Some(Error::CompleterIsTaken));
}

#[test]
fn reqresp_new_defaults() {
    let mut rr: workflow_core::sync::reqresp::ReqResp = workflow_core::sync::reqresp::ReqResp::new();
    assert!(rr.request.try_take_future().is_ok());
    assert!(rr.request.try_take_completer().is_ok());
    assert!(rr.response.try_take_future().is_ok());
    assert!(rr.response.try_take_completer().is_ok());
}
