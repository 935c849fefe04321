use async_std::task::block_on;
use workflow_core::channel::{drain, oneshot};
use workflow_core::lookup::{LookupHandler, LookupResult, RequestType};

fn is_new<V, E>(r: &RequestType<V, E>) -> bool {
    matches!(r, RequestType::New(_))
}

fn receiver<V, E>(r: RequestType<V, E>) -> async_std::channel::Receiver<LookupResult<V, E>> {
    match r {
        RequestType::New(rx) => rx.into_inner(),
        RequestType::Pending(rx) => rx.into_inner(),
    }
}

#[test]
fn lookup_handler_test() {
    let mut handler: LookupHandler<u32, u32, String> = LookupHandler::new();
    let r0 = handler.queue(0xc0fee);
    let r1 = handler.queue(0xc0fee);
    let r2 = handler.queue(0xc0fee);
    let kinds = [is_new(&r0), is_new(&r1), is_new(&r2)];
    assert_eq!(kinds, [true, false, false]);
    assert_eq!(handler.pending(), 3);

    let deliveries = handler.complete(&0xc0fee, Ok(0xdecaf));
    assert_eq!(deliveries.len(), 3);
    assert_eq!(handler.pending(), 0);
    for (s, r) in deliveries {
        block_on(s.get().send(r)).unwrap();
    }
    let f = (
        block_on(receiver(r0).recv()).unwrap().unwrap(),
        block_on(receiver(r1).recv()).unwrap().unwrap(),
        block_on(receiver(r2).recv()).unwrap().unwrap(),
    );
    assert_eq!(f, (0xdecaf, 0xdecaf, 0xdecaf));
}

#[test]
fn pending_counts_requests_in_flight() {
    let mut handler: LookupHandler<u64, (), ()> = LookupHandler::new();
    assert_eq!(handler.pending(), 0);
    assert!(is_new(&handler.queue(1)));
    assert!(is_new(&handler.queue(2)));
    assert!(!is_new(&handler.queue(1)));
    assert_eq!(handler.pending(), 3);
    assert_eq!(handler.complete(&2, Ok(())).len(), 1);
    assert_eq!(handler.pending(), 2);
    assert_eq!(handler.complete(&1, Err(())).len(), 2);
    assert_eq!(handler.pending(), 0);
}

#[test]
fn has_pending_tracks_keys() {
    let mut handler: LookupHandler<u32, u8, u8> = LookupHandler::new();
    assert!(!handler.has_pending(&5));
    assert!(is_new(&handler.queue(5)));
    assert!(handler.has_pending(&5));
    assert!(!handler.has_pending(&6));
    assert_eq!(handler.complete(&5, Ok(1)).len(), 1);
    assert!(!handler.has_pending(&5));
    assert_eq!(handler.pending(), 0);
}

#[test]
fn completed_key_is_new_again() {
    let mut handler: LookupHandler<u32, u8, u8> = LookupHandler::new();
    assert!(is_new(&handler.queue(9)));
    let _ = handler.complete(&9, Err(2));
    assert!(is_new(&handler.queue(9)));
    assert_eq!(handler.pending(), 1);
}

#[test]
fn errors_reach_every_request() {
    let mut handler: LookupHandler<u32, u8, String> = LookupHandler::new();
    let a = receiver(handler.queue(3));
    let b = receiver(handler.queue(3));
    let deliveries = handler.complete(&3, Err("missing".to_string()));
    assert!(deliveries.iter().all(|(_, r)| r == &Err("missing".to_string())));
    for (s, r) in deliveries {
        block_on(s.get().send(r)).unwrap();
    }
    assert_eq!(block_on(a.recv()).unwrap(), Err("missing".to_string()));
    assert_eq!(block_on(b.recv()).unwrap(), Err("missing".to_string()));
}

#[test]
fn oneshot_channel_holds_one_message() {
    let (tx, rx) = oneshot::<u8>();
    let (tx, rx) = (tx.into_inner(), rx.into_inner());
    assert_eq!(tx.capacity(), Some(1));
    assert!(tx.try_send(1).is_ok());
    assert!(tx.try_send(2).is_err());
    assert_eq!(rx.try_recv().ok(), Some(1));
}

#[test]
fn deliveries_follow_queue_order() {
    let mut handler: LookupHandler<u32, u32, ()> = LookupHandler::new();
    let first = receiver(handler.queue(4));
    let second = receiver(handler.queue(4));
    let deliveries = handler.complete(&4, Ok(10));
    assert!(deliveries.iter().all(|(_, r)| r == &Ok(10)));
    let mut iter = deliveries.into_iter();
    let (s0, _) = iter.next().unwrap();
    let (s1, _) = iter.next().unwrap();
    block_on(s0.get().send(Ok(100))).unwrap();
    block_on(s1.get().send(Ok(200))).unwrap();
    assert_eq!(block_on(first.recv()).unwrap(), Ok(100));
    assert_eq!(block_on(second.recv()).unwrap(), Ok(200));
}

#[test]
fn drain_discards_waiting_messages() {
    let (tx, rx) = oneshot::<u8>();
    assert_eq!(drain(&rx).ok(), Some(0));
    tx.get().try_send(4).unwrap();
    assert_eq!(drain(&rx).ok(), Some(1));
    assert_eq!(drain(&rx).ok(), Some(0));
    assert!(rx.get().try_recv().is_err());
    let rx2 = rx.clone();
    tx.clone().get().try_send(5).unwrap();
    assert_eq!(drain(&rx2).ok(), Some(1));
}
