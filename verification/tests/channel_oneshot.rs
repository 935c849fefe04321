use async_std::task::block_on;
use workflow_core::channel::oneshot::{channel, Error, OneshotReceiver, OneshotSender};
use workflow_core::manual::{PairedCompleter, PairedFuture};

#[test]
fn sender_is_taken_once() {
    let (mut sender, _receiver) = channel::<u32>();
    assert!(sender.is_not_taken());
    assert!(!sender.is_taken());
    assert!(sender.try_take().is_ok());
    assert!(sender.is_taken());
    assert!(!sender.is_not_taken());
    assert_eq!(sender.try_take().err(), Some(Error::CompleterIsTaken));
}

#[test]
fn receiver_is_taken_once() {
    let (_sender, mut receiver) = channel::<u32>();
    assert!(receiver.try_take().is_ok());
    assert_eq!(receiver.try_take().err(), Some(Error::FutureIsTaken));
}

#[test]
fn channel_delivers_the_sent_value() {
    let (mut sender, mut receiver) = channel::<i32>();
    let completer = sender.take();
    let future = receiver.take();
    block_on(completer.into_inner().complete(-5));
    assert_eq!(block_on(future.into_inner()), -5);
}

#[test]
fn ends_wrap_given_halves() {
    let (future, completer) = manual_future::ManualFuture::<u8>::new();
    let mut sender = OneshotSender::new(PairedCompleter::new(completer));
    let mut receiver = OneshotReceiver::new(PairedFuture::new(future));
    assert!(sender.is_not_taken());
    block_on(sender.take().into_inner().complete(3));
    assert_eq!(block_on(receiver.take().into_inner()), 3);
}

#[test]
fn error_variants_are_ordered() {
    assert!(Error::FutureIsTaken < Error::CompleterIsTaken);
    assert_ne!(Error::FutureIsTaken, Error::CompleterIsTaken);
}
