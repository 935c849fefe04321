//! A single-use channel split into its two ends: the sending end holds the
//! completer until it is taken, the receiving end holds the future until it
//! is taken.

use vstd::prelude::*;
use crate::manual::{new_future_pair, take_result, PairedCompleter, PairedFuture};

verus! {

/// Why an end could not be taken.
#[derive(Clone, Debug, PartialEq, Eq, Structural, PartialOrd, Ord)]
pub enum Error {
    FutureIsTaken,
    CompleterIsTaken,
}

/// The future held by a receiving end, with the token of its pair.
pub type Future<T> = PairedFuture<T>;

/// The completer held by a sending end, with the token of its pair.
pub type Completer<T> = PairedCompleter<T>;

/// Creates the two ends of a fresh single-use channel, each still holding
/// its half: the sender's completer resolves the receiver's future.
pub fn channel<T>() -> (r: (OneshotSender<T>, OneshotReceiver<T>))
    ensures
        !r.0.taken(),
        !r.1.taken(),
        r.0.slot()->0.link() == r.1.slot()->0.link(),
{
    let (future, completer) = new_future_pair::<T>();
    let receiver = OneshotReceiver::new(future);
    let sender = OneshotSender::new(completer);
    (sender, receiver)
}

/// The sending end: holds the completer until it is taken.
#[verifier::reject_recursive_types(T)]
pub struct OneshotSender<T> {
    completer: Option<Completer<T>>,
}

impl<T> OneshotSender<T> {
    /// The completer still held, if any.
    pub closed spec fn slot(&self) -> Option<Completer<T>> {
        self.completer
    }

    pub open spec fn taken(&self) -> bool {
        self.slot() is None
    }

    /// Wraps `completer`.
    pub fn new(completer: Completer<T>) -> (r: Self)
        ensures
            r.slot() == Some(completer),
    {
        OneshotSender { completer: Some(completer) }
    }

    /// Takes the completer out; fails with `CompleterIsTaken` once it has
    /// been taken.
    pub fn try_take(&mut self) -> (r: Result<Completer<T>, Error>)
        ensures
            r == take_result(old(self).slot(), Error::CompleterIsTaken),
            final(self).taken(),
    {
        match self.completer.take() {
            Some(c) => Ok(c),
            None => Err(Error::CompleterIsTaken),
        }
    }

    /// Takes the completer out; it must not have been taken before.
    pub fn take(&mut self) -> (r: Completer<T>)
        requires
            !old(self).taken(),
        ensures
            Some(r) == old(self).slot(),
            final(self).taken(),
    {
        self.completer.take().unwrap()
    }

    /// Whether the completer is still held.
    pub fn is_not_taken(&self) -> (r: bool)
        ensures
            r == !self.taken(),
    {
        self.completer.is_some()
    }

    /// Whether the completer has been taken out.
    pub fn is_taken(&self) -> (r: bool)
        ensures
            r == self.taken(),
    {
        self.completer.is_none()
    }
}

/// The receiving end: holds the future until it is taken.
#[verifier::reject_recursive_types(T)]
pub struct OneshotReceiver<T> {
    future: Option<Future<T>>,
}

impl<T> OneshotReceiver<T> {
    /// The future still held, if any.
    pub closed spec fn slot(&self) -> Option<Future<T>> {
        self.future
    }

    pub open spec fn taken(&self) -> bool {
        self.slot() is None
    }

    /// Wraps `future`.
    pub fn new(future: Future<T>) -> (r: Self)
        ensures
            r.slot() == Some(future),
    {
        OneshotReceiver { future: Some(future) }
    }

    /// Takes the future out; fails with `FutureIsTaken` once it has been taken.
    pub fn try_take(&mut self) -> (r: Result<Future<T>, Error>)
        ensures
            r == take_result(old(self).slot(), Error::FutureIsTaken),
            final(self).taken(),
    {
        match self.future.take() {
            Some(f) => Ok(f),
            None => Err(Error::FutureIsTaken),
        }
    }

    /// Takes the future out; it must not have been taken before.
    pub fn take(&mut self) -> (r: Future<T>)
        requires
            !old(self).taken(),
        ensures
            Some(r) == old(self).slot(),
            final(self).taken(),
    {
        self.future.take().unwrap()
    }
}

} // verus!

verus! {

/// A sending end that has been taken stays taken: every later take on it
/// fails with `CompleterIsTaken` (and, by its contract, leaves it taken).
pub proof fn lemma_sender_stays_taken<T>(s: OneshotSender<T>)
    requires
        s.taken(),
    ensures
        take_result(s.slot(), Error::CompleterIsTaken) == Err::<Completer<T>, Error>(
            Error::CompleterIsTaken,
        ),
{
}

/// A receiving end that has been taken stays taken: every later take on it
/// fails with `FutureIsTaken` (and, by its contract, leaves it taken).
pub proof fn lemma_receiver_stays_taken<T>(r: OneshotReceiver<T>)
    requires
        r.taken(),
    ensures
        take_result(r.slot(), Error::FutureIsTaken) == Err::<Future<T>, Error>(
            Error::FutureIsTaken,
        ),
{
}

} // verus!
