//! A one-shot slot pair: a future that can be handed out once and the
//! completer that resolves it, which can also be handed out once.

use vstd::prelude::*;
use crate::manual::{new_future_pair, take_result, PairedCompleter, PairedFuture};

verus! {

/// Why a slot could not be taken.
#[derive(Clone, Debug, PartialEq, Eq, Structural, PartialOrd, Ord)]
pub enum Error {
    FutureIsTaken,
    CompleterIsTaken,
}

/// The future held by a slot pair, with the token of its pair.
pub type Future<T> = PairedFuture<T>;

/// The completer held by a slot pair, with the token of its pair.
pub type Completer<T> = PairedCompleter<T>;

/// Holds a future and its completer until each is taken out.
#[verifier::reject_recursive_types(T)]
pub struct Oneshot<T = ()> {
    future: Option<Future<T>>,
    completer: Option<Completer<T>>,
}

impl<T> Oneshot<T> {
    /// The future still held, if any.
    pub closed spec fn future_slot(&self) -> Option<Future<T>> {
        self.future
    }

    /// The completer still held, if any.
    pub closed spec fn completer_slot(&self) -> Option<Completer<T>> {
        self.completer
    }

    pub open spec fn future_taken(&self) -> bool {
        self.future_slot() is None
    }

    pub open spec fn completer_taken(&self) -> bool {
        self.completer_slot() is None
    }

    /// Whether the future and the completer held belong to one pair, so that
    /// completing the completer resolves the future.
    pub open spec fn linked(&self) -> bool {
        &&& self.future_slot() is Some
        &&& self.completer_slot() is Some
        &&& self.future_slot()->0.link() == self.completer_slot()->0.link()
    }

    /// Creates a new pair with both halves in place, the completer resolving
    /// the future.
    pub fn new() -> (r: Self)
        ensures
            !r.future_taken(),
            !r.completer_taken(),
            r.linked(),
    {
        let (future, completer) = new_future_pair::<T>();
        Oneshot { future: Some(future), completer: Some(completer) }
    }

    /// Takes the future out; fails with `FutureIsTaken` once it has been taken.
    pub fn try_take_future(&mut self) -> (r: Result<Future<T>, Error>)
        ensures
            r == take_result(old(self).future_slot(), Error::FutureIsTaken),
            final(self).future_taken(),
            final(self).completer_slot() == old(self).completer_slot(),
    {
        match self.future.take() {
            Some(f) => Ok(f),
            None => Err(Error::FutureIsTaken),
        }
    }

    /// Takes the future out; it must not have been taken before.
    pub fn take_future(&mut self) -> (r: Future<T>)
        requires
            !old(self).future_taken(),
        ensures
            Some(r) == old(self).future_slot(),
            final(self).future_taken(),
            final(self).completer_slot() == old(self).completer_slot(),
    {
        self.future.take().unwrap()
    }

    /// Takes the completer out; fails with `CompleterIsTaken` once it has
    /// been taken.
    pub fn try_take_completer(&mut self) -> (r: Result<Completer<T>, Error>)
        ensures
            r == take_result(old(self).completer_slot(), Error::CompleterIsTaken),
            final(self).completer_taken(),
            final(self).future_slot() == old(self).future_slot(),
    {
        match self.completer.take() {
            Some(c) => Ok(c),
            None => Err(Error::CompleterIsTaken),
        }
    }

    /// Takes the completer out; it must not have been taken before.
    pub fn take_completer(&mut self) -> (r: Completer<T>)
        requires
            !old(self).completer_taken(),
        ensures
            Some(r) == old(self).completer_slot(),
            final(self).completer_taken(),
            final(self).future_slot() == old(self).future_slot(),
    {
        self.completer.take().unwrap()
    }
}

} // verus!
