//! The manually completed futures of the `manual_future` crate, as seen by
//! the verified code: opaque values that are created in linked pairs.

use vstd::prelude::*;
use manual_future::{ManualFuture, ManualFutureCompleter};

verus! {

#[verifier::external_type_specification]
#[verifier::external_body]
#[verifier::reject_recursive_types(T)]
pub struct ExManualFuture<T>(ManualFuture<T>);

#[verifier::external_type_specification]
#[verifier::external_body]
#[verifier::reject_recursive_types(T)]
pub struct ExManualFutureCompleter<T>(ManualFutureCompleter<T>);

/// A manually completed future together with a ghost token naming the
/// completer pair it was created in.
#[verifier::reject_recursive_types(T)]
pub struct PairedFuture<T> {
    future: ManualFuture<T>,
    link: Ghost<int>,
}

/// The completer of a manually completed future, together with a ghost
/// token naming the pair it was created in.
#[verifier::reject_recursive_types(T)]
pub struct PairedCompleter<T> {
    completer: ManualFutureCompleter<T>,
    link: Ghost<int>,
}

impl<T> PairedFuture<T> {
    /// The future itself.
    pub closed spec fn inner(&self) -> ManualFuture<T> {
        self.future
    }

    /// The pair this future belongs to: a completer with the same link
    /// resolves it.
    pub closed spec fn link(&self) -> int {
        self.link@
    }

    /// Adopts a future whose completer is not known here.
    pub fn new(future: ManualFuture<T>) -> (r: Self)
        ensures
            r.inner() == future,
    {
        PairedFuture { future, link: Ghost(arbitrary()) }
    }

    /// Gives up the token and returns the future, ready to be awaited.
    pub fn into_inner(self) -> (r: ManualFuture<T>)
        ensures
            r == self.inner(),
    {
        self.future
    }
}

impl<T> PairedCompleter<T> {
    /// The completer itself.
    pub closed spec fn inner(&self) -> ManualFutureCompleter<T> {
        self.completer
    }

    /// The pair this completer belongs to: it resolves the future with the
    /// same link.
    pub closed spec fn link(&self) -> int {
        self.link@
    }

    /// Adopts a completer whose future is not known here.
    pub fn new(completer: ManualFutureCompleter<T>) -> (r: Self)
        ensures
            r.inner() == completer,
    {
        PairedCompleter { completer, link: Ghost(arbitrary()) }
    }

    /// Gives up the token and returns the completer, ready to complete.
    pub fn into_inner(self) -> (r: ManualFutureCompleter<T>)
        ensures
            r == self.inner(),
    {
        self.completer
    }
}

/// Calls `ManualFuture::new`, which creates a future together with the
/// completer that resolves it (both hold the two halves of one lock over the
/// future's state). The contract records that link as one ghost token
/// carried by both halves.
#[verifier::external_body]
pub(crate) fn new_future_pair<T>() -> (r: (PairedFuture<T>, PairedCompleter<T>))
    ensures
        r.0.link() == r.1.link(),
{
    let (future, completer) = ManualFuture::<T>::new();
    let link: Ghost<int> = Ghost(arbitrary());
    (PairedFuture { future, link }, PairedCompleter { completer, link })
}

} // verus!

verus! {

/// What taking a value out of `slot` yields: the value when one is held,
/// otherwise `err`.
pub open spec fn take_result<X, F>(slot: Option<X>, err: F) -> Result<X, F> {
    match slot {
        Some(x) => Ok(x),
        None => Err(err),
    }
}

/// A slot is handed out at most once: taking from a slot leaves it empty, and
/// taking from an empty slot yields the error, whatever was held before.
pub proof fn lemma_take_is_one_shot<X, F>(slot: Option<X>, err: F)
    ensures
        take_result(None::<X>, err) == Err::<X, F>(err),
        slot is Some ==> take_result(slot, err) == Ok::<X, F>(slot->0),
{
}

} // verus!
