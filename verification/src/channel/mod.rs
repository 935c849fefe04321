//! Bounded message channels of `async_std`, a one-message channel built
//! from them, and the draining of stale messages.

pub mod oneshot;

use vstd::prelude::*;
use async_std::channel::{Receiver, Sender, TryRecvError};

verus! {

#[verifier::external_type_specification]
#[verifier::external_body]
#[verifier::reject_recursive_types(T)]
pub struct ExSender<T>(async_std::channel::Sender<T>);

#[verifier::external_type_specification]
#[verifier::external_body]
#[verifier::reject_recursive_types(T)]
pub struct ExReceiver<T>(async_std::channel::Receiver<T>);

/// `Sender::clone` makes another sender on the same channel. Nothing is
/// stated of the result.
pub assume_specification<T>[ <async_std::channel::Sender<T> as Clone>::clone ](
    _0: &async_std::channel::Sender<T>,
) -> async_std::channel::Sender<T>;

/// `Receiver::clone` makes another receiver on the same channel. Nothing is
/// stated of the result.
pub assume_specification<T>[ <async_std::channel::Receiver<T> as Clone>::clone ](
    _0: &async_std::channel::Receiver<T>,
) -> async_std::channel::Receiver<T>;

/// The sending end of a bounded channel, with a ghost token naming the
/// channel and the channel's capacity.
#[verifier::reject_recursive_types(T)]
pub struct ChannelSender<T> {
    end: Sender<T>,
    link: Ghost<int>,
    cap: usize,
}

/// The receiving end of a bounded channel, with a ghost token naming the
/// channel and the channel's capacity.
#[verifier::reject_recursive_types(T)]
pub struct ChannelReceiver<T> {
    end: Receiver<T>,
    link: Ghost<int>,
    cap: usize,
}

impl<T> ChannelSender<T> {
    /// The `async_std` end itself.
    pub closed spec fn inner(&self) -> Sender<T> {
        self.end
    }

    /// The channel this end belongs to: what it sends reaches the receivers
    /// with the same link.
    pub closed spec fn link(&self) -> int {
        self.link@
    }

    /// How many messages the channel holds at most.
    pub closed spec fn capacity(&self) -> nat {
        self.cap as nat
    }

    /// The `async_std` end, to send with.
    pub fn get(&self) -> (r: &Sender<T>)
        ensures
            *r == self.inner(),
    {
        &self.end
    }

    /// Gives up the token and returns the `async_std` end.
    pub fn into_inner(self) -> (r: Sender<T>)
        ensures
            r == self.inner(),
    {
        self.end
    }
}

impl<T> ChannelReceiver<T> {
    /// The `async_std` end itself.
    pub closed spec fn inner(&self) -> Receiver<T> {
        self.end
    }

    /// The channel this end belongs to: it receives what the senders with the
    /// same link send.
    pub closed spec fn link(&self) -> int {
        self.link@
    }

    /// How many messages the channel holds at most.
    pub closed spec fn capacity(&self) -> nat {
        self.cap as nat
    }

    /// The `async_std` end, to receive with.
    pub fn get(&self) -> (r: &Receiver<T>)
        ensures
            *r == self.inner(),
    {
        &self.end
    }

    /// Gives up the token and returns the `async_std` end.
    pub fn into_inner(self) -> (r: Receiver<T>)
        ensures
            r == self.inner(),
    {
        self.end
    }
}

impl<T> Clone for ChannelSender<T> {
    /// Another sender on the same channel.
    fn clone(&self) -> (r: Self)
        ensures
            r.link() == self.link(),
            r.capacity() == self.capacity(),
            vstd::pervasive::strictly_cloned(self.inner(), r.inner()),
    {
        ChannelSender { end: self.end.clone(), link: self.link, cap: self.cap }
    }
}

impl<T> Clone for ChannelReceiver<T> {
    /// Another receiver on the same channel.
    fn clone(&self) -> (r: Self)
        ensures
            r.link() == self.link(),
            r.capacity() == self.capacity(),
            vstd::pervasive::strictly_cloned(self.inner(), r.inner()),
    {
        ChannelReceiver { end: self.end.clone(), link: self.link, cap: self.cap }
    }
}

/// A clone of a receiver receives from the same channel as the original:
/// its runtime end is what `Receiver::clone` makes of the original's
/// (another receiver on the same channel), it carries the original's link,
/// so every sender of the original's channel reaches it, and it has the same
/// capacity.
pub proof fn lemma_receiver_clone_same_channel<T>(
    tx: ChannelSender<T>,
    rx: ChannelReceiver<T>,
    c: ChannelReceiver<T>,
)
    requires
        call_ensures(<ChannelReceiver<T> as Clone>::clone, (&rx,), c),
    ensures
        vstd::pervasive::strictly_cloned(rx.inner(), c.inner()),
        tx.link() == rx.link() <==> tx.link() == c.link(),
        c.capacity() == rx.capacity(),
{
}

/// A clone of a sender sends into the same channel as the original: its
/// runtime end is what `Sender::clone` makes of the original's, and every
/// receiver that the original reaches, the clone reaches too.
pub proof fn lemma_sender_clone_same_channel<T>(
    tx: ChannelSender<T>,
    rx: ChannelReceiver<T>,
    c: ChannelSender<T>,
)
    requires
        call_ensures(<ChannelSender<T> as Clone>::clone, (&tx,), c),
    ensures
        vstd::pervasive::strictly_cloned(tx.inner(), c.inner()),
        tx.link() == rx.link() <==> c.link() == rx.link(),
        c.capacity() == tx.capacity(),
{
}

/// Calls `async_std::channel::bounded`, which creates a channel that holds
/// at most `cap` messages and returns its two ends, both over one shared
/// queue. The contract records that queue as one ghost token carried by both
/// ends, and `cap` as their capacity. It panics when `cap` is zero, so that
/// input is excluded.
#[verifier::external_body]
fn bounded_channel<T>(cap: usize) -> (r: (ChannelSender<T>, ChannelReceiver<T>))
    requires
        cap > 0,
    ensures
        r.0.link() == r.1.link(),
        r.0.capacity() == cap,
        r.1.capacity() == cap,
{
    let (s, r) = async_std::channel::bounded(cap);
    let link: Ghost<int> = Ghost(arbitrary());
    (ChannelSender { end: s, link, cap }, ChannelReceiver { end: r, link, cap })
}

/// Creates a channel with room for a single message; both ends belong to it.
pub fn oneshot<T>() -> (r: (ChannelSender<T>, ChannelReceiver<T>))
    ensures
        r.0.link() == r.1.link(),
        r.0.capacity() == 1,
        r.1.capacity() == 1,
{
    bounded_channel(1)
}

/// Calls `Receiver::len`: the number of messages in the channel at this
/// moment. Other ends may change it at any time, so nothing is stated.
#[verifier::external_body]
fn queued_messages<T>(rx: &Receiver<T>) -> usize {
    rx.len()
}

/// Calls `Receiver::try_recv`: a message if one is in the channel at this
/// moment, otherwise why not. Other ends may change the channel at any time,
/// so nothing is stated.
#[verifier::external_body]
fn take_message<T>(rx: &Receiver<T>) -> Result<T, TryRecvError> {
    rx.try_recv()
}

/// Discards the messages waiting in the channel: while the channel reports
/// messages, receives and drops one, at most as many as the channel can hold
/// at once. Returns how many were discarded, or the error of a receive that
/// failed.
pub fn drain<T>(rx: &ChannelReceiver<T>) -> (r: Result<usize, TryRecvError>)
    ensures
        r matches Ok(n) ==> n <= rx.capacity(),
{
    let mut discarded: usize = 0;
    while discarded < rx.cap && queued_messages(&rx.end) > 0
        invariant
            discarded <= rx.cap,
        decreases rx.cap - discarded,
    {
        let _message = take_message(&rx.end)?;
        discarded = discarded + 1;
    }
    Ok(discarded)
}

} // verus!
