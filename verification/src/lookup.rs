//! [`LookupHandler`] queues concurrent requests for the same key so that
//! only the first one performs the actual lookup; completing the key pairs
//! every queued sender with a copy of the result, so that all requests
//! receive it.

use vstd::prelude::*;
use std::collections::HashMap;
use std::collections::hash_map::RandomState;
use std::hash::Hash;
use vstd::std_specs::hash::{obeys_key_model, builds_valid_hashers};
use crate::channel::{oneshot, ChannelReceiver, ChannelSender};

verus! {

broadcast use vstd::std_specs::hash::group_hash_axioms;

/// The result that a lookup delivers to every request for its key.
pub type LookupResult<V, E> = std::result::Result<V, E>;

/// How a queued request stands: the first request for a key is `New` and must
/// perform the lookup; the others are `Pending` and only wait for its result.
#[verifier::reject_recursive_types(V)]
#[verifier::reject_recursive_types(E)]
pub enum RequestType<V, E> {
    New(ChannelReceiver<LookupResult<V, E>>),
    Pending(ChannelReceiver<LookupResult<V, E>>),
}

impl<V, E> RequestType<V, E> {
    /// The receiver the request waits on, whichever kind it is.
    pub open spec fn receiver(&self) -> ChannelReceiver<LookupResult<V, E>> {
        match self {
            RequestType::New(rx) => *rx,
            RequestType::Pending(rx) => *rx,
        }
    }
}

/// What waits on each key: the senders of the queued requests, oldest first.
pub type Waiting<K, V, E> = Map<K, Seq<ChannelSender<LookupResult<V, E>>>>;

/// The waiting map after a request for `key` queued the sender `s`.
pub open spec fn queued<K, V, E>(
    m: Waiting<K, V, E>,
    key: K,
    s: ChannelSender<LookupResult<V, E>>,
) -> Waiting<K, V, E> {
    if m.contains_key(key) {
        m.insert(key, m[key].push(s))
    } else {
        m.insert(key, seq![s])
    }
}

/// The waiting map after `key` was completed.
pub open spec fn completed<K, V, E>(m: Waiting<K, V, E>, key: K) -> Waiting<K, V, E> {
    m.remove(key)
}

/// The waiting map after requests for `key` queued the senders `ss`, in order.
pub open spec fn queued_all<K, V, E>(
    m: Waiting<K, V, E>,
    key: K,
    ss: Seq<ChannelSender<LookupResult<V, E>>>,
) -> Waiting<K, V, E>
    decreases ss.len(),
{
    if ss.len() == 0 {
        m
    } else {
        queued(queued_all(m, key, ss.drop_last()), key, ss.last())
    }
}

/// Every request queued for a key since the key was last completed receives
/// the result, in the order of queuing: starting from a map in which nothing
/// waits on `key`, queuing the senders `ss` makes exactly `ss` wait on `key`,
/// and completing `key` then restores the map as it was, so that no other
/// key is touched.
pub proof fn lemma_complete_returns_all_queued<K, V, E>(
    m: Waiting<K, V, E>,
    key: K,
    ss: Seq<ChannelSender<LookupResult<V, E>>>,
)
    requires
        !m.contains_key(key),
        ss.len() > 0,
    ensures
        queued_all(m, key, ss).contains_key(key),
        queued_all(m, key, ss)[key] == ss,
        completed(queued_all(m, key, ss), key) == m,
    decreases ss.len(),
{
    if ss.len() == 1 {
        assert(ss.drop_last() =~= Seq::<ChannelSender<LookupResult<V, E>>>::empty());
        assert(queued_all(m, key, ss.drop_last()) == m);
        assert(seq![ss.last()] =~= ss);
        assert(completed(queued_all(m, key, ss), key) =~= m);
    } else {
        lemma_complete_returns_all_queued(m, key, ss.drop_last());
        let q = queued_all(m, key, ss.drop_last());
        assert(q[key].push(ss.last()) =~= ss);
        assert(completed(queued_all(m, key, ss), key) =~= completed(q, key));
    }
}

/// The number of requests waiting over all keys.
pub open spec fn total_waiting<K, V, E>(m: Waiting<K, V, E>) -> nat
    decreases m.dom().len(),
    when m.dom().finite()
{
    if m.dom().len() == 0 {
        0
    } else {
        let k = m.dom().choose();
        m[k].len() + total_waiting(m.remove(k))
    }
}

/// The requests waiting on one key are part of the total.
pub proof fn lemma_total_waiting_remove<K, V, E>(m: Waiting<K, V, E>, key: K)
    requires
        m.dom().finite(),
        m.contains_key(key),
    ensures
        total_waiting(m) == m[key].len() + total_waiting(m.remove(key)),
    decreases m.dom().len(),
{
    let c = m.dom().choose();
    if c != key {
        lemma_total_waiting_remove(m.remove(c), key);
        lemma_total_waiting_remove(m.remove(key), c);
        assert(m.remove(c).remove(key) =~= m.remove(key).remove(c));
    }
}

/// The number of requests in flight grows by one with every queued request
/// and shrinks, when a key is completed, by the number of requests that were
/// waiting on it.
pub proof fn lemma_pending_count<K, V, E>(
    m: Waiting<K, V, E>,
    key: K,
    s: ChannelSender<LookupResult<V, E>>,
)
    requires
        m.dom().finite(),
    ensures
        total_waiting(queued(m, key, s)) == total_waiting(m) + 1,
        total_waiting(completed(m, key)) == total_waiting(m) - if m.contains_key(key) {
            m[key].len() as int
        } else {
            0int
        },
{
    let q = queued(m, key, s);
    lemma_total_waiting_remove(q, key);
    if m.contains_key(key) {
        lemma_total_waiting_remove(m, key);
        assert(q.remove(key) =~= m.remove(key));
    } else {
        assert(q.remove(key) =~= m);
        assert(completed(m, key) =~= m);
    }
}

/// After a key has been completed, the next request for it is new again.
pub proof fn lemma_completed_key_is_new<K, V, E>(m: Waiting<K, V, E>, key: K)
    ensures
        !completed(m, key).contains_key(key),
{
}

/// `c` is a copy of `r`: the same variant, holding a clone of its value.
pub open spec fn is_copy_of<V: Clone, E: Clone>(r: LookupResult<V, E>, c: LookupResult<V, E>) -> bool {
    match (r, c) {
        (Ok(a), Ok(b)) => cloned(a, b),
        (Err(a), Err(b)) => cloned(a, b),
        _ => false,
    }
}

/// Copies a result by cloning the value or the error it holds.
fn copy_result<V: Clone, E: Clone>(r: &LookupResult<V, E>) -> (c: LookupResult<V, E>)
    ensures
        is_copy_of(*r, c),
{
    match r {
        Ok(v) => Ok(v.clone()),
        Err(e) => Err(e.clone()),
    }
}

/// Groups the requests for each key until that key is completed.
#[verifier::reject_recursive_types(K)]
#[verifier::reject_recursive_types(V)]
#[verifier::reject_recursive_types(E)]
pub struct LookupHandler<K, V, E> {
    map: HashMap<K, Vec<ChannelSender<LookupResult<V, E>>>>,
    pending: usize,
}

impl<K, V, E> LookupHandler<K, V, E> where K: Eq + Hash, V: Clone, E: Clone {
    /// The senders waiting on each key.
    pub closed spec fn waiting(&self) -> Waiting<K, V, E> {
        self.map@.map_values(|l: Vec<ChannelSender<LookupResult<V, E>>>| l@)
    }

    /// The handler's internal invariant: the key type hashes consistently and
    /// the pending count is the number of requests that wait for completion.
    pub closed spec fn wf(&self) -> bool {
        &&& obeys_key_model::<K>()
        &&& builds_valid_hashers::<RandomState>()
        &&& self.pending == total_waiting(self.waiting())
    }

    /// Creates a handler with nothing queued.
    ///
    /// The key type must hash and compare consistently with its value
    /// (`obeys_key_model`), which is what the verified model of `HashMap`
    /// rests on; vstd grants it to `bool`, the integer types and boxes of them.
    pub fn new() -> (r: Self)
        requires
            obeys_key_model::<K>(),
        ensures
            r.wf(),
            r.waiting() == Map::<K, Seq<ChannelSender<LookupResult<V, E>>>>::empty(),
    {
        let r = LookupHandler { map: HashMap::new(), pending: 0 };
        assert(r.waiting() =~= Map::<K, Seq<ChannelSender<LookupResult<V, E>>>>::empty());
        r
    }

    /// Returns the total number of pending requests: every request queued and
    /// not yet completed, over all keys.
    pub fn pending(&self) -> (n: usize)
        requires
            self.wf(),
        ensures
            n == total_waiting(self.waiting()),
    {
        self.pending
    }

    /// Whether some request for `key` waits for completion.
    pub fn has_pending(&self, key: &K) -> (r: bool)
        requires
            self.wf(),
        ensures
            r == self.waiting().contains_key(*key),
    {
        self.map.contains_key(key)
    }

    /// Queues a request for `key`. Returns `New` when no request for `key` was
    /// waiting, `Pending` otherwise; either way the sender queued for `key`
    /// belongs to the returned receiver's channel, so the receiver gets the
    /// result once `key` is completed. The count of pending requests must have room
    /// for one more.
    pub fn queue(&mut self, key: K) -> (r: RequestType<V, E>)
        requires
            old(self).wf(),
            total_waiting(old(self).waiting()) < usize::MAX,
        ensures
            final(self).wf(),
            r is New <==> !old(self).waiting().contains_key(key),
            exists|s: ChannelSender<LookupResult<V, E>>|
                {
                    &&& final(self).waiting() == queued(old(self).waiting(), key, s)
                    &&& s.link() == r.receiver().link()
                },
    {
        let (sender, receiver) = oneshot::<LookupResult<V, E>>();
        let ghost s = sender;
        let ghost k = key;
        proof {
            assert(old(self).waiting().dom() =~= old(self).map@.dom());
            lemma_pending_count(old(self).waiting(), k, s);
        }
        match self.map.remove(&key) {
            Some(mut list) => {
                list.push(sender);
                self.map.insert(key, list);
                self.pending = self.pending + 1;
                assert(self.waiting() =~= queued(old(self).waiting(), k, s));
                RequestType::Pending(receiver)
            },
            None => {
                let mut list = Vec::new();
                list.push(sender);
                self.map.insert(key, list);
                self.pending = self.pending + 1;
                assert(self.waiting() =~= queued(old(self).waiting(), k, s));
                RequestType::New(receiver)
            },
        }
    }

    /// Completes `key` with `result`: removes the key and pairs the sender of
    /// every request queued for it, oldest first, with its own copy of
    /// `result`, ready to be sent. Some request for `key` must be waiting.
    pub fn complete(&mut self, key: &K, result: LookupResult<V, E>) -> (deliveries: Vec<
        (ChannelSender<LookupResult<V, E>>, LookupResult<V, E>),
    >)
        requires
            old(self).wf(),
            old(self).waiting().contains_key(*key),
        ensures
            final(self).wf(),
            final(self).waiting() == completed(old(self).waiting(), *key),
            deliveries@.len() == old(self).waiting()[*key].len(),
            forall|i: int|
                0 <= i < deliveries@.len() ==> {
                    &&& (#[trigger] deliveries@[i]).0 == old(self).waiting()[*key][i]
                    &&& is_copy_of(result, deliveries@[i].1)
                },
    {
        let ghost s0 = arbitrary::<ChannelSender<LookupResult<V, E>>>();
        proof {
            assert(old(self).waiting().dom() =~= old(self).map@.dom());
            lemma_pending_count(old(self).waiting(), *key, s0);
        }
        let list = self.map.remove(key).unwrap();
        assert(self.waiting() =~= completed(old(self).waiting(), *key));
        self.pending = self.pending - list.len();
        let mut deliveries: Vec<(ChannelSender<LookupResult<V, E>>, LookupResult<V, E>)> = Vec::new();
        let mut rest = list;
        let ghost queued_senders = rest@;
        while rest.len() > 0
            invariant
                queued_senders == old(self).waiting()[*key],
                deliveries@.len() + rest@.len() == queued_senders.len(),
                rest@ == queued_senders.subrange(
                    deliveries@.len() as int,
                    queued_senders.len() as int,
                ),
                forall|i: int|
                    0 <= i < deliveries@.len() ==> {
                        &&& (#[trigger] deliveries@[i]).0 == queued_senders[i]
                        &&& is_copy_of(result, deliveries@[i].1)
                    },
            decreases rest@.len(),
        {
            let sender = rest.remove(0);
            let copy = copy_result(&result);
            deliveries.push((sender, copy));
        }
        deliveries
    }
}

} // verus!
