//! Pairs of `triggered` triggers for signalling a request and its response.

use vstd::prelude::*;
use triggered::{Listener, Trigger};

verus! {

#[verifier::external_type_specification]
#[verifier::external_body]
pub struct ExTrigger(Trigger);

#[verifier::external_type_specification]
#[verifier::external_body]
pub struct ExListener(Listener);

/// `Trigger::clone` (derived) makes another handle on the same shared
/// state, so both fire the same listeners. Nothing is stated of the result.
pub assume_specification[ <Trigger as Clone>::clone ](_0: &Trigger) -> Trigger;

/// `Listener::clone` makes another listener on the same shared state with a
/// fresh id. Nothing is stated of the result.
pub assume_specification[ <Listener as Clone>::clone ](_0: &Listener) -> Listener;

/// A trigger together with a ghost token naming the listeners it fires.
pub struct PairedTrigger {
    trigger: Trigger,
    link: Ghost<int>,
}

/// A listener together with a ghost token naming the triggers that fire it.
pub struct PairedListener {
    listener: Listener,
    link: Ghost<int>,
}

impl PairedTrigger {
    /// The trigger itself.
    pub closed spec fn inner(&self) -> Trigger {
        self.trigger
    }

    /// The shared state this trigger fires: listeners with the same link wake.
    pub closed spec fn link(&self) -> int {
        self.link@
    }

    /// The `triggered` trigger, to fire it.
    pub fn get(&self) -> (r: &Trigger)
        ensures
            *r == self.inner(),
    {
        &self.trigger
    }

    /// Gives up the token and returns the `triggered` trigger.
    pub fn into_inner(self) -> (r: Trigger)
        ensures
            r == self.inner(),
    {
        self.trigger
    }
}

impl PairedListener {
    /// The listener itself.
    pub closed spec fn inner(&self) -> Listener {
        self.listener
    }

    /// The shared state this listener waits on: triggers with the same link
    /// wake it.
    pub closed spec fn link(&self) -> int {
        self.link@
    }

    /// The `triggered` listener, to wait on it.
    pub fn get(&self) -> (r: &Listener)
        ensures
            *r == self.inner(),
    {
        &self.listener
    }

    /// Gives up the token and returns the `triggered` listener.
    pub fn into_inner(self) -> (r: Listener)
        ensures
            r == self.inner(),
    {
        self.listener
    }
}

impl Clone for PairedTrigger {
    /// Another handle that fires the same listeners.
    fn clone(&self) -> (r: Self)
        ensures
            r.link() == self.link(),
            vstd::pervasive::strictly_cloned(self.inner(), r.inner()),
    {
        PairedTrigger { trigger: self.trigger.clone(), link: self.link }
    }
}

impl Clone for PairedListener {
    /// Another listener woken by the same triggers.
    fn clone(&self) -> (r: Self)
        ensures
            r.link() == self.link(),
            vstd::pervasive::strictly_cloned(self.inner(), r.inner()),
    {
        PairedListener { listener: self.listener.clone(), link: self.link }
    }
}

/// Calls `triggered::trigger`, which creates a trigger and the listener that
/// it wakes, both over one shared state. The contract records that state as
/// one ghost token carried by both.
#[verifier::external_body]
fn trigger_pair() -> (r: (PairedTrigger, PairedListener))
    ensures
        r.0.link() == r.1.link(),
{
    let (trigger, listener) = triggered::trigger();
    let link: Ghost<int> = Ghost(arbitrary());
    (PairedTrigger { trigger, link }, PairedListener { listener, link })
}

/// A trigger together with its listener.
pub struct TriggerInstance {
    pub trigger: PairedTrigger,
    pub listener: PairedListener,
}

impl TriggerInstance {
    /// Whether the trigger fires the listener.
    pub open spec fn paired(&self) -> bool {
        self.trigger.link() == self.listener.link()
    }

    fn new() -> (r: TriggerInstance)
        ensures
            r.paired(),
    {
        let (trigger, listener) = trigger_pair();
        TriggerInstance { trigger, listener }
    }
}

/// One trigger pair for the request and one for the response.
pub struct BiTrigger {
    pub request: TriggerInstance,
    pub response: TriggerInstance,
}

impl BiTrigger {
    /// Creates a request pair and a response pair, each trigger firing its
    /// own listener.
    pub fn new() -> (r: BiTrigger)
        ensures
            r.request.paired(),
            r.response.paired(),
    {
        BiTrigger { request: TriggerInstance::new(), response: TriggerInstance::new() }
    }
}

impl TriggerInstance {
    /// What `clone` makes of `self`: a copy whose trigger and listener are
    /// clones of this instance's, sharing their state.
    pub open spec fn is_clone_of(&self, original: &TriggerInstance) -> bool {
        &&& self.trigger.link() == original.trigger.link()
        &&& self.listener.link() == original.listener.link()
        &&& vstd::pervasive::strictly_cloned(original.trigger.inner(), self.trigger.inner())
        &&& vstd::pervasive::strictly_cloned(original.listener.inner(), self.listener.inner())
    }
}

impl Clone for TriggerInstance {
    /// Another handle on the same trigger and listener.
    fn clone(&self) -> (r: Self)
        ensures
            r.is_clone_of(self),
    {
        TriggerInstance { trigger: self.trigger.clone(), listener: self.listener.clone() }
    }
}

impl Clone for BiTrigger {
    /// Another handle on the same request pair and response pair.
    fn clone(&self) -> (r: Self)
        ensures
            r.request.is_clone_of(&self.request),
            r.response.is_clone_of(&self.response),
    {
        BiTrigger { request: self.request.clone(), response: self.response.clone() }
    }
}

/// A clone of a listener is woken by exactly the triggers that wake the
/// original: its runtime listener is what `Listener::clone` makes of the
/// original's (another listener on the same trigger state), and a trigger
/// that fires the original fires the clone.
pub proof fn lemma_listener_clone_woken_by_same_trigger(
    t: PairedTrigger,
    l: PairedListener,
    c: PairedListener,
)
    requires
        call_ensures(<PairedListener as Clone>::clone, (&l,), c),
    ensures
        vstd::pervasive::strictly_cloned(l.inner(), c.inner()),
        t.link() == l.link() <==> t.link() == c.link(),
{
}

/// A clone of a trigger fires exactly the listeners that the original fires:
/// its runtime trigger is what `Trigger::clone` makes of the original's.
pub proof fn lemma_trigger_clone_fires_same_listeners(
    t: PairedTrigger,
    l: PairedListener,
    c: PairedTrigger,
)
    requires
        call_ensures(<PairedTrigger as Clone>::clone, (&t,), c),
    ensures
        vstd::pervasive::strictly_cloned(t.inner(), c.inner()),
        t.link() == l.link() <==> c.link() == l.link(),
{
}

/// Cloning a request/response pair shares it: in the clone, the request
/// trigger of the original fires the request listener, and the response
/// trigger of the original fires the response listener, whenever they did in
/// the original; each runtime value is a clone of the original's.
pub proof fn lemma_bitrigger_clone_shares_pairs(bt: BiTrigger, c: BiTrigger)
    requires
        call_ensures(<BiTrigger as Clone>::clone, (&bt,), c),
    ensures
        bt.request.paired() ==> bt.request.trigger.link() == c.request.listener.link(),
        bt.response.paired() ==> bt.response.trigger.link() == c.response.listener.link(),
        bt.request.paired() ==> c.request.paired(),
        bt.response.paired() ==> c.response.paired(),
        vstd::pervasive::strictly_cloned(bt.request.listener.inner(), c.request.listener.inner()),
        vstd::pervasive::strictly_cloned(bt.response.listener.inner(), c.response.listener.inner()),
        vstd::pervasive::strictly_cloned(bt.request.trigger.inner(), c.request.trigger.inner()),
        vstd::pervasive::strictly_cloned(bt.response.trigger.inner(), c.response.trigger.inner()),
{
}

} // verus!
