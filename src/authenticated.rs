use vstd::prelude::*;
use uuid::Uuid;

verus! {

/// The identity a client authenticates as; carried through, never inspected.
#[verifier::external_type_specification]
#[verifier::external_body]
pub struct ExUuid(Uuid);

/// The authentication state of one inbound transport connection: unset until
/// the first successful AUTHENTICATE, then set for good. Relay commands wait
/// until it is set.
pub struct Authenticated {
    uuid: Option<Uuid>,
    notifier: bool,
}

/// The state after `set(u)`: the first uuid stays.
pub open spec fn after_set(state: Option<Uuid>, u: Uuid) -> Option<Uuid> {
    match state {
        Some(first) => Some(first),
        None => Some(u),
    }
}

impl Authenticated {
    /// Unset, with a notifier for waiters.
    pub fn new() -> (r: Authenticated)
        ensures
            r.wf(),
            r.uuid() is None,
            r.has_notifier(),
    {
        Authenticated { uuid: None, notifier: true }
    }

    pub closed spec fn uuid(&self) -> Option<Uuid> {
        self.uuid
    }

    /// Whether waiters still park on the notifier.
    pub closed spec fn has_notifier(&self) -> bool {
        self.notifier
    }

    /// The notifier exists exactly while the latch is unset.
    pub open spec fn wf(&self) -> bool {
        self.has_notifier() <==> self.uuid() is None
    }

    /// Records a successful authentication as `uuid`. The first call sets the
    /// latch, drops the notifier and returns true: the parked waiters are to
    /// be woken. A later call changes nothing and returns false.
    pub fn set(&mut self, uuid: Uuid) -> (r: bool)
        requires
            old(self).wf(),
        ensures
            final(self).wf(),
            final(self).uuid() == after_set(old(self).uuid(), uuid),
            r == (old(self).uuid() is None),
            !final(self).has_notifier(),
    {
        if self.uuid.is_some() {
            return false;
        }
        self.uuid = Some(uuid);
        self.notifier = false;
        true
    }

    /// The uuid, if the latch is set.
    pub fn get(&self) -> (r: Option<Uuid>)
        ensures
            r == self.uuid(),
    {
        self.uuid
    }

    /// Whether a waiter may go on at once; otherwise it parks on the notifier
    /// until `set` wakes it.
    pub fn wait(&self) -> (r: bool)
        requires
            self.wf(),
        ensures
            r == (self.uuid() is Some),
            !r ==> self.has_notifier(),
    {
        !self.notifier
    }
}

/// Once set, the latch keeps its first uuid whatever is set after it, so a
/// waiter that comes after the first `set` goes on at once.
pub proof fn lemma_latch_sticky(state: Option<Uuid>, us: Seq<Uuid>)
    requires
        state is Some,
    ensures
        us.fold_left(state, |s: Option<Uuid>, u: Uuid| after_set(s, u)) == state,
    decreases us.len(),
{
    if us.len() > 0 {
        lemma_latch_sticky(state, us.drop_last());
    }
}

/// A call on the latch, in the order the calls take effect.
pub enum LatchEvent {
    Authenticate(Uuid),
    Wait,
}

/// The latch's uuid after `events`, starting unset.
pub open spec fn latch_after(events: Seq<LatchEvent>) -> Option<Uuid>
    decreases events.len(),
{
    if events.len() == 0 {
        None
    } else {
        let before = latch_after(events.drop_last());
        match events.last() {
            LatchEvent::Authenticate(u) => after_set(before, u),
            LatchEvent::Wait => before,
        }
    }
}

/// After any interleaving of calls, a `wait` goes on at once exactly when a
/// `set` came before it, and the uuid kept is that of the first `set`.
pub proof fn lemma_latch_history(events: Seq<LatchEvent>)
    ensures
        latch_after(events) is Some <==> exists|j: int| 0 <= j < events.len() && events[j] is Authenticate,
        forall|j: int|
            0 <= j < events.len() && events[j] is Authenticate && (forall|k: int| 0 <= k < j ==> events[k] is Wait)
                ==> latch_after(events) == Some(events[j]->Authenticate_0),
    decreases events.len(),
{
    if events.len() > 0 {
        let pre = events.drop_last();
        lemma_latch_history(pre);
        assert forall|j: int| 0 <= j < pre.len() implies pre[j] == events[j] by {}
        if latch_after(pre) is Some {
            let j0 = choose|j: int| 0 <= j < pre.len() && pre[j] is Authenticate;
            assert(events[j0] is Authenticate);
        }
        assert forall|j: int|
            0 <= j < events.len() && events[j] is Authenticate && (forall|k: int| 0 <= k < j ==> events[k] is Wait)
                implies latch_after(events) == Some(events[j]->Authenticate_0) by {
            if j < pre.len() {
                assert(pre[j] is Authenticate);
                assert forall|k: int| 0 <= k < j implies pre[k] is Wait by {
                    assert(events[k] is Wait);
                }
            } else {
                assert forall|k: int| 0 <= k < pre.len() implies !(pre[k] is Authenticate) by {
                    assert(events[k] is Wait);
                }
            }
        }
    }
}

} // verus!
