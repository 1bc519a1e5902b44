//! The in-memory bus: its subscriptions, whether it is closed, and the
//! record of every event published on it.
use vstd::prelude::*;
use crate::bus::{
    BusError, SubscriptionId, has_id, ids_on_subject, matching_ids, remove_id, subs_view, without_id,
};
use crate::bus::fresh_subscription_id;
use crate::external::is_uuid_v4_text;
use crate::protocol::message::EventEnvelope;

verus! {

/// The state of an in-memory bus.
pub struct BusV {
    /// Subscriptions as identifier and subject, in subscription order.
    pub subs: Seq<(Seq<char>, Seq<char>)>,
    pub closed: bool,
    /// Every event published while the bus was open, in order.
    pub published: Seq<EventEnvelope>,
}

/// The bookkeeping of an in-memory bus. The application keeps the handler
/// of each subscription under its identifier and runs the handlers that
/// `publish` names.
#[derive(Debug)]
pub struct BusCore {
    subscriptions: Vec<(SubscriptionId, String)>,
    closed: bool,
    published: Vec<EventEnvelope>,
}

impl BusCore {
    pub closed spec fn view(&self) -> BusV {
        BusV {
            subs: subs_view(self.subscriptions@),
            closed: self.closed,
            published: self.published@,
        }
    }

    /// An open bus with no subscription and nothing published.
    pub fn new() -> (r: BusCore)
        ensures
            r@.subs.len() == 0,
            !r@.closed,
            r@.published.len() == 0,
    {
        let r = BusCore { subscriptions: Vec::new(), closed: false, published: Vec::new() };
        assert(r@.subs =~= Seq::<(Seq<char>, Seq<char>)>::empty());
        r
    }

    /// Adds a subscription with the given identifier on a subject.
    pub fn add_subscription(&mut self, id: SubscriptionId, subject: String)
        ensures
            final(self)@ == (BusV { subs: old(self)@.subs.push((id.0@, subject@)), ..old(self)@ }),
    {
        let ghost key = (id.0@, subject@);
        self.subscriptions.push((id, subject));
        assert(self@.subs =~= old(self)@.subs.push(key));
    }

    /// Subscribes on a subject under a fresh random identifier.
    pub fn subscribe(&mut self, subject: String) -> (r: Result<SubscriptionId, BusError>)
        ensures
            r is Ok,
            (r matches Ok(id) && is_uuid_v4_text(id.0@) && final(self)@ == (BusV {
                subs: old(self)@.subs.push((id.0@, subject@)),
                ..old(self)@
            })),
    {
        let id = fresh_subscription_id();
        self.add_subscription(id.clone(), subject);
        Ok(id)
    }

    /// Publishes an event: on an open bus the event is recorded and the
    /// identifiers of the subscriptions on its subject are returned, in
    /// subscription order; a closed bus refuses it and records nothing.
    pub fn publish(&mut self, envelope: EventEnvelope) -> (r: Result<Vec<SubscriptionId>, BusError>)
        ensures
            old(self)@.closed ==> r == Err::<Vec<SubscriptionId>, BusError>(BusError::Closed)
                && final(self)@ == old(self)@,
            !old(self)@.closed ==> (r matches Ok(ids) && ids@.map_values(|s: SubscriptionId| s.0@)
                == matching_ids(old(self)@.subs, envelope.subject@) && final(self)@ == (BusV {
                published: old(self)@.published.push(envelope),
                ..old(self)@
            })),
    {
        if self.closed {
            return Err(BusError::Closed);
        }
        let ids = ids_on_subject(&self.subscriptions, envelope.subject.as_str());
        self.published.push(envelope);
        Ok(ids)
    }

    /// Removes the subscriptions with the given identifier; an unknown
    /// identifier is refused as not found.
    pub fn unsubscribe(&mut self, id: &SubscriptionId) -> (r: Result<(), BusError>)
        ensures
            has_id(old(self)@.subs, id.0@) ==> r is Ok && final(self)@ == (BusV {
                subs: without_id(old(self)@.subs, id.0@),
                ..old(self)@
            }),
            !has_id(old(self)@.subs, id.0@) ==> r == Err::<(), BusError>(BusError::NotFound(id.0))
                && final(self)@ == old(self)@,
    {
        let found = remove_id(&mut self.subscriptions, id.0.as_str());
        if found {
            Ok(())
        } else {
            proof {
                let s = old(self)@.subs;
                assert(without_id(s, id.0@) == s) by {
                    lemma_without_absent(s, id.0@);
                }
            }
            Err(BusError::NotFound(id.0.clone()))
        }
    }

    /// Closes the bus and drops every subscription.
    pub fn close(&mut self)
        ensures
            final(self)@ == (BusV { subs: Seq::empty(), closed: true, ..old(self)@ }),
    {
        self.closed = true;
        self.subscriptions = Vec::new();
        assert(self@.subs =~= Seq::<(Seq<char>, Seq<char>)>::empty());
    }

    /// Whether the bus is closed.
    pub fn is_closed(&self) -> (r: bool)
        ensures
            r == self@.closed,
    {
        self.closed
    }

    /// The number of subscriptions on a subject.
    pub fn handler_count(&self, subject: &str) -> (r: usize)
        ensures
            r == matching_ids(self@.subs, subject@).len(),
    {
        let ids = ids_on_subject(&self.subscriptions, subject);
        ids.len()
    }

    /// The identifiers of the subscriptions on a subject.
    pub fn handlers_for(&self, subject: &str) -> (r: Vec<SubscriptionId>)
        ensures
            r@.map_values(|s: SubscriptionId| s.0@) == matching_ids(self@.subs, subject@),
    {
        ids_on_subject(&self.subscriptions, subject)
    }

    /// Every event published on the bus, in order.
    pub fn published_events(&self) -> (r: &Vec<EventEnvelope>)
        ensures
            r@ == self@.published,
    {
        &self.published
    }
}

/// Without a subscription of that identifier, removing it changes nothing.
pub proof fn lemma_without_absent(s: Seq<(Seq<char>, Seq<char>)>, id: Seq<char>)
    requires
        !has_id(s, id),
    ensures
        without_id(s, id) == s,
    decreases s.len(),
{
    if s.len() > 0 {
        let t = s.drop_last();
        if has_id(t, id) {
            let j = choose|j: int| 0 <= j < t.len() && t[j].0 == id;
            assert(s[j].0 == id);
        }
        lemma_without_absent(t, id);
        assert(s[s.len() - 1].0 != id);
        assert(t.push(s.last()) =~= s);
    }
}

/// Subscribing adds one handler on its subject and changes no other
/// subject's handlers.
pub proof fn law_subscribe_counts(
    subs: Seq<(Seq<char>, Seq<char>)>,
    id: Seq<char>,
    subject: Seq<char>,
    other: Seq<char>,
)
    ensures
        matching_ids(subs.push((id, subject)), subject) == matching_ids(subs, subject).push(id),
        other != subject ==> matching_ids(subs.push((id, subject)), other) == matching_ids(subs, other),
{
    assert(subs.push((id, subject)).drop_last() =~= subs);
}

/// Unsubscribing a subscription made under a fresh identifier gives back
/// the subscriptions there were before it.
pub proof fn law_unsubscribe_undoes_subscribe(
    subs: Seq<(Seq<char>, Seq<char>)>,
    id: Seq<char>,
    subject: Seq<char>,
)
    requires
        !has_id(subs, id),
    ensures
        has_id(subs.push((id, subject)), id),
        without_id(subs.push((id, subject)), id) == subs,
{
    let s = subs.push((id, subject));
    assert(s[subs.len() as int].0 == id);
    assert(s.drop_last() =~= subs);
    lemma_without_absent(subs, id);
}

/// After an identifier is unsubscribed no subscription has it.
pub proof fn law_unsubscribe_removes(subs: Seq<(Seq<char>, Seq<char>)>, id: Seq<char>)
    ensures
        !has_id(without_id(subs, id), id),
    decreases subs.len(),
{
    if subs.len() > 0 {
        law_unsubscribe_removes(subs.drop_last(), id);
        let rest = without_id(subs.drop_last(), id);
        if subs.last().0 != id {
            if has_id(rest.push(subs.last()), id) {
                let j = choose|j: int| 0 <= j < rest.len() + 1 && rest.push(subs.last())[j].0 == id;
                assert(rest[j].0 == id);
            }
        }
    }
}

} // verus!
