//! The message bus: subscription identifiers, bus errors, and the
//! bookkeeping of the in-memory and NATS-backed buses. Delivery to handlers
//! and the network are the application's part; what is subscribed, what is
//! published and who receives it is decided here.
pub mod basic;
pub mod nats;

use vstd::prelude::*;
use crate::external::{is_uuid_v4_text, new_uuid};
use crate::text::{concat, concat3};

verus! {

/// The identifier of a subscription.
#[derive(Debug, PartialEq, Eq, Hash)]
pub struct SubscriptionId(pub String);

impl Clone for SubscriptionId {
    /// The same identifier.
    fn clone(&self) -> (r: SubscriptionId)
        ensures
            r == *self,
    {
        SubscriptionId(self.0.clone())
    }
}

impl SubscriptionId {
    /// The identifier as written for people: `SubscriptionId(<id>)`.
    pub fn describe(&self) -> (r: String)
        ensures
            r@ == "SubscriptionId("@ + self.0@ + ")"@,
    {
        concat3("SubscriptionId(", self.0.as_str(), ")")
    }
}

/// A subscription identifier under a fresh random UUID.
pub fn fresh_subscription_id() -> (r: SubscriptionId)
    ensures
        is_uuid_v4_text(r.0@),
{
    SubscriptionId(new_uuid())
}

/// An error of a bus operation.
#[derive(Clone, Debug, PartialEq)]
pub enum BusError {
    NotFound(String),
    AlreadySubscribed(String),
    Closed,
    SerializationError(String),
    ProtocolError,
    ConnectionError(String),
    PublishError(String),
    SubscribeError(String),
    UnsubscribeError(String),
    NatsError(String),
}

impl BusError {
    /// The message that describes the error.
    pub open spec fn spec_message(&self) -> Seq<char> {
        match self {
            BusError::NotFound(m) => "subject not found: "@ + m@,
            BusError::AlreadySubscribed(m) => "already subscribed: "@ + m@,
            BusError::Closed => "bus is closed"@,
            BusError::SerializationError(m) => "serialization error: "@ + m@,
            BusError::ProtocolError => "protocol error"@,
            BusError::ConnectionError(m) => "connection error: "@ + m@,
            BusError::PublishError(m) => "publish error: "@ + m@,
            BusError::SubscribeError(m) => "subscribe error: "@ + m@,
            BusError::UnsubscribeError(m) => "unsubscribe error: "@ + m@,
            BusError::NatsError(m) => "NATS error: "@ + m@,
        }
    }

    /// The message that describes the error.
    pub fn message(&self) -> (r: String)
        ensures
            r@ == self.spec_message(),
    {
        match self {
            BusError::NotFound(m) => concat("subject not found: ", m.as_str()),
            BusError::AlreadySubscribed(m) => concat("already subscribed: ", m.as_str()),
            BusError::Closed => "bus is closed".to_owned(),
            BusError::SerializationError(m) => concat("serialization error: ", m.as_str()),
            BusError::ProtocolError => "protocol error".to_owned(),
            BusError::ConnectionError(m) => concat("connection error: ", m.as_str()),
            BusError::PublishError(m) => concat("publish error: ", m.as_str()),
            BusError::SubscribeError(m) => concat("subscribe error: ", m.as_str()),
            BusError::UnsubscribeError(m) => concat("unsubscribe error: ", m.as_str()),
            BusError::NatsError(m) => concat("NATS error: ", m.as_str()),
        }
    }
}

/// The identifiers of the subscriptions on a subject, in subscription order.
pub open spec fn matching_ids(subs: Seq<(Seq<char>, Seq<char>)>, subject: Seq<char>) -> Seq<
    Seq<char>,
>
    decreases subs.len(),
{
    if subs.len() == 0 {
        Seq::empty()
    } else {
        let rest = matching_ids(subs.drop_last(), subject);
        if subs.last().1 == subject {
            rest.push(subs.last().0)
        } else {
            rest
        }
    }
}

/// The subscriptions without those with the given identifier.
pub open spec fn without_id(subs: Seq<(Seq<char>, Seq<char>)>, id: Seq<char>) -> Seq<
    (Seq<char>, Seq<char>),
>
    decreases subs.len(),
{
    if subs.len() == 0 {
        Seq::empty()
    } else {
        let rest = without_id(subs.drop_last(), id);
        if subs.last().0 == id {
            rest
        } else {
            rest.push(subs.last())
        }
    }
}

/// Whether a subscription has the given identifier.
/// Unsubscribing an identifier keeps every subscription whose identifier
/// differs, in their order, and only those.
pub proof fn law_without_id_keeps_other_subscriptions(subs: Seq<(Seq<char>, Seq<char>)>, id: Seq<char>)
    ensures
        without_id(subs, id) == subs.filter(|e: (Seq<char>, Seq<char>)| e.0 != id),
    decreases subs.len(),
{
    reveal_with_fuel(Seq::<(Seq<char>, Seq<char>)>::filter, 1);
    if subs.len() > 0 {
        law_without_id_keeps_other_subscriptions(subs.drop_last(), id);
    }
}

/// Unsubscribing from a concatenation of subscription lists unsubscribes
/// from each part.
pub proof fn law_without_id_distributes(s1: Seq<(Seq<char>, Seq<char>)>, s2: Seq<(Seq<char>, Seq<char>)>, id: Seq<char>)
    ensures
        without_id(s1 + s2, id) == without_id(s1, id) + without_id(s2, id),
    decreases s2.len(),
{
    if s2.len() == 0 {
        assert(s1 + s2 =~= s1);
        assert(without_id(s1, id) + without_id(s2, id) =~= without_id(s1, id));
    } else {
        assert((s1 + s2).drop_last() =~= s1 + s2.drop_last());
        assert((s1 + s2).last() == s2.last());
        law_without_id_distributes(s1, s2.drop_last(), id);
        if s2.last().0 != id {
            assert(without_id(s1, id) + without_id(s2.drop_last(), id).push(s2.last())
                =~= (without_id(s1, id) + without_id(s2.drop_last(), id)).push(s2.last()));
        }
    }
}

pub open spec fn has_id(subs: Seq<(Seq<char>, Seq<char>)>, id: Seq<char>) -> bool {
    exists|i: int| 0 <= i < subs.len() && subs[i].0 == id
}

/// The subscriptions as identifier and subject.
pub open spec fn subs_view(v: Seq<(SubscriptionId, String)>) -> Seq<(Seq<char>, Seq<char>)> {
    v.map_values(|e: (SubscriptionId, String)| (e.0.0@, e.1@))
}

/// The identifiers of the subscriptions on a subject, in subscription order.
pub fn ids_on_subject(subs: &Vec<(SubscriptionId, String)>, subject: &str) -> (r: Vec<
    SubscriptionId,
>)
    ensures
        r@.map_values(|s: SubscriptionId| s.0@) == matching_ids(subs_view(subs@), subject@),
{
    let ghost sv = subs_view(subs@);
    let mut r: Vec<SubscriptionId> = Vec::new();
    let mut i: usize = 0;
    while i < subs.len()
        invariant
            i <= subs.len(),
            sv == subs_view(subs@),
            r@.map_values(|s: SubscriptionId| s.0@) == matching_ids(sv.subrange(0, i as int), subject@),
        decreases subs.len() - i,
    {
        let ghost before = r@;
        assert(sv.subrange(0, i + 1).drop_last() =~= sv.subrange(0, i as int));
        assert(sv[i as int] == (subs@[i as int].0.0@, subs@[i as int].1@));
        if crate::text::str_eq(subs[i].1.as_str(), subject) {
            r.push(subs[i].0.clone());
            assert(r@.map_values(|s: SubscriptionId| s.0@) =~= before.map_values(
                |s: SubscriptionId| s.0@,
            ).push(subs@[i as int].0.0@));
        }
        i = i + 1;
    }
    assert(sv.subrange(0, subs.len() as int) =~= sv);
    r
}

/// Removes every subscription with the given identifier; reports whether
/// there was one.
pub fn remove_id(subs: &mut Vec<(SubscriptionId, String)>, id: &str) -> (r: bool)
    ensures
        r == has_id(subs_view(old(subs)@), id@),
        subs_view(final(subs)@) == without_id(subs_view(old(subs)@), id@),
{
    let ghost sv = subs_view(subs@);
    let mut kept: Vec<(SubscriptionId, String)> = Vec::new();
    let mut found = false;
    let mut i: usize = 0;
    while i < subs.len()
        invariant
            i <= subs.len(),
            sv == subs_view(subs@),
            subs_view(kept@) == without_id(sv.subrange(0, i as int), id@),
            found == has_id(sv.subrange(0, i as int), id@),
        decreases subs.len() - i,
    {
        let ghost before = kept@;
        let ghost pre = sv.subrange(0, i as int);
        let ghost post = sv.subrange(0, i + 1);
        assert(post.drop_last() =~= pre);
        assert(sv[i as int] == (subs@[i as int].0.0@, subs@[i as int].1@));
        assert(post.last() == sv[i as int]);
        if crate::text::str_eq(subs[i].0.0.as_str(), id) {
            found = true;
            assert(post[i as int].0 == id@);
        } else {
            kept.push((subs[i].0.clone(), subs[i].1.clone()));
            assert(subs_view(kept@) =~= subs_view(before).push(sv[i as int]));
            proof {
                if has_id(post, id@) {
                    let j = choose|j: int| 0 <= j < post.len() && post[j].0 == id@;
                    assert(pre[j].0 == id@);
                }
            }
        }
        proof {
            if has_id(pre, id@) {
                let j = choose|j: int| 0 <= j < pre.len() && pre[j].0 == id@;
                assert(post[j].0 == id@);
            }
        }
        i = i + 1;
    }
    assert(sv.subrange(0, subs.len() as int) =~= sv);
    *subs = kept;
    found
}

} // verus!
