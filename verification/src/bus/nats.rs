//! The NATS-backed bus: its configuration, and the bookkeeping of its
//! connection and subscriptions. The application holds the NATS client and
//! the subscriber tasks and asks this state what each operation may do.
use vstd::prelude::*;
use crate::bus::{BusError, SubscriptionId, has_id, ids_on_subject, matching_ids, subs_view};
use crate::text::owned;

verus! {

/// The server a bus connects to when nothing else is configured.
pub const DEFAULT_NATS_URL: &'static str = "nats://127.0.0.1:4222";

/// Whether `s` starts with `prefix` and has more after it.
pub open spec fn has_prefix_and_more(s: Seq<char>, prefix: Seq<char>) -> bool {
    s.len() > prefix.len() && s.subrange(0, prefix.len() as int) == prefix
}

/// A server URL the bus accepts: `nats://` or `tls://` followed by a host.
pub open spec fn valid_nats_url(u: Seq<char>) -> bool {
    has_prefix_and_more(u, "nats://"@) || has_prefix_and_more(u, "tls://"@)
}

/// Whether `s` starts with `prefix` and has more after it.
fn starts_with_and_more(s: &str, prefix: &str) -> (r: bool)
    ensures
        r == has_prefix_and_more(s@, prefix@),
{
    let n = s.unicode_len();
    let m = prefix.unicode_len();
    if n <= m {
        return false;
    }
    let mut i: usize = 0;
    while i < m
        invariant
            i <= m,
            m < n,
            n == s@.len(),
            m == prefix@.len(),
            forall|j: int| 0 <= j < i ==> s@[j] == prefix@[j],
        decreases m - i,
    {
        if s.get_char(i) != prefix.get_char(i) {
            assert(s@.subrange(0, m as int)[i as int] != prefix@[i as int]);
            return false;
        }
        i = i + 1;
    }
    assert(s@.subrange(0, m as int) =~= prefix@);
    true
}

/// The configuration of a NATS-backed bus.
#[derive(Clone, Debug)]
pub struct NatsBusConfig {
    pub url: String,
}

impl NatsBusConfig {
    /// A configuration for the given server.
    pub fn new(url: &str) -> (r: NatsBusConfig)
        ensures
            r.url@ == url@,
    {
        NatsBusConfig { url: owned(url) }
    }

    /// Whether a server URL is one the bus accepts: `nats://` or `tls://`
    /// followed by a host.
    pub fn is_valid_url(url: &str) -> (r: bool)
        ensures
            r == valid_nats_url(url@),
    {
        proof {
            reveal_strlit("nats://");
            reveal_strlit("tls://");
        }
        starts_with_and_more(url, "nats://") || starts_with_and_more(url, "tls://")
    }

    /// The configuration for a server URL read from the environment: that
    /// URL when one was set, the default server otherwise.
    pub fn from_env_value(value: Option<String>) -> (r: NatsBusConfig)
        ensures
            value matches Some(v) ==> r.url@ == v@,
            value is None ==> r.url@ == DEFAULT_NATS_URL@,
    {
        match value {
            Some(v) => NatsBusConfig { url: v },
            None => NatsBusConfig::default(),
        }
    }
}

impl Default for NatsBusConfig {
    /// The default server, `nats://127.0.0.1:4222`.
    fn default() -> (r: NatsBusConfig)
        ensures
            r.url@ == DEFAULT_NATS_URL@,
    {
        NatsBusConfig::new(DEFAULT_NATS_URL)
    }
}

/// The state of a NATS-backed bus.
pub struct NatsV {
    pub closed: bool,
    /// Whether a client connection is held.
    pub connected: bool,
    /// Subscriptions as identifier and subject, in subscription order.
    pub subs: Seq<(Seq<char>, Seq<char>)>,
}

/// The bookkeeping of a NATS-backed bus.
#[derive(Debug)]
pub struct NatsBusState {
    closed: bool,
    connected: bool,
    subs: Vec<(SubscriptionId, String)>,
}

/// The first subscription with the identifier removed.
pub open spec fn remove_first(subs: Seq<(Seq<char>, Seq<char>)>, id: Seq<char>) -> Seq<
    (Seq<char>, Seq<char>),
>
    decreases subs.len(),
{
    if subs.len() == 0 {
        subs
    } else if subs[0].0 == id {
        subs.drop_first()
    } else {
        seq![subs[0]] + remove_first(subs.drop_first(), id)
    }
}

impl NatsBusState {
    pub closed spec fn view(&self) -> NatsV {
        NatsV { closed: self.closed, connected: self.connected, subs: subs_view(self.subs@) }
    }

    /// A bus that has not connected yet: closed, with no client and no
    /// subscription.
    pub fn new() -> (r: NatsBusState)
        ensures
            r@.closed,
            !r@.connected,
            r@.subs.len() == 0,
    {
        let r = NatsBusState { closed: true, connected: false, subs: Vec::new() };
        assert(r@.subs =~= Seq::<(Seq<char>, Seq<char>)>::empty());
        r
    }

    /// Whether a connection still has to be made.
    pub fn needs_connect(&self) -> (r: bool)
        ensures
            r == !self@.connected,
    {
        !self.connected
    }

    /// Records that a client connected: the bus is open.
    pub fn mark_connected(&mut self)
        ensures
            final(self)@ == (NatsV { closed: false, connected: true, ..old(self)@ }),
    {
        self.closed = false;
        self.connected = true;
    }

    /// Whether the bus may subscribe or publish: a closed bus refuses with
    /// `Closed`, one without a client with a connection error.
    pub fn check_ready(&self) -> (r: Result<(), BusError>)
        ensures
            self@.closed ==> r == Err::<(), BusError>(BusError::Closed),
            !self@.closed && !self@.connected ==> (r matches Err(BusError::ConnectionError(m))
                && m@ == "not connected"@),
            !self@.closed && self@.connected ==> r is Ok,
    {
        if self.closed {
            Err(BusError::Closed)
        } else if !self.connected {
            Err(BusError::ConnectionError(owned("not connected")))
        } else {
            Ok(())
        }
    }

    /// Records a subscription made on the server; a bus closed meanwhile
    /// refuses it with `Closed`.
    pub fn record_subscription(&mut self, id: SubscriptionId, subject: String) -> (r: Result<
        (),
        BusError,
    >)
        ensures
            old(self)@.closed ==> r == Err::<(), BusError>(BusError::Closed) && final(self)@ == old(
                self,
            )@,
            !old(self)@.closed ==> r is Ok && final(self)@ == (NatsV {
                subs: old(self)@.subs.push((id.0@, subject@)),
                ..old(self)@
            }),
    {
        if self.closed {
            return Err(BusError::Closed);
        }
        let ghost key = (id.0@, subject@);
        self.subs.push((id, subject));
        assert(self@.subs =~= old(self)@.subs.push(key));
        Ok(())
    }

    /// Removes a subscription: a closed bus refuses with `Closed`, an
    /// unknown identifier is not found.
    pub fn unsubscribe(&mut self, id: &SubscriptionId) -> (r: Result<(), BusError>)
        ensures
            old(self)@.closed ==> r == Err::<(), BusError>(BusError::Closed) && final(self)@ == old(
                self,
            )@,
            !old(self)@.closed && !has_id(old(self)@.subs, id.0@) ==> r == Err::<(), BusError>(
                BusError::NotFound(id.0),
            ) && final(self)@ == old(self)@,
            !old(self)@.closed && has_id(old(self)@.subs, id.0@) ==> r is Ok && final(self)@ == (
            NatsV { subs: remove_first(old(self)@.subs, id.0@), ..old(self)@ }),
    {
        if self.closed {
            return Err(BusError::Closed);
        }
        let ghost sv = self@.subs;
        let mut i: usize = 0;
        while i < self.subs.len()
            invariant
                i <= self.subs.len(),
                sv == subs_view(self.subs@),
                !self.closed,
                forall|j: int| 0 <= j < i ==> sv[j].0 != id.0@,
                self@ == old(self)@,
            decreases self.subs.len() - i,
        {
            assert(sv[i as int] == (self.subs@[i as int].0.0@, self.subs@[i as int].1@));
            if crate::text::str_eq(self.subs[i].0.0.as_str(), id.0.as_str()) {
                self.subs.remove(i);
                proof {
                    lemma_remove_first_at(sv, id.0@, i as int);
                    assert(subs_view(self.subs@) =~= sv.remove(i as int));
                }
                return Ok(());
            }
            i = i + 1;
        }
        proof {
            if has_id(sv, id.0@) {
                let j = choose|j: int| 0 <= j < sv.len() && sv[j].0 == id.0@;
                assert(false);
            }
        }
        Err(BusError::NotFound(id.0.clone()))
    }

    /// Closes the bus: it drops its client and every subscription.
    pub fn close(&mut self)
        ensures
            final(self)@ == (NatsV { closed: true, connected: false, subs: Seq::empty() }),
    {
        self.closed = true;
        self.connected = false;
        self.subs = Vec::new();
        assert(self@.subs =~= Seq::<(Seq<char>, Seq<char>)>::empty());
    }

    /// Whether the bus is closed.
    pub fn is_closed(&self) -> (r: bool)
        ensures
            r == self@.closed,
    {
        self.closed
    }

    /// The number of subscriptions on a subject.
    pub fn handler_count(&self, subject: &str) -> (r: usize)
        ensures
            r == matching_ids(self@.subs, subject@).len(),
    {
        ids_on_subject(&self.subs, subject).len()
    }
}

/// Removing the first subscription with an identifier, found at `i`.
pub proof fn lemma_remove_first_at(s: Seq<(Seq<char>, Seq<char>)>, id: Seq<char>, i: int)
    requires
        0 <= i < s.len(),
        s[i].0 == id,
        forall|j: int| 0 <= j < i ==> s[j].0 != id,
    ensures
        remove_first(s, id) == s.remove(i),
    decreases i,
{
    if i == 0 {
        assert(s.drop_first() =~= s.remove(0));
    } else {
        let t = s.drop_first();
        assert forall|j: int| 0 <= j < i - 1 implies t[j].0 != id by {
            assert(t[j] == s[j + 1]);
        }
        lemma_remove_first_at(t, id, i - 1);
        assert(seq![s[0]] + t.remove(i - 1) =~= s.remove(i));
    }
}

/// Unsubscribing a subscription made under a fresh identifier gives back
/// the subscriptions there were before it.
pub proof fn law_nats_unsubscribe_undoes_subscribe(
    subs: Seq<(Seq<char>, Seq<char>)>,
    id: Seq<char>,
    subject: Seq<char>,
)
    requires
        !has_id(subs, id),
    ensures
        has_id(subs.push((id, subject)), id),
        remove_first(subs.push((id, subject)), id) == subs,
{
    let s = subs.push((id, subject));
    assert(s[subs.len() as int].0 == id);
    assert forall|j: int| 0 <= j < subs.len() implies s[j].0 != id by {
        assert(s[j] == subs[j]);
    }
    lemma_remove_first_at(s, id, subs.len() as int);
    assert(s.remove(subs.len() as int) =~= subs);
}

} // verus!
