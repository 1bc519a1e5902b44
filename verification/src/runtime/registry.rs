//! The worker registry: what the runtime knows of each agent, keyed by the
//! agent's identifier.
use vstd::prelude::*;
use crate::json::{Json, JsonV};
use crate::text::{opt_view, clone_strings, contains_string, owned, sorted_unique, str_eq, strictly_sorted, views};

verus! {

/// The state of a registered worker.
#[derive(Clone, Copy, Debug, PartialEq, Eq, Structural)]
pub enum WorkerState {
    Ready,
    Exited,
    Error,
}

/// The wire name of a worker state.
pub open spec fn worker_state_text(s: WorkerState) -> Seq<char> {
    match s {
        WorkerState::Ready => "ready"@,
        WorkerState::Exited => "exited"@,
        WorkerState::Error => "error"@,
    }
}

/// The worker state a state text stands for: `exited`, `error`, and ready
/// for anything else.
pub open spec fn worker_state_of(t: Seq<char>) -> WorkerState {
    if t == "exited"@ {
        WorkerState::Exited
    } else if t == "error"@ {
        WorkerState::Error
    } else {
        WorkerState::Ready
    }
}

impl WorkerState {
    /// The worker state a state text stands for.
    pub fn from_runtime_state(state: &str) -> (r: WorkerState)
        ensures
            r == worker_state_of(state@),
    {
        if str_eq(state, "exited") {
            WorkerState::Exited
        } else if str_eq(state, "error") {
            WorkerState::Error
        } else {
            WorkerState::Ready
        }
    }

    /// Whether the state's wire name is the given text.
    pub fn eq_text(&self, other: &str) -> (r: bool)
        ensures
            r == (worker_state_text(*self) == other@),
    {
        str_eq(self.as_str(), other)
    }

    /// The wire name of the state.
    pub fn as_str(&self) -> (r: &'static str)
        ensures
            r@ == worker_state_text(*self),
    {
        match self {
            WorkerState::Ready => "ready",
            WorkerState::Exited => "exited",
            WorkerState::Error => "error",
        }
    }
}

/// Reading back the wire name of a worker state gives the state again.
pub proof fn lemma_worker_state_text_round_trip(s: WorkerState)
    ensures
        worker_state_of(worker_state_text(s)) == s,
{
    reveal_strlit("ready");
    reveal_strlit("exited");
    reveal_strlit("error");
    assert("ready"@.len() == 5 && "exited"@.len() == 6 && "error"@.len() == 5);
    assert("ready"@[0] != "error"@[0]);
}

/// What the registry holds of one worker.
pub struct WorkerV {
    pub id: Seq<char>,
    pub agent_id: Seq<char>,
    pub capabilities: Seq<Seq<char>>,
    pub state: WorkerState,
    pub last_error: JsonV,
    pub metadata: JsonV,
}

/// The public record of a registered worker.
#[derive(Debug)]
pub struct WorkerRecord {
    pub id: String,
    pub agent_id: String,
    pub capabilities: Vec<String>,
    pub state: WorkerState,
    pub last_error: Json,
    pub metadata: Json,
}

impl Clone for WorkerRecord {
    /// A copy of the record.
    fn clone(&self) -> (r: WorkerRecord)
        ensures
            r@ == self@,
    {
        WorkerRecord {
            id: self.id.clone(),
            agent_id: self.agent_id.clone(),
            capabilities: clone_strings(&self.capabilities),
            state: self.state,
            last_error: self.last_error.deep_clone(),
            metadata: self.metadata.deep_clone(),
        }
    }
}

/// The public record of a registered worker, under its other name.
pub type WorkerInfo = WorkerRecord;

impl WorkerRecord {
    pub open spec fn view(&self) -> WorkerV {
        WorkerV {
            id: self.id@,
            agent_id: self.agent_id@,
            capabilities: views(self.capabilities@),
            state: self.state,
            last_error: self.last_error@,
            metadata: self.metadata@,
        }
    }
}

/// The metadata object `{ key: value }`, or `{}` without a value.
pub open spec fn note_json(key: Seq<char>, value: Option<Seq<char>>) -> JsonV {
    match value {
        Some(v) => JsonV::Object(seq![(key, JsonV::Str(v))]),
        None => JsonV::Object(Seq::empty()),
    }
}

/// A ready worker with the given capabilities and nothing else known.
pub open spec fn ready_worker(agent_id: Seq<char>, capabilities: Seq<Seq<char>>) -> WorkerV {
    WorkerV {
        id: agent_id,
        agent_id,
        capabilities,
        state: WorkerState::Ready,
        last_error: JsonV::Null,
        metadata: JsonV::Object(Seq::empty()),
    }
}

/// A worker after it exited: an existing one keeps its identity and
/// capabilities; an unknown one is recorded with none.
pub open spec fn exited_worker(
    prev: Option<WorkerV>,
    agent_id: Seq<char>,
    reason: Option<Seq<char>>,
) -> WorkerV {
    match prev {
        Some(w) => WorkerV { state: WorkerState::Exited, metadata: note_json("reason"@, reason), ..w },
        None => WorkerV {
            id: agent_id,
            agent_id,
            capabilities: Seq::empty(),
            state: WorkerState::Exited,
            last_error: JsonV::Null,
            metadata: note_json("reason"@, reason),
        },
    }
}

/// A worker after it reported an error: an existing one keeps its identity
/// and capabilities; an unknown one is recorded with an empty `id`.
pub open spec fn errored_worker(
    prev: Option<WorkerV>,
    agent_id: Seq<char>,
    task_id: Option<Seq<char>>,
    error: JsonV,
) -> WorkerV {
    match prev {
        Some(w) => WorkerV {
            state: WorkerState::Error,
            last_error: error,
            metadata: note_json("task_id"@, task_id),
            ..w
        },
        None => WorkerV {
            id: Seq::empty(),
            agent_id,
            capabilities: Seq::empty(),
            state: WorkerState::Error,
            last_error: error,
            metadata: note_json("task_id"@, task_id),
        },
    }
}

/// Whether a worker is ready and offers the capability.
pub open spec fn serves(w: WorkerV, capability: Seq<char>) -> bool {
    w.state == WorkerState::Ready && w.capabilities.contains(capability)
}

/// The workers of a sequence, keyed by agent identifier; a later record
/// replaces an earlier one with the same key.
pub open spec fn worker_map(s: Seq<WorkerV>) -> Map<Seq<char>, WorkerV>
    decreases s.len(),
{
    if s.len() == 0 {
        Map::empty()
    } else {
        worker_map(s.drop_last()).insert(s.last().agent_id, s.last())
    }
}

/// No two records of the sequence share an agent identifier.
pub open spec fn keys_unique(s: Seq<WorkerV>) -> bool {
    forall|i: int, j: int| 0 <= i < j < s.len() ==> s[i].agent_id != s[j].agent_id
}

proof fn lemma_worker_map_lookup(s: Seq<WorkerV>, k: Seq<char>)
    requires
        keys_unique(s),
    ensures
        worker_map(s).dom().contains(k) <==> exists|i: int| 0 <= i < s.len() && s[i].agent_id == k,
        forall|i: int| 0 <= i < s.len() && s[i].agent_id == k ==> worker_map(s)[k] == s[i],
    decreases s.len(),
{
    if s.len() > 0 {
        let t = s.drop_last();
        lemma_worker_map_lookup(t, k);
        if s.last().agent_id != k {
            assert forall|i: int| 0 <= i < t.len() && t[i].agent_id == k implies 0 <= i < s.len()
                && s[i].agent_id == k by {}
            if exists|i: int| 0 <= i < s.len() && s[i].agent_id == k {
                let i = choose|i: int| 0 <= i < s.len() && s[i].agent_id == k;
                assert(t[i].agent_id == k);
            }
        } else {
            assert(s[s.len() - 1].agent_id == k);
        }
    }
}

proof fn lemma_worker_map_update(s: Seq<WorkerV>, i: int, x: WorkerV)
    requires
        keys_unique(s),
        0 <= i < s.len(),
        x.agent_id == s[i].agent_id,
    ensures
        worker_map(s.update(i, x)) == worker_map(s).insert(x.agent_id, x),
    decreases s.len(),
{
    let u = s.update(i, x);
    if i == s.len() - 1 {
        assert(u.drop_last() =~= s.drop_last());
        assert(worker_map(u) =~= worker_map(s).insert(x.agent_id, x));
    } else {
        let t = s.drop_last();
        assert(u.drop_last() =~= t.update(i, x));
        lemma_worker_map_update(t, i, x);
        assert(s.last().agent_id != x.agent_id);
        assert(worker_map(u) =~= worker_map(s).insert(x.agent_id, x));
    }
}

/// The registry of workers, keyed by agent identifier.
#[derive(Debug)]
pub struct WorkerRegistry {
    workers: Vec<WorkerRecord>,
}

impl Clone for WorkerRegistry {
    /// An independent copy holding the same workers.
    fn clone(&self) -> (r: WorkerRegistry)
        ensures
            r@ == self@,
            r.wf() == self.wf(),
    {
        let mut workers: Vec<WorkerRecord> = Vec::new();
        let mut i: usize = 0;
        while i < self.workers.len()
            invariant
                i <= self.workers.len(),
                workers@.map_values(|w: WorkerRecord| w@) == self.workers@.subrange(0, i as int).map_values(
                    |w: WorkerRecord| w@,
                ),
            decreases self.workers.len() - i,
        {
            let ghost before = workers@;
            workers.push(self.workers[i].clone());
            assert(workers@.map_values(|w: WorkerRecord| w@) =~= before.map_values(|w: WorkerRecord| w@).push(
                self.workers@[i as int]@,
            ));
            assert(self.workers@.subrange(0, i + 1).map_values(|w: WorkerRecord| w@) =~= self.workers@.subrange(
                0,
                i as int,
            ).map_values(|w: WorkerRecord| w@).push(self.workers@[i as int]@));
            i = i + 1;
        }
        assert(self.workers@.subrange(0, self.workers.len() as int) =~= self.workers@);
        let r = WorkerRegistry { workers };
        assert(r.records() =~= self.records());
        r
    }
}

impl WorkerRegistry {
    /// The stored records, in the order they were first registered.
    pub closed spec fn records(&self) -> Seq<WorkerV> {
        self.workers@.map_values(|w: WorkerRecord| w@)
    }

    /// Each agent has one record.
    pub closed spec fn wf(&self) -> bool {
        keys_unique(self.records())
    }

    /// The workers by agent identifier.
    pub closed spec fn view(&self) -> Map<Seq<char>, WorkerV> {
        worker_map(self.records())
    }

    /// An empty registry.
    pub fn new() -> (r: WorkerRegistry)
        ensures
            r.wf(),
            r@ == Map::<Seq<char>, WorkerV>::empty(),
    {
        let r = WorkerRegistry { workers: Vec::new() };
        assert(r.records() =~= Seq::<WorkerV>::empty());
        r
    }

    /// The index of the agent's record.
    fn position(&self, agent_id: &str) -> (r: Option<usize>)
        requires
            self.wf(),
        ensures
            match r {
                Some(i) => i < self.records().len() && self.records()[i as int].agent_id == agent_id@,
                None => forall|i: int|
                    0 <= i < self.records().len() ==> self.records()[i].agent_id != agent_id@,
            },
            r is Some <==> self@.dom().contains(agent_id@),
            match r {
                Some(i) => self@[agent_id@] == self.records()[i as int],
                None => true,
            },
    {
        proof {
            lemma_worker_map_lookup(self.records(), agent_id@);
        }
        let mut i: usize = 0;
        while i < self.workers.len()
            invariant
                i <= self.workers.len(),
                self.records().len() == self.workers.len(),
                self.wf(),
                forall|j: int| 0 <= j < i ==> self.records()[j].agent_id != agent_id@,
            decreases self.workers.len() - i,
        {
            if str_eq(self.workers[i].agent_id.as_str(), agent_id) {
                assert(self.records()[i as int] == self.workers@[i as int]@);
                proof {
                    lemma_worker_map_lookup(self.records(), agent_id@);
                }
                return Some(i);
            }
            i = i + 1;
        }
        None
    }

    /// Stores a record for its agent, replacing the one there was.
    fn upsert(&mut self, rec: WorkerRecord)
        requires
            old(self).wf(),
        ensures
            final(self).wf(),
            final(self)@ == old(self)@.insert(rec@.agent_id, rec@),
    {
        let ghost before = self.records();
        match self.position(rec.agent_id.as_str()) {
            Some(i) => {
                self.workers.set(i, rec);
                proof {
                    assert(self.records() =~= before.update(i as int, rec@));
                    lemma_worker_map_update(before, i as int, rec@);
                }
            },
            None => {
                self.workers.push(rec);
                proof {
                    let after = self.records();
                    assert(after =~= before.push(rec@));
                    assert(after.drop_last() =~= before);
                }
            },
        }
    }

    /// Registers a ready worker with its capabilities, replacing any record
    /// the agent had.
    pub fn register(&mut self, agent_id: String, capabilities: Vec<String>)
        requires
            old(self).wf(),
        ensures
            final(self).wf(),
            final(self)@ == old(self)@.insert(agent_id@, ready_worker(agent_id@, views(capabilities@))),
    {
        self.mark_ready(agent_id, capabilities);
    }

    /// Records that the agent is ready with the given capabilities,
    /// replacing any record it had.
    pub fn mark_ready(&mut self, agent_id: String, capabilities: Vec<String>)
        requires
            old(self).wf(),
        ensures
            final(self).wf(),
            final(self)@ == old(self)@.insert(agent_id@, ready_worker(agent_id@, views(capabilities@))),
    {
        let metadata = Json::Object(Vec::new());
        assert(metadata@->Object_0 =~= Seq::<(Seq<char>, JsonV)>::empty());
        let rec = WorkerRecord {
            id: agent_id.clone(),
            agent_id,
            capabilities,
            state: WorkerState::Ready,
            last_error: Json::Null,
            metadata,
        };
        self.upsert(rec);
    }

    /// The metadata object `{ key: value }`, or `{}`.
    fn note(key: &str, value: Option<String>) -> (r: Json)
        ensures
            r@ == note_json(key@, opt_view(value)),
    {
        let mut m: Vec<(String, Json)> = Vec::new();
        match value {
            Some(v) => {
                let e = Json::Str(v);
                m.push((owned(key), e));
                let r = Json::Object(m);
                assert(r@->Object_0[0] == (m@[0].0@, m@[0].1@));
                assert(r@->Object_0 =~= note_json(key@, opt_view(value))->Object_0);
                r
            },
            None => {
                let r = Json::Object(m);
                assert(r@->Object_0 =~= Seq::<(Seq<char>, JsonV)>::empty());
                r
            },
        }
    }

    /// Records that the agent exited, with the reason it gave.
    pub fn mark_exited(&mut self, agent_id: String, reason: Option<String>)
        requires
            old(self).wf(),
        ensures
            final(self).wf(),
            final(self)@ == old(self)@.insert(
                agent_id@,
                exited_worker(old(self)@.get(agent_id@), agent_id@, opt_view(reason)),
            ),
    {
        let metadata = Self::note("reason", reason);
        let rec = match self.position(agent_id.as_str()) {
            Some(i) => {
                let w = &self.workers[i];
                WorkerRecord {
                    id: w.id.clone(),
                    agent_id: w.agent_id.clone(),
                    capabilities: clone_strings(&w.capabilities),
                    state: WorkerState::Exited,
                    last_error: w.last_error.deep_clone(),
                    metadata,
                }
            },
            None => WorkerRecord {
                id: agent_id.clone(),
                agent_id,
                capabilities: Vec::new(),
                state: WorkerState::Exited,
                last_error: Json::Null,
                metadata,
            },
        };
        proof {
            assert(views(Seq::<String>::empty()) =~= Seq::<Seq<char>>::empty());
        }
        self.upsert(rec);
    }

    /// Records that the agent reported an error, with the task it was on.
    pub fn mark_error(&mut self, agent_id: String, task_id: Option<String>, error: Json)
        requires
            old(self).wf(),
        ensures
            final(self).wf(),
            final(self)@ == old(self)@.insert(
                agent_id@,
                errored_worker(old(self)@.get(agent_id@), agent_id@, opt_view(task_id), error@),
            ),
    {
        let metadata = Self::note("task_id", task_id);
        let rec = match self.position(agent_id.as_str()) {
            Some(i) => {
                let w = &self.workers[i];
                WorkerRecord {
                    id: w.id.clone(),
                    agent_id: w.agent_id.clone(),
                    capabilities: clone_strings(&w.capabilities),
                    state: WorkerState::Error,
                    last_error: error,
                    metadata,
                }
            },
            None => WorkerRecord {
                id: String::new(),
                agent_id,
                capabilities: Vec::new(),
                state: WorkerState::Error,
                last_error: error,
                metadata,
            },
        };
        proof {
            assert(views(Seq::<String>::empty()) =~= Seq::<Seq<char>>::empty());
        }
        self.upsert(rec);
    }

    /// The agents that are ready and offer the capability, each once.
    pub fn find_by_capability(&self, capability: &str) -> (r: Vec<String>)
        requires
            self.wf(),
        ensures
            views(r@).no_duplicates(),
            forall|k: Seq<char>|
                views(r@).contains(k) <==> (self@.dom().contains(k) && serves(
                    self@[k],
                    capability@,
                )),
    {
        let ghost s = self.records();
        let target = owned(capability);
        let mut r: Vec<String> = Vec::new();
        let mut i: usize = 0;
        while i < self.workers.len()
            invariant
                i <= self.workers.len(),
                s == self.records(),
                s.len() == self.workers.len(),
                keys_unique(s),
                target@ == capability@,
                views(r@).no_duplicates(),
                forall|k: Seq<char>|
                    views(r@).contains(k) <==> exists|j: int|
                        0 <= j < i && s[j].agent_id == k && serves(s[j], capability@),
            decreases self.workers.len() - i,
        {
            let w = &self.workers[i];
            assert(s[i as int] == w@);
            if w.state == WorkerState::Ready && contains_string(&w.capabilities, &target) {
                let ghost prev = views(r@);
                proof {
                    assert forall|j: int| 0 <= j < prev.len() implies prev[j] != w.agent_id@ by {
                        assert(prev.contains(prev[j]));
                        let jj = choose|jj: int|
                            0 <= jj < i && s[jj].agent_id == prev[j] && serves(s[jj], capability@);
                        assert(jj != i);
                    }
                }
                r.push(w.agent_id.clone());
                proof {
                    assert(views(r@) =~= prev.push(w.agent_id@));
                    assert forall|k: Seq<char>|
                        views(r@).contains(k) <==> exists|j: int|
                            0 <= j < i + 1 && s[j].agent_id == k && serves(s[j], capability@) by {
                        if views(r@).contains(k) && k != w.agent_id@ {
                            assert(prev.contains(k));
                        }
                        if k == w.agent_id@ {
                            assert(views(r@)[prev.len() as int] == k);
                        }
                        if exists|j: int|
                            0 <= j < i + 1 && s[j].agent_id == k && serves(s[j], capability@) {
                            let j = choose|j: int|
                                0 <= j < i + 1 && s[j].agent_id == k && serves(s[j], capability@);
                            if j < i {
                                assert(prev.contains(k));
                                let t = choose|t: int| 0 <= t < prev.len() && prev[t] == k;
                                assert(views(r@)[t] == k);
                            } else {
                                assert(views(r@)[prev.len() as int] == k);
                            }
                        }
                    }
                }
            } else {
                proof {
                    assert forall|k: Seq<char>|
                        views(r@).contains(k) <==> exists|j: int|
                            0 <= j < i + 1 && s[j].agent_id == k && serves(s[j], capability@) by {
                        if exists|j: int|
                            0 <= j < i + 1 && s[j].agent_id == k && serves(s[j], capability@) {
                            let j = choose|j: int|
                                0 <= j < i + 1 && s[j].agent_id == k && serves(s[j], capability@);
                            assert(j != i);
                        }
                    }
                }
            }
            i = i + 1;
        }
        proof {
            assert forall|k: Seq<char>|
                views(r@).contains(k) <==> (self@.dom().contains(k) && serves(self@[k], capability@)) by {
                lemma_worker_map_lookup(s, k);
                if self@.dom().contains(k) {
                    let j = choose|j: int| 0 <= j < s.len() && s[j].agent_id == k;
                    assert(self@[k] == s[j]);
                }
            }
        }
        r
    }

    /// The agent's record, if it is registered.
    pub fn lookup(&self, agent_id: &str) -> (r: Option<&WorkerRecord>)
        requires
            self.wf(),
        ensures
            match r {
                Some(w) => self@.dom().contains(agent_id@) && w@ == self@[agent_id@],
                None => !self@.dom().contains(agent_id@),
            },
    {
        match self.position(agent_id) {
            Some(i) => {
                assert(self.records()[i as int] == self.workers@[i as int]@);
                Some(&self.workers[i])
            },
            None => None,
        }
    }

    /// The agent's record, if it is registered.
    pub fn get_worker(&self, agent_id: &str) -> (r: Option<&WorkerRecord>)
        requires
            self.wf(),
        ensures
            match r {
                Some(w) => self@.dom().contains(agent_id@) && w@ == self@[agent_id@],
                None => !self@.dom().contains(agent_id@),
            },
    {
        self.lookup(agent_id)
    }

    /// Sets a registered agent's state from a state text; an unknown agent
    /// is left unregistered.
    pub fn set_state(&mut self, id: String, state: String)
        requires
            old(self).wf(),
        ensures
            final(self).wf(),
            old(self)@.dom().contains(id@) ==> final(self)@ == old(self)@.insert(
                id@,
                WorkerV { state: worker_state_of(state@), ..old(self)@[id@] },
            ),
            !old(self)@.dom().contains(id@) ==> final(self)@ == old(self)@,
    {
        match self.position(id.as_str()) {
            Some(i) => {
                let w = &self.workers[i];
                let rec = WorkerRecord {
                    id: w.id.clone(),
                    agent_id: w.agent_id.clone(),
                    capabilities: clone_strings(&w.capabilities),
                    state: WorkerState::from_runtime_state(state.as_str()),
                    last_error: w.last_error.deep_clone(),
                    metadata: w.metadata.deep_clone(),
                };
                assert(self.records()[i as int] == self.workers@[i as int]@);
                self.upsert(rec);
            },
            None => {},
        }
    }

    /// Every capability that a registered worker offers, each once, in
    /// increasing order.
    pub fn list_capabilities(&self) -> (r: Vec<String>)
        requires
            self.wf(),
        ensures
            strictly_sorted(views(r@)),
            forall|c: Seq<char>|
                views(r@).contains(c) <==> exists|k: Seq<char>|
                    #![trigger self@[k]]
                    self@.dom().contains(k) && self@[k].capabilities.contains(c),
    {
        let ghost s = self.records();
        let mut all: Vec<String> = Vec::new();
        let mut i: usize = 0;
        while i < self.workers.len()
            invariant
                i <= self.workers.len(),
                s == self.records(),
                s.len() == self.workers.len(),
                forall|c: Seq<char>|
                    views(all@).contains(c) <==> exists|j: int|
                        0 <= j < i && (#[trigger] s[j]).capabilities.contains(c),
            decreases self.workers.len() - i,
        {
            let w = &self.workers[i];
            assert(s[i as int] == w@);
            let ghost prev = views(all@);
            assert(forall|c: Seq<char>|
                prev.contains(c) <==> exists|j: int|
                    0 <= j < i && (#[trigger] s[j]).capabilities.contains(c));
            let mut t: usize = 0;
            while t < w.capabilities.len()
                invariant
                    t <= w.capabilities.len(),
                    views(all@) == prev + views(w.capabilities@.subrange(0, t as int)),
                decreases w.capabilities.len() - t,
            {
                let ghost before = all@;
                all.push(w.capabilities[t].clone());
                assert(views(all@) =~= views(before).push(w.capabilities@[t as int]@));
                assert(views(w.capabilities@.subrange(0, t + 1)) =~= views(
                    w.capabilities@.subrange(0, t as int),
                ).push(w.capabilities@[t as int]@));
                assert(views(all@) =~= prev + views(w.capabilities@.subrange(0, t + 1)));
                t = t + 1;
            }
            proof {
                assert(w.capabilities@.subrange(0, w.capabilities.len() as int) =~= w.capabilities@);
                assert forall|c: Seq<char>|
                    views(all@).contains(c) <==> exists|j: int|
                        0 <= j < i + 1 && (#[trigger] s[j]).capabilities.contains(c) by {
                    let cur = views(w.capabilities@);
                    assert(views(all@) == prev + cur);
                    if views(all@).contains(c) {
                        let p = choose|p: int| 0 <= p < views(all@).len() && views(all@)[p] == c;
                        if p < prev.len() {
                            assert(prev[p] == c);
                            assert(prev.contains(c));
                        } else {
                            assert(cur[p - prev.len()] == c);
                            assert(cur.contains(c));
                            assert(s[i as int].capabilities == cur);
                            assert(s[i as int].capabilities.contains(c));
                        }
                    }
                    if exists|j: int| 0 <= j < i + 1 && (#[trigger] s[j]).capabilities.contains(c) {
                        let j = choose|j: int|
                            0 <= j < i + 1 && (#[trigger] s[j]).capabilities.contains(c);
                        if j < i {
                            assert(prev.contains(c));
                            let p = choose|p: int| 0 <= p < prev.len() && prev[p] == c;
                            assert(views(all@)[p] == c);
                        } else {
                            let p = choose|p: int| 0 <= p < cur.len() && cur[p] == c;
                            assert(views(all@)[prev.len() + p] == c);
                        }
                    }
                }
            }
            i = i + 1;
        }
        let r = sorted_unique(&all);
        proof {
            assert forall|c: Seq<char>|
                views(r@).contains(c) <==> exists|k: Seq<char>|
                    #![trigger self@[k]]
                    self@.dom().contains(k) && self@[k].capabilities.contains(c) by {
                if views(r@).contains(c) {
                    let j = choose|j: int| 0 <= j < s.len() && (#[trigger] s[j]).capabilities.contains(c);
                    lemma_worker_map_lookup(s, s[j].agent_id);
                    assert(self@[s[j].agent_id] == s[j]);
                }
                if exists|k: Seq<char>|
                    #![trigger self@[k]]
                    self@.dom().contains(k) && self@[k].capabilities.contains(c) {
                    let k = choose|k: Seq<char>|
                        #![trigger self@[k]]
                        self@.dom().contains(k) && self@[k].capabilities.contains(c);
                    lemma_worker_map_lookup(s, k);
                    let j = choose|j: int| 0 <= j < s.len() && s[j].agent_id == k;
                    assert(self@[k] == s[j]);
                    assert(s[j].capabilities.contains(c));
                }
            }
        }
        r
    }
}

impl Default for WorkerRegistry {
    fn default() -> (r: WorkerRegistry)
        ensures
            r.wf(),
            r@ == Map::<Seq<char>, WorkerV>::empty(),
    {
        WorkerRegistry::new()
    }
}

/// A worker that exited or reported an error is not found by any
/// capability, whatever it offered before.
pub proof fn law_stopped_workers_not_found(
    prev: Option<WorkerV>,
    agent_id: Seq<char>,
    reason: Option<Seq<char>>,
    task_id: Option<Seq<char>>,
    error: JsonV,
    capability: Seq<char>,
)
    ensures
        !serves(exited_worker(prev, agent_id, reason), capability),
        !serves(errored_worker(prev, agent_id, task_id, error), capability),
{
}

/// A worker registered as ready is found by each capability it offers and
/// by no other.
pub proof fn law_ready_worker_found(agent_id: Seq<char>, capabilities: Seq<Seq<char>>, capability: Seq<char>)
    ensures
        serves(ready_worker(agent_id, capabilities), capability) <==> capabilities.contains(capability),
{
}

} // verus!
