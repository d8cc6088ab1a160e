//! State kept by request/reply services, servers and clients: the registries of live handles,
//! connection and instance counters, and the decisions of a server's supervisor.

use vstd::prelude::*;

verus! {

/// Names a request/reply service type (an RPC function id); the key of metrics and of the
/// client registry.
#[derive(Debug, Clone, Copy, PartialEq, Eq, Hash, PartialOrd, Ord, Structural)]
pub struct ReqRepId(pub u128);

/// Names one request within a request/reply exchange.
#[derive(Debug, Clone, Copy, PartialEq, Eq, Hash, PartialOrd, Ord, Structural)]
pub struct MessageId(pub u128);

/// The processing behind a request/reply service; users implement it.
pub trait Processor<Req, Rep> {
    /// Processes one request into its reply.
    fn process(&mut self, req: Req) -> Rep;

    /// Called once, when the service's task exits.
    fn destroy(&mut self);
}

/// A registry of live handles keyed by a 128-bit id, each key held once. The entries are kept
/// in a vector so that listing the keys has an exact contract; registries are small, and
/// lookups are linear.
pub struct Registry<V> {
    entries: Vec<(u128, V)>,
    map: Ghost<Map<u128, V>>,
}

impl<V> Registry<V> {
    /// The registered handles by key.
    pub closed spec fn view(&self) -> Map<u128, V> {
        self.map@
    }

    /// The invariant: keys are unique and the entries are the map.
    pub closed spec fn wf(&self) -> bool {
        &&& forall|i: int, j: int|
            0 <= i < j < self.entries@.len() ==> (#[trigger] self.entries@[i]).0 != (
            #[trigger] self.entries@[j]).0
        &&& forall|i: int|
            0 <= i < self.entries@.len() ==> self.map@.contains_key(
                (#[trigger] self.entries@[i]).0,
            ) && self.map@[self.entries@[i].0] == self.entries@[i].1
        &&& forall|k: u128| #[trigger]
            self.map@.contains_key(k) ==> exists|i: int|
                0 <= i < self.entries@.len() && (#[trigger] self.entries@[i]).0 == k
    }

    /// An empty registry.
    pub fn new() -> (r: Registry<V>)
        ensures
            r.wf(),
            r.view() == Map::<u128, V>::empty(),
    {
        Registry { entries: Vec::new(), map: Ghost(Map::empty()) }
    }

    fn find(&self, key: u128) -> (r: Option<usize>)
        requires
            self.wf(),
        ensures
            r matches Some(i) ==> i < self.entries@.len() && self.entries@[i as int].0 == key,
            r is None ==> !self.view().contains_key(key),
    {
        let mut i: usize = 0;
        while i < self.entries.len()
            invariant
                i <= self.entries@.len(),
                forall|j: int| 0 <= j < i ==> (#[trigger] self.entries@[j]).0 != key,
            decreases self.entries@.len() - i,
        {
            if self.entries[i].0 == key {
                return Some(i);
            }
            i = i + 1;
        }
        None
    }

    /// The handle registered under `key`, if any.
    pub fn get(&self, key: u128) -> (r: Option<&V>)
        requires
            self.wf(),
        ensures
            match r {
                Some(v) => self.view().contains_key(key) && *v == self.view()[key],
                None => !self.view().contains_key(key),
            },
    {
        match self.find(key) {
            Some(i) => Some(&self.entries[i].1),
            None => None,
        }
    }

    /// Whether a handle is registered under `key`.
    pub fn contains(&self, key: u128) -> (r: bool)
        requires
            self.wf(),
        ensures
            r == self.view().contains_key(key),
    {
        self.find(key).is_some()
    }

    /// Registers `value` under `key`, replacing what was registered there.
    pub fn insert(&mut self, key: u128, value: V)
        requires
            old(self).wf(),
        ensures
            final(self).wf(),
            final(self).view() == old(self).view().insert(key, value),
    {
        let ghost m = self.map@.insert(key, value);
        match self.find(key) {
            Some(i) => {
                self.entries.set(i, (key, value));
                self.map = Ghost(m);
                assert forall|k: u128| #[trigger] self.map@.contains_key(k) implies exists|j: int|
                    0 <= j < self.entries@.len() && (#[trigger] self.entries@[j]).0 == k by {
                    if k != key {
                        let j = choose|j: int|
                            0 <= j < old(self).entries@.len() && (#[trigger] old(
                                self,
                            ).entries@[j]).0 == k;
                        assert(self.entries@[j].0 == k);
                    } else {
                        assert(self.entries@[i as int].0 == k);
                    }
                }
            },
            None => {
                self.entries.push((key, value));
                self.map = Ghost(m);
                assert forall|k: u128| #[trigger] self.map@.contains_key(k) implies exists|j: int|
                    0 <= j < self.entries@.len() && (#[trigger] self.entries@[j]).0 == k by {
                    if k != key {
                        let j = choose|j: int|
                            0 <= j < old(self).entries@.len() && (#[trigger] old(
                                self,
                            ).entries@[j]).0 == k;
                        assert(self.entries@[j].0 == k);
                    } else {
                        assert(self.entries@[self.entries@.len() - 1].0 == k);
                    }
                }
            },
        }
    }

    /// Unregisters `key`, returning what was registered there.
    pub fn remove(&mut self, key: u128) -> (r: Option<V>)
        requires
            old(self).wf(),
        ensures
            final(self).wf(),
            final(self).view() == old(self).view().remove(key),
            match r {
                Some(v) => old(self).view().contains_key(key) && v == old(self).view()[key],
                None => !old(self).view().contains_key(key),
            },
    {
        match self.find(key) {
            Some(i) => {
                let ghost old_entries = self.entries@;
                let e = self.entries.remove(i);
                self.map = Ghost(self.map@.remove(key));
                assert forall|j: int| 0 <= j < self.entries@.len() implies (#[trigger] self.entries@[j]).0 != key by {
                    if j < i {
                        assert(self.entries@[j] == old_entries[j]);
                    } else {
                        assert(self.entries@[j] == old_entries[j + 1]);
                    }
                }
                assert forall|k: u128| #[trigger] self.map@.contains_key(k) implies exists|j: int|
                    0 <= j < self.entries@.len() && (#[trigger] self.entries@[j]).0 == k by {
                    let j = choose|j: int|
                        0 <= j < old_entries.len() && (#[trigger] old_entries[j]).0 == k;
                    if j < i {
                        assert(self.entries@[j].0 == k);
                    } else {
                        assert(self.entries@[j - 1].0 == k);
                    }
                }
                assert forall|a: int, b: int|
                    0 <= a < b < self.entries@.len() implies (#[trigger] self.entries@[a]).0 != (
                    #[trigger] self.entries@[b]).0 by {
                    let a0 = if a < i { a } else { a + 1 };
                    let b0 = if b < i { b } else { b + 1 };
                    assert(self.entries@[a] == old_entries[a0]);
                    assert(self.entries@[b] == old_entries[b0]);
                }
                assert forall|j: int| 0 <= j < self.entries@.len() implies self.map@.contains_key(
                    (#[trigger] self.entries@[j]).0,
                ) && self.map@[self.entries@[j].0] == self.entries@[j].1 by {
                    let j0 = if j < i { j } else { j + 1 };
                    assert(self.entries@[j] == old_entries[j0]);
                }
                Some(e.1)
            },
            None => {
                assert(self.map@.remove(key) =~= self.map@);
                None
            },
        }
    }

    /// The registered keys, each once.
    pub fn keys(&self) -> (r: Vec<u128>)
        requires
            self.wf(),
        ensures
            forall|k: u128| r@.contains(k) <==> self.view().contains_key(k),
            r@.no_duplicates(),
    {
        let mut r: Vec<u128> = Vec::new();
        let mut i: usize = 0;
        while i < self.entries.len()
            invariant
                self.wf(),
                i <= self.entries@.len(),
                r@.len() == i,
                forall|j: int| 0 <= j < i ==> r@[j] == (#[trigger] self.entries@[j]).0,
            decreases self.entries@.len() - i,
        {
            r.push(self.entries[i].0);
            i = i + 1;
        }
        assert forall|k: u128| r@.contains(k) <==> self.view().contains_key(k) by {
            if self.view().contains_key(k) {
                let j = choose|j: int| 0 <= j < self.entries@.len() && (#[trigger] self.entries@[j]).0 == k;
                assert(r@[j] == k);
            }
            if r@.contains(k) {
                let j = choose|j: int| 0 <= j < r@.len() && r@[j] == k;
                assert(self.entries@[j].0 == k);
            }
        }
        assert forall|a: int, b: int| 0 <= a < r@.len() && 0 <= b < r@.len() && a != b implies r@[a] != r@[b] by {
            assert(r@[a] == self.entries@[a].0);
            assert(r@[b] == self.entries@[b].0);
            if a < b {
                assert(self.entries@[a].0 != self.entries@[b].0);
            } else {
                assert(self.entries@[b].0 != self.entries@[a].0);
            }
        }
        r
    }

    /// How many handles are registered.
    pub fn len(&self) -> (r: usize)
        requires
            self.wf(),
        ensures
            r == self.view().dom().len(),
    {
        proof {
            self.lemma_dom_len();
        }
        self.entries.len()
    }

    proof fn lemma_dom_len(&self)
        requires
            self.wf(),
        ensures
            self.view().dom().len() == self.entries@.len(),
            self.view().dom().finite(),
        decreases self.entries@.len(),
    {
        let keys = self.entries@.map_values(|e: (u128, V)| e.0);
        assert(keys.no_duplicates()) by {
            assert forall|a: int, b: int| 0 <= a < keys.len() && 0 <= b < keys.len() && a != b implies keys[a] != keys[b] by {
                if a < b {
                    assert(self.entries@[a].0 != self.entries@[b].0);
                } else {
                    assert(self.entries@[b].0 != self.entries@[a].0);
                }
            }
        }
        assert(keys.to_set() =~= self.view().dom()) by {
            assert forall|k: u128| keys.to_set().contains(k) <==> self.view().dom().contains(k) by {
                if self.view().dom().contains(k) {
                    let j = choose|j: int| 0 <= j < self.entries@.len() && (#[trigger] self.entries@[j]).0 == k;
                    assert(keys[j] == k);
                }
                if keys.to_set().contains(k) {
                    let j = choose|j: int| 0 <= j < keys.len() && keys[j] == k;
                    assert(self.entries@[j].0 == k);
                }
            }
        }
        keys.unique_seq_to_set();
    }
}

/// An event on a server socket's connections.
#[derive(Debug, Clone, Copy, PartialEq, Eq, Structural)]
pub enum PipeEvent {
    /// A connection is about to be added.
    AddPre,
    /// A connection was added.
    AddPost,
    /// A connection was removed.
    RemovePost,
}

/// How many events of `kind` `events` holds.
pub open spec fn count_events(events: Seq<PipeEvent>, kind: PipeEvent) -> nat
    decreases events.len(),
{
    if events.len() == 0 {
        0
    } else {
        count_events(events.drop_last(), kind) + if events.last() == kind {
            1nat
        } else {
            0nat
        }
    }
}

/// Connection counters of a server, updated from its socket's connection events.
pub struct ServerMetrics {
    reqrep_id: ReqRepId,
    add_post: u64,
    remove_post: u64,
    add_pre: u64,
    events: Ghost<Seq<PipeEvent>>,
}

impl ServerMetrics {
    /// The connection events seen so far.
    pub closed spec fn events(&self) -> Seq<PipeEvent> {
        self.events@
    }

    pub closed spec fn spec_reqrep_id(&self) -> ReqRepId {
        self.reqrep_id
    }

    /// The invariant: each counter counts its kind of event.
    pub closed spec fn wf(&self) -> bool {
        &&& self.add_post == count_events(self.events@, PipeEvent::AddPost)
        &&& self.remove_post == count_events(self.events@, PipeEvent::RemovePost)
        &&& self.add_pre == count_events(self.events@, PipeEvent::AddPre)
    }

    /// Counters of the server of service `reqrep_id`, before any event.
    pub fn new(reqrep_id: ReqRepId) -> (r: ServerMetrics)
        ensures
            r.wf(),
            r.events() == Seq::<PipeEvent>::empty(),
            r.spec_reqrep_id() == reqrep_id,
    {
        ServerMetrics { reqrep_id, add_post: 0, remove_post: 0, add_pre: 0, events: Ghost(Seq::empty()) }
    }

    /// Records a connection event: an added connection is active and counted; a removed one
    /// is no longer active; one about to be added counts as an attempt.
    pub fn on_pipe_event(&mut self, event: PipeEvent)
        requires
            old(self).wf(),
            count_events(old(self).events(), event) < u64::MAX,
        ensures
            final(self).wf(),
            final(self).events() == old(self).events().push(event),
            final(self).spec_reqrep_id() == old(self).spec_reqrep_id(),
    {
        let ghost evs = self.events@.push(event);
        assert(evs.drop_last() =~= self.events@);
        match event {
            PipeEvent::AddPost => {
                self.add_post = self.add_post + 1;
            },
            PipeEvent::RemovePost => {
                self.remove_post = self.remove_post + 1;
            },
            PipeEvent::AddPre => {
                self.add_pre = self.add_pre + 1;
            },
        }
        self.events = Ghost(evs);
    }

    /// Whether one more event of this kind can be counted.
    pub fn can_record(&self, event: PipeEvent) -> (r: bool)
        requires
            self.wf(),
        ensures
            r == (count_events(self.events(), event) < u64::MAX),
    {
        match event {
            PipeEvent::AddPost => self.add_post < u64::MAX,
            PipeEvent::RemovePost => self.remove_post < u64::MAX,
            PipeEvent::AddPre => self.add_pre < u64::MAX,
        }
    }

    /// The service that the server runs.
    pub fn reqrep_id(&self) -> (r: ReqRepId)
        ensures
            r == self.spec_reqrep_id(),
    {
        self.reqrep_id
    }

    /// Active connections: those added less those removed.
    pub fn active_conn_count(&self) -> (r: i128)
        requires
            self.wf(),
        ensures
            r == count_events(self.events(), PipeEvent::AddPost) - count_events(
                self.events(),
                PipeEvent::RemovePost,
            ),
    {
        self.add_post as i128 - self.remove_post as i128
    }

    /// Connections added since the server started.
    pub fn tot_conn_count(&self) -> (r: u64)
        requires
            self.wf(),
        ensures
            r == count_events(self.events(), PipeEvent::AddPost),
    {
        self.add_post
    }

    /// Connection attempts since the server started.
    pub fn tot_conn_initiate_count(&self) -> (r: u64)
        requires
            self.wf(),
        ensures
            r == count_events(self.events(), PipeEvent::AddPre),
    {
        self.add_pre
    }
}

/// The number of live processor tasks of one service type.
pub struct InstanceGauge {
    tasks: Vec<u128>,
}

impl InstanceGauge {
    /// The tasks that are running.
    pub closed spec fn live(&self) -> Set<u128> {
        self.tasks@.to_set()
    }

    /// The invariant: each live task is held once.
    pub closed spec fn wf(&self) -> bool {
        self.tasks@.no_duplicates()
    }

    proof fn lemma_live_len(&self)
        requires
            self.wf(),
        ensures
            self.live().finite(),
            self.live().len() == self.tasks@.len(),
    {
        vstd::seq_lib::seq_to_set_is_finite(self.tasks@);
        self.tasks@.unique_seq_to_set();
    }

    /// A gauge with no task running.
    pub fn new() -> (r: InstanceGauge)
        ensures
            r.wf(),
            r.live() == Set::<u128>::empty(),
            r.live().finite(),
    {
        let r = InstanceGauge { tasks: Vec::new() };
        assert(r.tasks@.to_set() =~= Set::<u128>::empty());
        r
    }

    fn position(&self, task: u128) -> (r: Option<usize>)
        ensures
            r matches Some(i) ==> i < self.tasks@.len() && self.tasks@[i as int] == task,
            r is None ==> !self.tasks@.contains(task),
    {
        let mut i: usize = 0;
        while i < self.tasks.len()
            invariant
                i <= self.tasks@.len(),
                forall|j: int| 0 <= j < i ==> self.tasks@[j] != task,
            decreases self.tasks@.len() - i,
        {
            if self.tasks[i] == task {
                return Some(i);
            }
            i = i + 1;
        }
        None
    }

    /// Counts task `task` as started: the gauge rises by one. A task that is already live, or
    /// a gauge at `u64::MAX`, is left as it is and `false` is returned.
    pub fn task_started(&mut self, task: u128) -> (r: bool)
        requires
            old(self).wf(),
        ensures
            final(self).wf(),
            final(self).live().finite(),
            r == (!old(self).live().contains(task) && old(self).live().len() < u64::MAX),
            r ==> final(self).live() == old(self).live().insert(task) && final(self).live().len()
                == old(self).live().len() + 1,
            !r ==> final(self).live() == old(self).live(),
    {
        proof {
            self.lemma_live_len();
        }
        if self.position(task).is_some() || self.tasks.len() as u128 >= u64::MAX as u128 {
            return false;
        }
        let ghost before = self.tasks@;
        self.tasks.push(task);
        proof {
            before.lemma_push_to_set_commute(task);
            assert(self.tasks@.no_duplicates()) by {
                assert forall|i: int, j: int|
                    0 <= i < self.tasks@.len() && 0 <= j < self.tasks@.len() && i != j implies self.tasks@[i]
                    != self.tasks@[j] by {
                    if i < before.len() && j < before.len() {
                        assert(before[i] == self.tasks@[i] && before[j] == self.tasks@[j]);
                    } else if i == before.len() {
                        assert(self.tasks@[j] == before[j]);
                        assert(before.contains(before[j]));
                    } else {
                        assert(self.tasks@[i] == before[i]);
                        assert(before.contains(before[i]));
                    }
                }
            }
            self.lemma_live_len();
        }
        true
    }

    /// Counts task `task` as exited: the gauge falls by one when the task was live; `false`
    /// is returned, and the gauge left as it is, when it was not.
    pub fn task_exited(&mut self, task: u128) -> (r: bool)
        requires
            old(self).wf(),
        ensures
            final(self).wf(),
            final(self).live().finite(),
            r == old(self).live().contains(task),
            final(self).live() == old(self).live().remove(task),
            r ==> final(self).live().len() + 1 == old(self).live().len(),
    {
        proof {
            self.lemma_live_len();
        }
        match self.position(task) {
            None => {
                assert(self.tasks@.to_set().remove(task) =~= self.tasks@.to_set());
                false
            },
            Some(i) => {
                let ghost before = self.tasks@;
                self.tasks.remove(i);
                proof {
                    assert forall|a: int, b: int|
                        0 <= a < self.tasks@.len() && 0 <= b < self.tasks@.len() && a != b implies self.tasks@[a]
                        != self.tasks@[b] by {
                        let a0 = if a < i { a } else { a + 1 };
                        let b0 = if b < i { b } else { b + 1 };
                        assert(self.tasks@[a] == before[a0]);
                        assert(self.tasks@[b] == before[b0]);
                    }
                    assert forall|t: u128| self.tasks@.to_set().contains(t) <==> before.to_set().remove(
                        task,
                    ).contains(t) by {
                        if self.tasks@.contains(t) {
                            let k = choose|k: int| 0 <= k < self.tasks@.len() && self.tasks@[k] == t;
                            let k0 = if k < i { k } else { k + 1 };
                            assert(before[k0] == t);
                            assert(k0 != i);
                        }
                        if before.contains(t) && t != task {
                            let k = choose|k: int| 0 <= k < before.len() && before[k] == t;
                            assert(k != i);
                            if k < i {
                                assert(self.tasks@[k] == t);
                            } else {
                                assert(self.tasks@[k - 1] == t);
                            }
                        }
                    }
                    assert(self.tasks@.to_set() =~= before.to_set().remove(task));
                    self.lemma_live_len();
                }
                true
            },
        }
    }

    /// The gauge: how many tasks are running.
    pub fn get(&self) -> (r: u64)
        requires
            self.wf(),
        ensures
            r == self.live().len(),
    {
        proof {
            self.lemma_live_len();
        }
        self.tasks.len() as u64
    }
}

/// A command to a server's supervisor.
#[derive(Debug, Clone, Copy, PartialEq, Eq, Structural)]
pub enum ServerCommand {
    /// Reply to show that the server is alive.
    Ping,
    /// Shut down.
    Stop,
}

/// What a server's supervisor does with a command.
#[derive(Debug, Clone, Copy, PartialEq, Eq, Structural)]
pub enum SupervisorAction {
    /// Answer the ping and wait for the next command.
    Pong,
    /// Close the listener, then the socket, unregister the server and exit.
    Shutdown,
}

/// The supervisor's decision for a command; a closed command channel shuts it down too.
pub fn supervise(command: Option<ServerCommand>) -> (r: SupervisorAction)
    ensures
        r == (match command {
            Some(ServerCommand::Ping) => SupervisorAction::Pong,
            _ => SupervisorAction::Shutdown,
        }),
{
    match command {
        Some(ServerCommand::Ping) => SupervisorAction::Pong,
        _ => SupervisorAction::Shutdown,
    }
}

/// The stop signal of a server handle: it fires once.
#[derive(Debug, Clone, Copy, PartialEq, Eq, Structural)]
pub struct StopSignal {
    signalled: bool,
}

impl StopSignal {
    pub closed spec fn spec_signalled(&self) -> bool {
        self.signalled
    }

    /// A signal that has not fired.
    pub fn new() -> (r: StopSignal)
        ensures
            !r.spec_signalled(),
    {
        StopSignal { signalled: false }
    }

    /// Fires the signal. True when this call fired it; false when it had fired before, in
    /// which case nothing is sent.
    pub fn stop_async(&mut self) -> (r: bool)
        ensures
            r == !old(self).spec_signalled(),
            final(self).spec_signalled(),
    {
        let fired = !self.signalled;
        self.signalled = true;
        fired
    }

    /// Whether the signal has fired.
    pub fn stop_signalled(&self) -> (r: bool)
        ensures
            r == self.spec_signalled(),
    {
        self.signalled
    }
}

} // verus!
