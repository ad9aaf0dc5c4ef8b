use vstd::prelude::*;

use crate::project::{
    abs_of_events, spec_replay, Project, ProjectAbs, ProjectEvent, ProjectEventAbs, ProjectId,
};

verus! {

/// Why a write to the event store failed: a concurrent writer raced and the
/// version token did not match (reload and resubmit), or the storage itself
/// failed.
#[derive(Debug, Clone, Copy, PartialEq, Eq, Structural)]
pub enum EventStoreWriteError {
    OptimisticLockError,
    OtherError,
}

/// Why a read from the event store failed.
#[derive(Debug, Clone, Copy, PartialEq, Eq, Structural)]
pub enum EventStoreReadError {
    OtherError,
}

/// The repository's failure: a store failure carries the snapshot that could
/// not be persisted, a load failure the identity that was asked for.
#[derive(Debug)]
pub enum ProjectRepositoryError {
    StoreError(Project, EventStoreWriteError),
    FindByIdError(ProjectId, EventStoreReadError),
}

/// The snapshot-cadence policy: persist a snapshot beside the event exactly
/// when the event is the creation event or the aggregate's sequence number is
/// a multiple of the interval. This bounds the cost of a cold load: at most
/// `snapshot_interval - 1` events have to be replayed.
pub fn resolve_snapshot(snapshot_interval: usize, created: bool, seq_nr: usize) -> (r: bool)
    requires
        snapshot_interval >= 1,
    ensures
        r == (created || seq_nr % snapshot_interval == 0),
{
    created || seq_nr % snapshot_interval == 0
}

/// The snapshot-write policy, seen through the aggregate's guarantee that the
/// creation event and it alone carries sequence number 1: a snapshot is
/// persisted exactly when `seq_nr == 1` or `seq_nr % snapshot_interval == 0`.
pub proof fn lemma_snapshot_cadence(snapshot_interval: usize, created: bool, seq_nr: usize)
    requires
        snapshot_interval >= 1,
        created <==> seq_nr == 1,
    ensures
        (created || seq_nr % snapshot_interval == 0) <==> (seq_nr == 1 || seq_nr
            % snapshot_interval == 0),
{
}

/// What the durable event store is asked to do for one accepted command:
/// persist the event together with a fresh snapshot, or append the event
/// alone under the given optimistic-concurrency token.
#[derive(Debug, Clone, Copy, PartialEq, Eq, Structural)]
pub enum StorePlan {
    PersistEventAndSnapshot,
    PersistEvent(usize),
}

/// The dispatch a store implementation over a durable event store makes for
/// one accepted command: exactly one of the two persist operations, a
/// snapshot going along by the cadence policy.
pub fn resolve_store_plan(snapshot_interval: usize, event: &ProjectEvent, snapshot: &Project) -> (r:
    StorePlan)
    requires
        snapshot_interval >= 1,
    ensures
        r == StorePlan::PersistEventAndSnapshot <==> (event@ is Created || snapshot@.seq_nr % (
        snapshot_interval as nat) == 0),
        r matches StorePlan::PersistEvent(v) ==> v as nat == snapshot@.version,
{
    if resolve_snapshot(snapshot_interval, event.is_created(), snapshot.seq_nr()) {
        StorePlan::PersistEventAndSnapshot
    } else {
        StorePlan::PersistEvent(snapshot.version())
    }
}

/// The cadence policy bounds the cost of a cold load: at whatever sequence
/// number an aggregate stands, some snapshot was persisted at most
/// `snapshot_interval - 1` events ago. The result names such a snapshot
/// point.
pub proof fn lemma_replay_cost_bound(snapshot_interval: usize, seq_nr: usize) -> (s: int)
    requires
        snapshot_interval >= 1,
        seq_nr >= 1,
    ensures
        1 <= s <= seq_nr,
        s == 1 || s % (snapshot_interval as int) == 0,
        seq_nr - s <= snapshot_interval - 1,
{
    let n = snapshot_interval as int;
    let q = seq_nr as int;
    if q < n {
        1
    } else {
        let s = q - (q % n);
        assert(0 <= q % n < n) by {
            vstd::arithmetic::div_mod::lemma_mod_bound(q, n);
        }
        assert(s % n == 0) by {
            vstd::arithmetic::div_mod::lemma_fundamental_div_mod(q, n);
            assert(s == (q / n) * n);
            vstd::arithmetic::div_mod::lemma_mod_multiples_basic(q / n, n);
        }
        s
    }
}

/// The repository protocol: persist one event (and, by cadence, a snapshot)
/// per accepted command, and load an aggregate as the replay of its stored
/// events onto its latest snapshot. The repository alone compares the
/// concurrency token; the aggregate only carries it.
pub trait ProjectRepository: Sized {
    /// The repository's content: for each project identity, the state that
    /// `find_by_id` would reconstruct.
    spec fn model(&self) -> Map<ProjectId, ProjectAbs>;

    /// Well-formed, as the implementation defines it.
    spec fn inv(&self) -> bool;

    /// Persists the event durably, and, by the implementation's cadence,
    /// possibly the snapshot; on success that project's reconstructed state
    /// becomes the snapshot's.
    fn store(&mut self, event: &ProjectEvent, snapshot: &Project) -> (r: Result<
        (),
        ProjectRepositoryError,
    >)
        requires
            old(self).inv(),
            snapshot.wf(),
            event.wf(),
            event@.spec_aggregate_id() == snapshot@.id,
            event@.spec_seq_nr() == snapshot@.seq_nr,
        ensures
            final(self).inv(),
            r is Ok ==> final(self).model() == old(self).model().insert(snapshot@.id, snapshot@),
            r is Err ==> final(self).model() == old(self).model(),
    ;

    /// Loads the project with the given identity: its latest snapshot with
    /// every later event replayed onto it, or `None` if this repository has
    /// never stored it.
    fn find_by_id(&self, id: &ProjectId) -> (r: Result<Option<Project>, ProjectRepositoryError>)
        requires
            self.inv(),
        ensures
            r matches Ok(Some(p)) ==> self.model().contains_key(*id) && p@ == self.model()[*id]
                && p@.id == *id && p.wf(),
            r matches Ok(None) ==> !self.model().contains_key(*id),
    ;
}

/// One project's storage: its latest snapshot and its appended events.
#[derive(Debug)]
struct MockEntry {
    snapshot: Project,
    events: Vec<ProjectEvent>,
}

/// The map a sequence of storage entries induces from identity to state.
spec fn mock_model_of(s: Seq<MockEntry>) -> Map<ProjectId, ProjectAbs>
    decreases s.len(),
{
    if s.len() == 0 {
        Map::empty()
    } else {
        mock_model_of(s.drop_last()).insert(s.last().snapshot@.id, s.last().snapshot@)
    }
}

/// An identity is in the induced map exactly when some entry carries it.
proof fn lemma_mock_model_domain(s: Seq<MockEntry>, id: ProjectId)
    ensures
        mock_model_of(s).contains_key(id) <==> exists|i: int|
            0 <= i < s.len() && s[i].snapshot@.id == id,
    decreases s.len(),
{
    if s.len() > 0 {
        lemma_mock_model_domain(s.drop_last(), id);
        assert(forall|i: int| 0 <= i < s.len() - 1 ==> s.drop_last()[i] == s[i]);
        if s.last().snapshot@.id == id {
            assert(s[s.len() - 1].snapshot@.id == id);
        } else {
            if exists|i: int| 0 <= i < s.len() && s[i].snapshot@.id == id {
                let i = choose|i: int| 0 <= i < s.len() && s[i].snapshot@.id == id;
                assert(s.drop_last()[i].snapshot@.id == id);
            }
        }
    }
}

/// With one entry per identity, the induced map sends each entry's identity
/// to that entry's snapshot state.
proof fn lemma_mock_model_index(s: Seq<MockEntry>, i: int)
    requires
        0 <= i < s.len(),
        forall|a: int, b: int| 0 <= a < b < s.len() ==> s[a].snapshot@.id != s[b].snapshot@.id,
    ensures
        mock_model_of(s).contains_key(s[i].snapshot@.id),
        mock_model_of(s)[s[i].snapshot@.id] == s[i].snapshot@,
    decreases s.len(),
{
    if i < s.len() - 1 {
        assert(forall|j: int| 0 <= j < s.len() - 1 ==> s.drop_last()[j] == s[j]);
        lemma_mock_model_index(s.drop_last(), i);
        assert(s[i].snapshot@.id != s[s.len() - 1].snapshot@.id);
    }
}

/// With one entry per identity, replacing an entry with one of the same
/// identity updates exactly that identity in the induced map.
proof fn lemma_mock_model_update(s: Seq<MockEntry>, i: int, e: MockEntry)
    requires
        0 <= i < s.len(),
        forall|a: int, b: int| 0 <= a < b < s.len() ==> s[a].snapshot@.id != s[b].snapshot@.id,
        e.snapshot@.id == s[i].snapshot@.id,
    ensures
        mock_model_of(s.update(i, e)) == mock_model_of(s).insert(e.snapshot@.id, e.snapshot@),
    decreases s.len(),
{
    let id = s[i].snapshot@.id;
    if i == s.len() - 1 {
        assert(s.update(i, e).drop_last() =~= s.drop_last());
        assert(s.update(i, e).last() == e);
        lemma_mock_model_domain(s.drop_last(), id);
        assert(mock_model_of(s.drop_last()).insert(id, e.snapshot@) =~= mock_model_of(
            s,
        ).insert(id, e.snapshot@));
    } else {
        assert(forall|j: int| 0 <= j < s.len() - 1 ==> s.drop_last()[j] == s[j]);
        lemma_mock_model_update(s.drop_last(), i, e);
        assert(s.update(i, e).drop_last() =~= s.drop_last().update(i, e));
        assert(s.update(i, e).last() == s.last());
        let l = s.last().snapshot@.id;
        assert(l != id);
        assert(mock_model_of(s.update(i, e)) =~= mock_model_of(s.drop_last().update(i, e)).insert(
            l,
            s.last().snapshot@,
        ));
        assert(mock_model_of(s.drop_last()).insert(id, e.snapshot@).insert(l, s.last().snapshot@)
            =~= mock_model_of(s.drop_last()).insert(l, s.last().snapshot@).insert(id, e.snapshot@));
    }
}

/// An in-memory repository: one entry per project, holding its latest
/// snapshot and its full event log. Writes that do not advance the sequence
/// number are rejected as optimistic-lock conflicts, as the durable store
/// would reject them through its version comparison.
#[derive(Debug)]
pub struct MockProjectRepository {
    entries: Vec<MockEntry>,
}

impl MockProjectRepository {
    /// Well-formed: one entry per identity; each snapshot well-formed; each
    /// stored event well-formed and no newer than its snapshot.
    spec fn entries_wf(self) -> bool {
        &&& forall|a: int, b: int|
            0 <= a < b < self.entries@.len() ==> self.entries@[a].snapshot@.id
                != self.entries@[b].snapshot@.id
        &&& forall|i: int|
            0 <= i < self.entries@.len() ==> (#[trigger] self.entries@[i]).snapshot.wf()
        &&& forall|i: int, j: int|
            0 <= i < self.entries@.len() && 0 <= j < self.entries@[i].events@.len() ==> (
            #[trigger] self.entries@[i].events@[j]).wf() && self.entries@[i].events@[
                j
            ]@.spec_seq_nr() <= self.entries@[i].snapshot@.seq_nr
    }

    pub fn new() -> (r: Self)
        ensures
            r.inv(),
            r.model() == Map::<ProjectId, ProjectAbs>::empty(),
    {
        MockProjectRepository { entries: Vec::new() }
    }

    /// The position of the entry for the given identity, if there is one.
    fn index_of(&self, id: &ProjectId) -> (r: Option<usize>)
        ensures
            r matches Some(i) ==> i < self.entries@.len() && self.entries@[i as int].snapshot@.id
                == *id,
            r is None ==> forall|i: int|
                0 <= i < self.entries@.len() ==> self.entries@[i].snapshot@.id != *id,
    {
        let n = self.entries.len();
        let mut i: usize = 0;
        while i < n
            invariant
                i <= n,
                n == self.entries@.len(),
                forall|j: int| 0 <= j < i ==> self.entries@[j].snapshot@.id != *id,
            decreases n - i,
        {
            if self.entries[i].snapshot.id() == *id {
                return Some(i);
            }
            i = i + 1;
        }
        None
    }
}

impl Default for MockProjectRepository {
    fn default() -> (r: Self)
        ensures
            r.inv(),
            r.model() == Map::<ProjectId, ProjectAbs>::empty(),
    {
        MockProjectRepository::new()
    }
}

impl ProjectRepository for MockProjectRepository {
    closed spec fn model(&self) -> Map<ProjectId, ProjectAbs> {
        mock_model_of(self.entries@)
    }

    closed spec fn inv(&self) -> bool {
        self.entries_wf()
    }

    fn store(&mut self, event: &ProjectEvent, snapshot: &Project) -> (r: Result<
        (),
        ProjectRepositoryError,
    >)
        ensures
            r is Ok <==> (!old(self).model().contains_key(snapshot@.id) || old(
                self,
            ).model()[snapshot@.id].seq_nr < snapshot@.seq_nr),
            r matches Err(e) ==> e matches ProjectRepositoryError::StoreError(p, w) && p@
                == snapshot@ && w == EventStoreWriteError::OptimisticLockError,
    {
        let ghost s0 = self.entries@;
        match self.index_of(&event.aggregate_id()) {
            Some(i) => {
                proof {
                    lemma_mock_model_index(self.entries@, i as int);
                }
                if snapshot.seq_nr() <= self.entries[i].snapshot.seq_nr() {
                    return Err(ProjectRepositoryError::StoreError(
                        snapshot.clone(),
                        EventStoreWriteError::OptimisticLockError,
                    ));
                }
                let entry = &mut self.entries[i];
                entry.snapshot = snapshot.clone();
                entry.events.push(event.clone());
                proof {
                    lemma_mock_model_update(s0, i as int, self.entries@[i as int]);
                    assert(self.entries@ =~= s0.update(i as int, self.entries@[i as int]));
                }
                Ok(())
            },
            None => {
                proof {
                    lemma_mock_model_domain(self.entries@, snapshot@.id);
                }
                let mut events: Vec<ProjectEvent> = Vec::new();
                events.push(event.clone());
                let entry = MockEntry { snapshot: snapshot.clone(), events };
                self.entries.push(entry);
                proof {
                    assert(self.entries@.drop_last() =~= s0);
                }
                Ok(())
            },
        }
    }

    fn find_by_id(&self, id: &ProjectId) -> (r: Result<Option<Project>, ProjectRepositoryError>)
        ensures
            r is Ok,
    {
        match self.index_of(id) {
            Some(i) => {
                proof {
                    lemma_mock_model_index(self.entries@, i as int);
                }
                let entry = &self.entries[i];
                let snapshot = entry.snapshot.clone();
                let snapshot_seq_nr = snapshot.seq_nr();
                let n = entry.events.len();
                let mut tail: Vec<ProjectEvent> = Vec::new();
                let mut j: usize = 0;
                while j < n
                    invariant
                        j <= n,
                        n == entry.events@.len(),
                        snapshot_seq_nr == entry.snapshot@.seq_nr,
                        forall|k: int|
                            0 <= k < entry.events@.len() ==> (#[trigger] entry.events@[
                                k
                            ])@.spec_seq_nr() <= entry.snapshot@.seq_nr,
                        tail@.len() == 0,
                    decreases n - j,
                {
                    if entry.events[j].seq_nr() > snapshot_seq_nr {
                        tail.push(entry.events[j].clone());
                    }
                    j = j + 1;
                }
                let result = Project::replay(&tail, snapshot);
                proof {
                    assert(abs_of_events(tail@) =~= Seq::<ProjectEventAbs>::empty());
                    assert(spec_replay(entry.snapshot@, abs_of_events(tail@)) == entry.snapshot@);
                }
                Ok(Some(result))
            },
            None => {
                proof {
                    lemma_mock_model_domain(self.entries@, *id);
                }
                Ok(None)
            },
        }
    }
}

} // verus!
