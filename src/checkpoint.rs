use vstd::prelude::*;
use crate::memory::AgentMemory;
use crate::text::joined;
use crate::types::State;

verus! {

/// A snapshot of a session, taken after a transition. `timestamp` is in
/// milliseconds since the Unix epoch.
#[derive(Debug, Clone)]
pub struct AgentCheckpoint {
    pub checkpoint_id: String,
    pub session_id: String,
    pub state: State,
    pub memory: AgentMemory,
    pub timestamp: i64,
}

/// Where checkpoints are kept. Implementations guard their own state, so
/// every operation takes `&self`.
pub trait CheckpointStore {
    fn save(&self, checkpoint: AgentCheckpoint) -> Result<(), String>;

    /// The newest checkpoint of the session.
    fn load_latest(&self, session_id: &str) -> Result<Option<AgentCheckpoint>, String>;

    fn load_by_id(&self, checkpoint_id: &str) -> Result<Option<AgentCheckpoint>, String>;

    /// The sessions that have checkpoints.
    fn list_sessions(&self) -> Result<Vec<String>, String>;
}

/// The checkpoints of `session` among `all`, in the order they were saved.
pub open spec fn of_session(all: Seq<AgentCheckpoint>, session: Seq<char>) -> Seq<AgentCheckpoint> {
    all.filter(|c: AgentCheckpoint| c.session_id@ == session)
}

/// Checkpoints after position `i` of another session leave the session's
/// list as the first `i` checkpoints give it.
proof fn lemma_of_session_prefix(all: Seq<AgentCheckpoint>, i: int, session: Seq<char>)
    requires
        0 <= i <= all.len(),
        forall|j: int| i <= j < all.len() ==> (#[trigger] all[j]).session_id@ != session,
    ensures
        of_session(all, session) == of_session(all.take(i), session),
    decreases all.len(),
{
    reveal(Seq::filter);
    if all.len() == i {
        assert(all.take(i) =~= all);
    } else {
        let p = all.drop_last();
        assert forall|j: int| i <= j < p.len() implies (#[trigger] p[j]).session_id@ != session by {
            assert(p[j] == all[j]);
        }
        lemma_of_session_prefix(p, i, session);
        assert(p.take(i) =~= all.take(i));
    }
}

/// Checkpoints held in memory, in the order they were saved.
pub struct MemoryCheckpointStore {
    checkpoints: Vec<AgentCheckpoint>,
}

impl MemoryCheckpointStore {
    /// Every checkpoint saved, oldest first.
    pub closed spec fn saved(&self) -> Seq<AgentCheckpoint> {
        self.checkpoints@
    }

    pub fn new() -> (r: Self)
        ensures
            r.saved().len() == 0,
    {
        MemoryCheckpointStore { checkpoints: Vec::new() }
    }

    pub fn save(&mut self, checkpoint: AgentCheckpoint)
        ensures
            final(self).saved() == old(self).saved().push(checkpoint),
    {
        self.checkpoints.push(checkpoint);
    }

    /// The newest checkpoint of the session, if it has any.
    pub fn load_latest(&self, session_id: &str) -> (r: Option<&AgentCheckpoint>)
        ensures
            r.is_none() == (of_session(self.saved(), session_id@).len() == 0),
            r.is_some() ==> *r.unwrap() == of_session(self.saved(), session_id@).last(),
    {
        let key = String::from_str(session_id);
        let mut i: usize = self.checkpoints.len();
        while i > 0
            invariant
                i <= self.checkpoints@.len(),
                key@ == session_id@,
                forall|j: int| i <= j < self.checkpoints@.len() ==> (#[trigger] self.checkpoints@[j]).session_id@
                    != session_id@,
            decreases i,
        {
            if self.checkpoints[i - 1].session_id.eq(&key) {
                proof {
                    let all = self.checkpoints@;
                    lemma_of_session_prefix(all, i as int, session_id@);
                    let t = all.take(i as int);
                    assert(t.drop_last() =~= all.take(i - 1));
                    assert(t.last() == all[i - 1]);
                    reveal(Seq::filter);
                }
                return Some(&self.checkpoints[i - 1]);
            }
            i = i - 1;
        }
        proof {
            lemma_of_session_prefix(self.checkpoints@, 0, session_id@);
            reveal(Seq::filter);
        }
        None
    }

    /// The first checkpoint with this id.
    pub fn load_by_id(&self, checkpoint_id: &str) -> (r: Option<&AgentCheckpoint>)
        ensures
            r.is_some() ==> r.unwrap().checkpoint_id@ == checkpoint_id@ && self.saved().contains(*r.unwrap()),
            r.is_none() ==> forall|j: int| 0 <= j < self.saved().len() ==> (#[trigger] self.saved()[j]).checkpoint_id@
                != checkpoint_id@,
    {
        let key = String::from_str(checkpoint_id);
        let mut i: usize = 0;
        while i < self.checkpoints.len()
            invariant
                i <= self.checkpoints@.len(),
                key@ == checkpoint_id@,
                forall|j: int| 0 <= j < i ==> (#[trigger] self.checkpoints@[j]).checkpoint_id@ != checkpoint_id@,
            decreases self.checkpoints@.len() - i,
        {
            if self.checkpoints[i].checkpoint_id.eq(&key) {
                proof {
                    assert(self.saved()[i as int] == self.checkpoints@[i as int]);
                }
                return Some(&self.checkpoints[i]);
            }
            i = i + 1;
        }
        None
    }

    /// Each session that has checkpoints, once, in the order of its first checkpoint.
    pub fn list_sessions(&self) -> (r: Vec<String>)
        ensures
            forall|a: int, b: int| 0 <= a < b < r@.len() ==> r@[a]@ != r@[b]@,
            forall|j: int| 0 <= j < self.saved().len() ==> names_session(r@, #[trigger] self.saved()[j].session_id@),
            forall|a: int| 0 <= a < r@.len() ==> has_session(self.saved(), #[trigger] r@[a]@),
    {
        let mut r: Vec<String> = Vec::new();
        let mut i: usize = 0;
        while i < self.checkpoints.len()
            invariant
                i <= self.checkpoints@.len(),
                forall|a: int, b: int| 0 <= a < b < r@.len() ==> r@[a]@ != r@[b]@,
                forall|j: int| 0 <= j < i ==> names_session(r@, #[trigger] self.checkpoints@[j].session_id@),
                forall|a: int| 0 <= a < r@.len() ==> has_session(self.checkpoints@.take(i as int), #[trigger] r@[a]@),
            decreases self.checkpoints@.len() - i,
        {
            let name = &self.checkpoints[i].session_id;
            let mut k: usize = 0;
            let mut seen = false;
            while k < r.len()
                invariant
                    k <= r@.len(),
                    !seen ==> forall|a: int| 0 <= a < k ==> r@[a]@ != name@,
                    seen ==> names_session(r@, name@),
                decreases r@.len() - k,
            {
                if r[k].eq(name) {
                    seen = true;
                }
                k = k + 1;
            }
            let ghost before = r@;
            let ghost prefix = self.checkpoints@.take(i as int);
            let ghost next = self.checkpoints@.take(i + 1);
            proof {
                assert forall|a: int| 0 <= a < before.len() implies has_session(next, #[trigger] before[a]@) by {
                    assert(has_session(prefix, before[a]@));
                    let j = choose|j: int| 0 <= j < prefix.len() && prefix[j].session_id@ == before[a]@;
                    assert(next[j] == prefix[j]);
                }
                assert(next[i as int] == self.checkpoints@[i as int]);
                assert(has_session(next, name@));
            }
            if !seen {
                r.push(name.clone());
                proof {
                    assert(r@[before.len() as int]@ == name@);
                    assert forall|j: int| 0 <= j < i + 1 implies names_session(r@, #[trigger] self.checkpoints@[j].session_id@) by {
                        if j < i {
                            let a = choose|a: int| 0 <= a < before.len() && before[a]@ == self.checkpoints@[j].session_id@;
                            assert(r@[a] == before[a]);
                        }
                    }
                    assert forall|a: int| 0 <= a < r@.len() implies has_session(next, #[trigger] r@[a]@) by {
                        if a < before.len() {
                            assert(r@[a] == before[a]);
                        }
                    }
                }
            }
            i = i + 1;
        }
        proof {
            assert(self.checkpoints@.take(i as int) =~= self.saved());
        }
        r
    }
}

/// Some entry of `names` is `name`.
pub open spec fn names_session(names: Seq<String>, name: Seq<char>) -> bool {
    exists|a: int| 0 <= a < names.len() && names[a]@ == name
}

/// Some checkpoint of `all` belongs to session `name`.
pub open spec fn has_session(all: Seq<AgentCheckpoint>, name: Seq<char>) -> bool {
    exists|j: int| 0 <= j < all.len() && all[j].session_id@ == name
}

/// Checkpoints kept as one JSON file per session under a directory.
#[derive(Debug, Clone)]
pub struct FileCheckpointStore {
    pub base_path: String,
}

impl FileCheckpointStore {
    pub fn new(path: &str) -> (r: Self)
        ensures
            r.base_path@ == path@,
    {
        FileCheckpointStore { base_path: String::from_str(path) }
    }

    /// The file of a session: `<base>/<session>.json`.
    pub fn session_path(&self, session_id: &str) -> (r: String)
        ensures
            r@ == self.base_path@ + "/"@ + session_id@ + ".json"@,
    {
        let mut p = joined(self.base_path.as_str(), "/");
        p.append(session_id);
        p.append(".json");
        p
    }
}

/// Checkpoints kept in one table of a SQLite database file.
#[derive(Debug, Clone)]
pub struct SqliteCheckpointStore {
    pub path: String,
}

impl SqliteCheckpointStore {
    pub fn new(path: &str) -> (r: Self)
        ensures
            r.path@ == path@,
    {
        SqliteCheckpointStore { path: String::from_str(path) }
    }
}

} // verus!
