use vstd::prelude::*;

verus! {

/// One record of the trace: what a handler did, at which step and when.
/// `timestamp` is in milliseconds since the Unix epoch.
#[derive(Debug, Clone)]
pub struct TraceEntry {
    pub step: usize,
    pub state: String,
    pub event: String,
    pub data: String,
    pub timestamp: i64,
}

/// The append-only log of a session.
#[derive(Debug, Clone)]
pub struct Trace {
    entries: Vec<TraceEntry>,
}

impl View for Trace {
    type V = Seq<TraceEntry>;

    closed spec fn view(&self) -> Seq<TraceEntry> {
        self.entries@
    }
}

/// The entries recorded for state `state`, in order.
pub open spec fn entries_for_state(s: Seq<TraceEntry>, state: Seq<char>) -> Seq<TraceEntry> {
    s.filter(|e: TraceEntry| e.state@ == state)
}

impl Trace {
    pub fn new() -> (r: Self)
        ensures
            r@ == Seq::<TraceEntry>::empty(),
    {
        Trace { entries: Vec::new() }
    }

    pub fn record(&mut self, entry: TraceEntry)
        ensures
            final(self)@ == old(self)@.push(entry),
    {
        self.entries.push(entry);
    }

    pub fn entries(&self) -> (r: &[TraceEntry])
        ensures
            r@ == self@,
    {
        self.entries.as_slice()
    }

    pub fn len(&self) -> (r: usize)
        ensures
            r == self@.len(),
    {
        self.entries.len()
    }

    pub fn is_empty(&self) -> (r: bool)
        ensures
            r == (self@.len() == 0),
    {
        self.entries.len() == 0
    }

    /// The entries recorded for the state named `state`.
    pub fn for_state(&self, state: &str) -> (r: Vec<&TraceEntry>)
        ensures
            r@.map_values(|e: &TraceEntry| *e) == entries_for_state(self@, state@),
    {
        let mut r: Vec<&TraceEntry> = Vec::new();
        let name = String::from_str(state);
        let mut i: usize = 0;
        while i < self.entries.len()
            invariant
                i <= self.entries@.len(),
                name@ == state@,
                r@.map_values(|e: &TraceEntry| *e) == entries_for_state(self.entries@.take(i as int), state@),
            decreases self.entries@.len() - i,
        {
            let e = &self.entries[i];
            proof {
                let t = self.entries@.take(i + 1);
                assert(t.drop_last() =~= self.entries@.take(i as int));
                assert(t.last() == self.entries@[i as int]);
                reveal(Seq::filter);
            }
            let ghost before = r@;
            if e.state.eq(&name) {
                r.push(e);
                proof {
                    assert(r@.map_values(|e: &TraceEntry| *e) =~= before.map_values(|e: &TraceEntry| *e).push(*e));
                }
            }
            i = i + 1;
        }
        proof {
            assert(self.entries@.take(i as int) =~= self.entries@);
        }
        r
    }
}

impl Default for Trace {
    fn default() -> (r: Self)
        ensures
            r@ == Seq::<TraceEntry>::empty(),
    {
        Trace::new()
    }
}

} // verus!
