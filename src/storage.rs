use vstd::prelude::*;
use crate::packet::unique_keys;

verus! {

/// The log after `m` is recorded in `log`: unchanged if it is there already,
/// else `m` appended.
pub open spec fn log_with(log: Seq<u64>, m: u64) -> Seq<u64> {
    if log.contains(m) {
        log
    } else {
        log.push(m)
    }
}

/// The log after recording each of `values` in turn, starting from `log`.
pub open spec fn log_after(log: Seq<u64>, values: Seq<u64>) -> Seq<u64>
    decreases values.len(),
{
    if values.len() == 0 {
        log
    } else {
        log_with(log_after(log, values.drop_last()), values.last())
    }
}

/// How many times `v` stands in `s`.
pub open spec fn occurrences(s: Seq<u64>, v: u64) -> nat
    decreases s.len(),
{
    if s.len() == 0 {
        0
    } else {
        occurrences(s.drop_last(), v) + if s.last() == v { 1nat } else { 0nat }
    }
}

/// What a node has seen: the broadcast values, each once, and the topology
/// it was last given.
#[derive(Debug)]
pub struct Storage {
    pub messages: Vec<u64>,
    pub topology: Vec<(String, Vec<String>)>,
}

impl Storage {
    /// Each value stands in the log at most once, and each node in the
    /// topology once.
    pub open spec fn wf(&self) -> bool {
        &&& self.messages@.no_duplicates()
        &&& unique_keys(self.topology@)
    }

    /// An empty log and an empty topology.
    pub fn new() -> (r: Storage)
        ensures
            r.wf(),
            r.messages@ == Seq::<u64>::empty(),
            r.topology@ == Seq::<(String, Vec<String>)>::empty(),
    {
        Storage { messages: Vec::new(), topology: Vec::new() }
    }

    /// Replaces the topology as a whole; the log is kept.
    pub fn init_topology(&mut self, topology: Vec<(String, Vec<String>)>)
        requires
            old(self).wf(),
            unique_keys(topology@),
        ensures
            final(self).wf(),
            final(self).topology == topology,
            final(self).messages == old(self).messages,
    {
        self.topology = topology;
    }

    /// A copy of the log.
    pub fn get_messages(&self) -> (r: Vec<u64>)
        ensures
            r@ == self.messages@,
    {
        self.messages.clone()
    }

    /// Whether `message` is in the log.
    pub fn contains(&self, message: u64) -> (r: bool)
        ensures
            r == self.messages@.contains(message),
    {
        let mut i: usize = 0;
        while i < self.messages.len()
            invariant
                0 <= i <= self.messages@.len(),
                forall|j: int| 0 <= j < i ==> self.messages@[j] != message,
            decreases self.messages@.len() - i,
        {
            if self.messages[i] == message {
                return true;
            }
            i = i + 1;
        }
        false
    }

    /// Records `message` unless it is in the log already; returns whether it
    /// was new.
    pub fn add_message(&mut self, message: u64) -> (r: bool)
        requires
            old(self).wf(),
        ensures
            final(self).wf(),
            r == !old(self).messages@.contains(message),
            final(self).messages@ == log_with(old(self).messages@, message),
            final(self).messages@.to_set() == old(self).messages@.to_set().insert(message),
            final(self).topology == old(self).topology,
    {
        if self.contains(message) {
            proof {
                assert(self.messages@.to_set().contains(message));
                assert(self.messages@.to_set().insert(message) =~= self.messages@.to_set());
            }
            false
        } else {
            let ghost before = self.messages@;
            self.messages.push(message);
            proof {
                assert(self.messages@ == before.push(message));
                assert(self.messages@.to_set() =~= before.to_set().insert(message)) by {
                    assert forall|x: u64| #[trigger] self.messages@.contains(x) <==> (before.contains(x) || x == message) by {
                        if before.contains(x) {
                            let k = choose|k: int| 0 <= k < before.len() && before[k] == x;
                            assert(self.messages@[k] == x);
                        }
                        if self.messages@.contains(x) && x != message {
                            let k = choose|k: int| 0 <= k < self.messages@.len() && self.messages@[k] == x;
                            assert(k < before.len());
                            assert(before[k] == x);
                        }
                        if x == message {
                            assert(self.messages@[before.len() as int] == x);
                        }
                    }
                }
            }
            true
        }
    }
}

} // verus!
