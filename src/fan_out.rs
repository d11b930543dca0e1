use vstd::prelude::*;
use crate::enrich::joins;
use crate::error::{ErrorKind, PipelineError};
use crate::record::{CatalogItem, EnrichedRecord};

verus! {

/// Where the lookup of one item stands.
#[derive(Clone, Copy, Debug, PartialEq, Eq, Structural)]
pub enum Slot {
    Waiting,
    Running,
    Found(u64),
    Failed,
}

/// The number of running lookups in `s`.
pub open spec fn running_count(s: Seq<Slot>) -> nat
    decreases s.len(),
{
    if s.len() == 0 {
        0
    } else {
        running_count(s.drop_last()) + if s.last() is Running {
            1nat
        } else {
            0nat
        }
    }
}

proof fn lemma_running_count_update(s: Seq<Slot>, i: int, v: Slot)
    requires
        0 <= i < s.len(),
    ensures
        running_count(s.update(i, v)) + (if s[i] is Running {
            1nat
        } else {
            0nat
        }) == running_count(s) + (if v is Running {
            1nat
        } else {
            0nat
        }),
    decreases s.len(),
{
    if i < s.len() - 1 {
        assert(s.update(i, v).drop_last() =~= s.drop_last().update(i, v));
        lemma_running_count_update(s.drop_last(), i, v);
    } else {
        assert(s.update(i, v).drop_last() =~= s.drop_last());
    }
}

proof fn lemma_none_running(s: Seq<Slot>, i: int)
    requires
        running_count(s) == 0,
        0 <= i < s.len(),
    ensures
        !(s[i] is Running),
    decreases s.len(),
{
    if i < s.len() - 1 {
        lemma_none_running(s.drop_last(), i);
    }
}

/// The bookkeeping of one enrichment run: the items' lookups are launched in
/// catalog order, at most `bound` of them at a time, and the first failure
/// stops any further launch.
#[derive(Debug)]
pub struct FanOut {
    pub bound: usize,
    pub next: usize,
    pub in_flight: usize,
    pub slots: Vec<Slot>,
    pub failure: Option<PipelineError>,
}

impl FanOut {
    /// The run's invariant: the lookups before `next` have been launched and
    /// the others not, `in_flight` counts the running ones and stays within
    /// the bound, and a failed lookup has left its error behind.
    pub open spec fn wf(&self) -> bool {
        &&& self.bound > 0
        &&& self.next <= self.slots@.len()
        &&& self.in_flight == running_count(self.slots@)
        &&& self.in_flight <= self.bound
        &&& forall|i: int|
            0 <= i < self.slots@.len() ==> (i < self.next <==> !(#[trigger] self.slots@[i] is Waiting))
        &&& (exists|i: int| 0 <= i < self.slots@.len() && #[trigger] self.slots@[i] is Failed)
            ==> self.failure is Some
    }

    /// Whether the run is over: a lookup failed, or every lookup has come back.
    pub open spec fn done_spec(&self) -> bool {
        self.failure is Some || (self.next == self.slots@.len() && self.in_flight == 0)
    }

    /// A run over `total` items with at most `bound` lookups at a time. A bound
    /// of zero is refused.
    pub fn new(total: usize, bound: usize) -> (r: Result<FanOut, PipelineError>)
        ensures
            r is Err <==> bound == 0,
            r is Err ==> r->Err_0.kind == ErrorKind::ValidationError,
            r is Ok ==> r->Ok_0.wf(),
            r is Ok ==> r->Ok_0.bound == bound && r->Ok_0.next == 0 && r->Ok_0.in_flight == 0,
            r is Ok ==> r->Ok_0.failure is None,
            r is Ok ==> r->Ok_0.slots@ == Seq::new(total as nat, |i: int| Slot::Waiting),
    {
        if bound == 0 {
            return Err(
                PipelineError::new(
                    ErrorKind::ValidationError,
                    None,
                    String::from_str("the concurrency bound is zero"),
                ),
            );
        }
        let mut slots: Vec<Slot> = Vec::new();
        let mut i: usize = 0;
        while i < total
            invariant
                i <= total,
                slots@ == Seq::new(i as nat, |j: int| Slot::Waiting),
            decreases total - i,
        {
            slots.push(Slot::Waiting);
            i = i + 1;
        }
        let r = FanOut { bound, next: 0, in_flight: 0, slots, failure: None };
        proof {
            lemma_all_waiting(r.slots@);
        }
        Ok(r)
    }

    /// The index of the next lookup to launch, if one may start now: none
    /// after a failure, none while `bound` lookups run, none when all have
    /// been launched.
    pub fn launch(&mut self) -> (r: Option<usize>)
        requires
            old(self).wf(),
        ensures
            final(self).wf(),
            r is Some <==> (old(self).failure is None && old(self).in_flight < old(self).bound
                && old(self).next < old(self).slots@.len()),
            r is Some ==> r->Some_0 == old(self).next,
            r is Some ==> final(self).next == old(self).next + 1,
            r is Some ==> final(self).in_flight == old(self).in_flight + 1,
            r is Some ==> final(self).slots@ == old(self).slots@.update(
                r->Some_0 as int,
                Slot::Running,
            ),
            r is None ==> *final(self) == *old(self),
            final(self).bound == old(self).bound,
            final(self).failure == old(self).failure,
    {
        if self.failure.is_some() || self.in_flight >= self.bound || self.next >= self.slots.len() {
            return None;
        }
        let i = self.next;
        proof {
            lemma_running_count_update(self.slots@, i as int, Slot::Running);
        }
        let ghost before = self.slots@;
        self.slots.set(i, Slot::Running);
        proof {
            if exists|j: int| 0 <= j < self.slots@.len() && #[trigger] self.slots@[j] is Failed {
                let j = choose|j: int| 0 <= j < self.slots@.len() && #[trigger] self.slots@[j] is Failed;
                assert(before[j] is Failed);
            }
        }
        self.next = i + 1;
        self.in_flight = self.in_flight + 1;
        Some(i)
    }

    /// Records the outcome of the running lookup `index`. The first failure
    /// is kept as the run's error.
    pub fn complete(&mut self, index: usize, outcome: Result<u64, PipelineError>)
        requires
            old(self).wf(),
            index < old(self).slots@.len(),
            old(self).slots@[index as int] is Running,
        ensures
            final(self).wf(),
            final(self).in_flight + 1 == old(self).in_flight,
            final(self).next == old(self).next,
            final(self).bound == old(self).bound,
            outcome is Ok ==> final(self).slots@ == old(self).slots@.update(
                index as int,
                Slot::Found(outcome->Ok_0),
            ),
            outcome is Ok ==> final(self).failure == old(self).failure,
            outcome is Err ==> final(self).slots@ == old(self).slots@.update(
                index as int,
                Slot::Failed,
            ),
            outcome is Err ==> final(self).failure == if old(self).failure is Some {
                old(self).failure
            } else {
                Some(outcome->Err_0)
            },
    {
        let ghost before = self.slots@;
        let slot = match &outcome {
            Ok(v) => Slot::Found(*v),
            Err(_) => Slot::Failed,
        };
        proof {
            lemma_running_count_update(self.slots@, index as int, slot);
        }
        self.slots.set(index, slot);
        self.in_flight = self.in_flight - 1;
        match outcome {
            Ok(_) => {
                proof {
                    if exists|j: int| 0 <= j < self.slots@.len() && #[trigger] self.slots@[j] is Failed {
                        let j = choose|j: int|
                            0 <= j < self.slots@.len() && #[trigger] self.slots@[j] is Failed;
                        assert(before[j] is Failed);
                    }
                }
            },
            Err(e) => {
                if self.failure.is_none() {
                    self.failure = Some(e);
                }
            },
        }
    }

    /// Whether the run is over.
    pub fn is_done(&self) -> (r: bool)
        ensures
            r == self.done_spec(),
    {
        self.failure.is_some() || (self.next == self.slots.len() && self.in_flight == 0)
    }

    /// The run's result once it is over: the run's error where a lookup
    /// failed, else one record per item, joining it with its statistic.
    pub fn finish(&self, items: &Vec<CatalogItem>) -> (r: Result<Vec<EnrichedRecord>, PipelineError>)
        requires
            self.wf(),
            self.done_spec(),
            items@.len() == self.slots@.len(),
        ensures
            r is Ok <==> self.failure is None,
            r is Err ==> r->Err_0 == self.failure->Some_0,
            r is Ok ==> r->Ok_0@.len() == items@.len(),
            r is Ok ==> forall|i: int|
                0 <= i < items@.len() ==> (#[trigger] self.slots@[i]) is Found && joins(
                    r->Ok_0@[i],
                    items@[i],
                    self.slots@[i]->Found_0,
                    i,
                ),
    {
        match &self.failure {
            Some(e) => {
                return Err(e.duplicate());
            },
            None => {},
        }
        let n = items.len();
        let mut records: Vec<EnrichedRecord> = Vec::new();
        let mut i: usize = 0;
        while i < n
            invariant
                self.wf(),
                self.failure is None,
                self.next == self.slots@.len(),
                self.in_flight == 0,
                n == items@.len(),
                n == self.slots@.len(),
                i <= n,
                records@.len() == i,
                forall|j: int|
                    0 <= j < i ==> (#[trigger] self.slots@[j]) is Found && joins(
                        records@[j],
                        items@[j],
                        self.slots@[j]->Found_0,
                        j,
                    ),
            decreases n - i,
        {
            proof {
                lemma_none_running(self.slots@, i as int);
                if self.slots@[i as int] is Failed {
                    assert(exists|j: int| 0 <= j < self.slots@.len() && #[trigger] self.slots@[j] is Failed);
                }
            }
            let v = match self.slots[i] {
                Slot::Found(v) => v,
                _ => 0,
            };
            records.push(EnrichedRecord::from_item(&items[i], v, i));
            i = i + 1;
        }
        Ok(records)
    }
}

proof fn lemma_all_waiting(s: Seq<Slot>)
    requires
        forall|j: int| 0 <= j < s.len() ==> s[j] is Waiting,
    ensures
        running_count(s) == 0,
    decreases s.len(),
{
    if s.len() > 0 {
        lemma_all_waiting(s.drop_last());
    }
}

} // verus!
