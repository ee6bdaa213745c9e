//! The bounded-concurrency refresh pipeline.
//!
//! A batch of feed identifiers is worked off unit by unit: a unit is
//! launched only while fewer than `limit` units are in flight, and each unit
//! reports success or failure exactly once, in completion order. The driver
//! (the I/O thread's scheduler) decides when to launch and which unit
//! completes next; this model pins down everything else: the concurrency
//! ceiling is never exceeded, no unit is launched or completed twice, a unit
//! failure never stops the rest of the batch, and the batch counts as done
//! only when every unit has reported.

use vstd::prelude::*;
use vstd::set_lib::lemma_len_subset;

use crate::command::FeedId;

verus! {

broadcast use vstd::set::group_set_axioms;

/// Relies on num_cpus::get: the number of available logical CPUs, which is
/// always at least one.
#[verifier::external_body]
fn available_cpus() -> (r: usize)
    ensures
        r >= 1,
{
    num_cpus::get()
}

/// The concurrency ceiling for a refresh batch: twice the given processor
/// count, saturating at the machine limit.
pub fn fetch_concurrency_limit(cpus: usize) -> (r: usize)
    requires
        cpus >= 1,
    ensures
        2 * cpus <= usize::MAX ==> r == 2 * cpus,
        2 * cpus > usize::MAX ==> r == usize::MAX,
        r >= 2,
{
    if cpus <= usize::MAX / 2 {
        2 * cpus
    } else {
        usize::MAX
    }
}

/// The concurrency ceiling on this machine: twice the number of available
/// processors.
pub fn default_concurrency_limit() -> (r: usize)
    ensures
        r >= 2,
{
    let cpus = available_cpus();
    fetch_concurrency_limit(cpus)
}

/// One refresh batch in progress. Exec fields drive the loop; ghost fields
/// record which units are pending, in flight and done.
pub struct Pipeline {
    pending: Vec<FeedId>,
    in_flight_count: usize,
    limit: usize,
    successes: usize,
    completed: usize,
    batch: Ghost<Seq<FeedId>>,
    in_flight: Ghost<Set<FeedId>>,
    done: Ghost<Set<FeedId>>,
    succeeded: Ghost<Set<FeedId>>,
}

impl Pipeline {
    /// The whole batch, in submission order.
    pub closed spec fn batch(&self) -> Seq<FeedId> {
        self.batch@
    }

    /// The units not yet launched, in submission order.
    pub closed spec fn pending_ids(&self) -> Seq<FeedId> {
        self.pending@
    }

    /// The units launched and not yet reported.
    pub closed spec fn in_flight_ids(&self) -> Set<FeedId> {
        self.in_flight@
    }

    /// The units that have reported an outcome.
    pub closed spec fn done_ids(&self) -> Set<FeedId> {
        self.done@
    }

    /// The units that reported success.
    pub closed spec fn succeeded_ids(&self) -> Set<FeedId> {
        self.succeeded@
    }

    /// The concurrency ceiling.
    pub closed spec fn limit_spec(&self) -> int {
        self.limit as int
    }

    pub closed spec fn successes_spec(&self) -> int {
        self.successes as int
    }

    pub closed spec fn completed_spec(&self) -> int {
        self.completed as int
    }

    /// How many units have been launched so far.
    pub open spec fn launched(&self) -> int {
        self.batch().len() - self.pending_ids().len()
    }

    /// Every unit reported an outcome and nothing is left to launch.
    pub open spec fn is_done_spec(&self) -> bool {
        self.pending_ids().len() == 0 && self.in_flight_ids().len() == 0
    }

    pub closed spec fn wf(&self) -> bool {
        &&& self.batch@.no_duplicates()
        &&& self.batch@.len() <= usize::MAX
        &&& self.pending@.len() <= self.batch@.len()
        &&& self.pending@ == self.batch@.skip(self.launched())
        &&& self.in_flight@.finite()
        &&& self.done@.finite()
        &&& self.succeeded@.finite()
        &&& self.in_flight@.disjoint(self.done@)
        &&& self.batch@.take(self.launched()).to_set() == self.in_flight@ + self.done@
        &&& self.in_flight_count == self.in_flight@.len()
        &&& self.in_flight_count <= self.limit
        &&& self.succeeded@.subset_of(self.done@)
        &&& self.successes == self.succeeded@.len()
        &&& self.completed == self.done@.len()
        &&& self.limit >= 1
    }

    /// Start a batch over the given identifiers with the given ceiling.
    pub fn new(ids: Vec<FeedId>, limit: usize) -> (p: Pipeline)
        requires
            ids@.no_duplicates(),
            limit >= 1,
        ensures
            p.wf(),
            p.batch() == ids@,
            p.pending_ids() == ids@,
            p.in_flight_ids() == Set::<FeedId>::empty(),
            p.done_ids() == Set::<FeedId>::empty(),
            p.succeeded_ids() == Set::<FeedId>::empty(),
            p.limit_spec() == limit,
            p.successes_spec() == 0,
            p.completed_spec() == 0,
    {
        let ghost batch = ids@;
        // The batch comes from a vector, so its length fits the machine.
        let _n = ids.len();
        assert(batch.len() <= usize::MAX);
        let p = Pipeline {
            pending: ids,
            in_flight_count: 0,
            limit,
            successes: 0,
            completed: 0,
            batch: Ghost(batch),
            in_flight: Ghost(Set::empty()),
            done: Ghost(Set::empty()),
            succeeded: Ghost(Set::empty()),
        };
        proof {
            assert(p.pending@ =~= p.batch@.skip(0));
            assert(p.batch@.take(0).to_set() =~= p.in_flight@ + p.done@);
        }
        p
    }

    /// Another unit may be launched: work remains and the ceiling leaves
    /// room.
    pub fn can_launch(&self) -> (r: bool)
        requires
            self.wf(),
        ensures
            r == (self.pending_ids().len() > 0 && self.in_flight_ids().len()
                < self.limit_spec()),
    {
        self.pending.len() > 0 && self.in_flight_count < self.limit
    }

    /// Launch the next pending unit; it joins the in-flight set.
    pub fn launch(&mut self) -> (id: FeedId)
        requires
            old(self).wf(),
            old(self).pending_ids().len() > 0,
            old(self).in_flight_ids().len() < old(self).limit_spec(),
        ensures
            final(self).wf(),
            id == old(self).pending_ids()[0],
            final(self).pending_ids() == old(self).pending_ids().skip(1),
            final(self).in_flight_ids() == old(self).in_flight_ids().insert(id),
            final(self).in_flight_ids().len() == old(self).in_flight_ids().len() + 1,
            final(self).done_ids() == old(self).done_ids(),
            final(self).succeeded_ids() == old(self).succeeded_ids(),
            final(self).batch() == old(self).batch(),
            final(self).limit_spec() == old(self).limit_spec(),
            final(self).successes_spec() == old(self).successes_spec(),
            final(self).completed_spec() == old(self).completed_spec(),
    {
        let id = self.pending.remove(0);
        proof {
            let l = old(self).launched();
            assert(old(self).batch@.skip(l)[0] == old(self).batch@[l]);
            assert(id == old(self).batch@[l]);
            if old(self).in_flight@.contains(id) || old(self).done@.contains(id) {
                assert((old(self).in_flight@ + old(self).done@).contains(id));
                assert(old(self).batch@.take(l).to_set().contains(id));
                assert(old(self).batch@.take(l).contains(id));
                let j = choose|j: int|
                    0 <= j < l && old(self).batch@.take(l)[j] == id;
                assert(old(self).batch@[j] == old(self).batch@[l]);
                assert(false);
            }
            self.in_flight@ = self.in_flight@.insert(id);
        }
        self.in_flight_count = self.in_flight_count + 1;
        proof {
            let l = old(self).launched();
            assert(final(self).launched() == l + 1);
            assert(final(self).pending@ =~= final(self).batch@.skip(l + 1));
            assert(final(self).batch@.take(l + 1) =~= old(self).batch@.take(l) + seq![id]);
            Seq::<FeedId>::lemma_to_set_insert_commutes(old(self).batch@.take(l), id);
            assert(final(self).batch@.take(l + 1).to_set() =~= final(self).in_flight@
                + final(self).done@);
        }
        id
    }

    /// An in-flight unit reports its outcome. A failure is recorded like a
    /// success: it never removes or stops any other unit.
    pub fn complete(&mut self, id: FeedId, success: bool)
        requires
            old(self).wf(),
            old(self).in_flight_ids().contains(id),
        ensures
            final(self).wf(),
            final(self).pending_ids() == old(self).pending_ids(),
            final(self).in_flight_ids() == old(self).in_flight_ids().remove(id),
            final(self).in_flight_ids().len() == old(self).in_flight_ids().len() - 1,
            final(self).done_ids() == old(self).done_ids().insert(id),
            final(self).succeeded_ids() == if success {
                old(self).succeeded_ids().insert(id)
            } else {
                old(self).succeeded_ids()
            },
            final(self).batch() == old(self).batch(),
            final(self).limit_spec() == old(self).limit_spec(),
            final(self).completed_spec() == old(self).completed_spec() + 1,
            final(self).successes_spec() == old(self).successes_spec() + if success {
                1int
            } else {
                0int
            },
    {
        proof {
            let l = old(self).launched();
            // The unit leaves the in-flight set and joins the done set.
            assert(old(self).in_flight@.remove(id).len() == old(self).in_flight@.len() - 1);
            assert(!old(self).done@.contains(id));
            assert(old(self).done@.insert(id).len() == old(self).done@.len() + 1);
            // The done set stays within the batch, so the counters stay
            // within the machine limit.
            assert(old(self).batch@.take(l).to_set().subset_of(old(self).batch@.to_set()))
                by {
                assert forall|x: FeedId|
                    old(self).batch@.take(l).to_set().contains(x) implies old(
                    self,
                ).batch@.to_set().contains(x) by {
                    assert(old(self).batch@.take(l).contains(x));
                    let j = choose|j: int|
                        0 <= j < l && old(self).batch@.take(l)[j] == x;
                    assert(old(self).batch@[j] == x);
                };
            }
            old(self).batch@.unique_seq_to_set();
            lemma_len_subset(
                old(self).batch@.take(l).to_set(),
                old(self).batch@.to_set(),
            );
            assert(old(self).done@.insert(id).subset_of(
                old(self).batch@.take(l).to_set(),
            ));
            lemma_len_subset(
                old(self).done@.insert(id),
                old(self).batch@.take(l).to_set(),
            );
            assert(old(self).done@.insert(id).len() <= old(self).batch@.len());
            if success {
                assert(!old(self).succeeded@.contains(id));
                assert(old(self).succeeded@.insert(id).subset_of(old(self).done@.insert(id)));
                lemma_len_subset(
                    old(self).succeeded@.insert(id),
                    old(self).done@.insert(id),
                );
            }
            self.in_flight@ = self.in_flight@.remove(id);
            self.done@ = self.done@.insert(id);
            if success {
                self.succeeded@ = self.succeeded@.insert(id);
            }
        }
        self.in_flight_count = self.in_flight_count - 1;
        self.completed = self.completed + 1;
        if success {
            self.successes = self.successes + 1;
        }
        proof {
            let l = old(self).launched();
            assert(final(self).batch@.take(l).to_set() =~= final(self).in_flight@
                + final(self).done@);
        }
    }

    /// The batch is complete: nothing pending, nothing in flight.
    pub fn is_done(&self) -> (r: bool)
        requires
            self.wf(),
        ensures
            r == self.is_done_spec(),
    {
        self.pending.len() == 0 && self.in_flight_count == 0
    }

    /// How many units reported success so far.
    pub fn success_count(&self) -> (r: usize)
        ensures
            r == self.successes_spec(),
    {
        self.successes
    }

    /// How many units reported an outcome so far.
    pub fn completed_count(&self) -> (r: usize)
        ensures
            r == self.completed_spec(),
    {
        self.completed
    }
}

/// Bounded concurrency law: a well-formed pipeline never has more than its
/// ceiling of units in flight, and the batch is done only once every unit of
/// the batch has reported an outcome.
pub proof fn lemma_bounded_concurrency(p: &Pipeline)
    requires
        p.wf(),
    ensures
        p.in_flight_ids().len() <= p.limit_spec(),
        p.is_done_spec() ==> p.done_ids() == p.batch().to_set() && p.done_ids().len()
            == p.batch().len() && p.completed_spec() == p.batch().len(),
{
    if p.is_done_spec() {
        assert(p.launched() == p.batch().len());
        assert(p.batch().take(p.batch().len() as int) =~= p.batch());
        assert(p.in_flight_ids() =~= Set::<FeedId>::empty()) by {
            if exists|x: FeedId| p.in_flight_ids().contains(x) {
                let x = choose|x: FeedId| p.in_flight_ids().contains(x);
                assert(p.in_flight_ids().remove(x).len() == p.in_flight_ids().len() - 1);
            }
        }
        assert(p.done_ids() =~= p.batch().to_set());
        p.batch().unique_seq_to_set();
    }
}

/// The ceiling in terms of the processor count: a batch run with the ceiling
/// that [`fetch_concurrency_limit`] computes never has more than two units
/// per processor in flight.
pub proof fn lemma_at_most_two_units_per_processor(p: &Pipeline, cpus: int)
    requires
        p.wf(),
        cpus >= 1,
        p.limit_spec() <= 2 * cpus,
    ensures
        p.in_flight_ids().len() <= 2 * cpus,
{
    lemma_bounded_concurrency(p);
}

/// Partial-failure law: when each unit's outcome is a function of its
/// identifier alone, a completed batch reports a success count equal to
/// exactly the number of identifiers that succeed, and every identifier of
/// the batch has reported an outcome.
pub proof fn lemma_partial_failure(p: &Pipeline, ok: spec_fn(FeedId) -> bool)
    requires
        p.wf(),
        p.is_done_spec(),
        forall|id: FeedId| #[trigger]
            p.done_ids().contains(id) ==> (p.succeeded_ids().contains(id) <==> ok(id)),
    ensures
        p.done_ids() == p.batch().to_set(),
        p.successes_spec() == p.batch().to_set().filter(ok).len(),
{
    lemma_bounded_concurrency(p);
    assert(p.succeeded_ids() =~= p.batch().to_set().filter(ok));
}

} // verus!
