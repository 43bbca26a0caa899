use vstd::prelude::*;

use crate::instance::{InstanceInspect, is_running};

verus! {

pub open spec fn all_ok<T, E>(s: Seq<Result<T, E>>) -> bool {
    forall|i: int| 0 <= i < s.len() ==> (#[trigger] s[i]) is Ok
}

/// `e` is the error at the first failed position of `s`.
pub open spec fn is_first_error<T, E>(s: Seq<Result<T, E>>, e: E) -> bool {
    exists|k: int|
        0 <= k < s.len() && s[k] == Err::<T, E>(e) && forall|j: int|
            0 <= j < k ==> (#[trigger] s[j]) is Ok
}

/// Gathers the results of a fan-out whose tasks all ran: every value when all
/// succeeded, otherwise the first error in the order given. Nothing that
/// already happened is undone.
pub fn join_results<T, E>(results: Vec<Result<T, E>>) -> (r: Result<Vec<T>, E>)
    ensures
        r is Ok <==> all_ok(results@),
        r is Ok ==> r->Ok_0@.len() == results@.len() && forall|i: int|
            0 <= i < results@.len() ==> results@[i] == Ok::<T, E>(#[trigger] r->Ok_0@[i]),
        r is Err ==> is_first_error(results@, r->Err_0),
{
    let ghost all = results@;
    let mut rest = results;
    let mut values: Vec<T> = Vec::new();
    while rest.len() > 0
        invariant
            all == results@,
            values@.len() + rest@.len() == all.len(),
            rest@ == all.subrange(values@.len() as int, all.len() as int),
            forall|i: int| 0 <= i < values@.len() ==> all[i] == Ok::<T, E>(#[trigger] values@[i]),
        decreases rest@.len(),
    {
        let ghost k = values@.len() as int;
        let head = rest.remove(0);
        assert(all[k] == head);
        match head {
            Ok(v) => {
                values.push(v);
            },
            Err(e) => {
                assert forall|j: int| 0 <= j < k implies (#[trigger] all[j]) is Ok by {
                    assert(all[j] == Ok::<T, E>(values@[j]));
                }
                assert(all[k] == Err::<T, E>(e));
                assert(is_first_error(all, e));
                assert(!(all[k] is Ok));
                return Err(e);
            },
        }
    }
    assert forall|i: int| 0 <= i < all.len() implies (#[trigger] all[i]) is Ok by {
        assert(all[i] == Ok::<T, E>(values@[i]));
    }
    Ok(values)
}

/// What becomes of a job record once the removal of its instances is over.
#[derive(Debug, Clone, PartialEq, Eq)]
pub enum RecordStep<E> {
    /// Every instance is gone: the record is deleted.
    Delete,
    /// A removal failed: the record stays and the error is reported.
    Keep(E),
}

/// Deletion keeps the job record unless every instance removal succeeded, so
/// that a failed delete can be retried.
pub fn record_step<E>(removals: Vec<Result<(), E>>) -> (r: RecordStep<E>)
    ensures
        r is Delete <==> all_ok(removals@),
        r matches RecordStep::Keep(e) ==> is_first_error(removals@, e),
{
    match join_results(removals) {
        Ok(_) => RecordStep::Delete,
        Err(e) => RecordStep::Keep(e),
    }
}

pub open spec fn id_or_empty(i: InstanceInspect) -> Seq<char> {
    match i.id {
        Some(id) => id@,
        None => Seq::empty(),
    }
}

/// Ids to start, in the order given, leaving out instances already running.
pub open spec fn start_ids(s: Seq<InstanceInspect>) -> Seq<Seq<char>>
    decreases s.len(),
{
    if s.len() == 0 {
        Seq::empty()
    } else if is_running(s.last()) {
        start_ids(s.drop_last())
    } else {
        start_ids(s.drop_last()).push(id_or_empty(s.last()))
    }
}

/// The start operation targets exactly the instances that are not running,
/// each once, in the order the instances were given: a running instance is
/// skipped, not an error.
pub proof fn lemma_start_skips_running(s: Seq<InstanceInspect>)
    ensures
        start_ids(s) == s.filter(|i: InstanceInspect| !is_running(i)).map_values(
            |i: InstanceInspect| id_or_empty(i),
        ),
    decreases s.len(),
{
    let p = |i: InstanceInspect| !is_running(i);
    let m = |i: InstanceInspect| id_or_empty(i);
    reveal(Seq::filter);
    if s.len() == 0 {
        assert(s.filter(p).map_values(m) =~= start_ids(s));
    } else {
        lemma_start_skips_running(s.drop_last());
        let f = s.drop_last().filter(p);
        assert(s.filter(p) == if p(s.last()) {
            f.push(s.last())
        } else {
            f
        });
        if p(s.last()) {
            assert(f.push(s.last()).map_values(m) =~= f.map_values(m).push(m(s.last())));
        }
        assert(s.filter(p).map_values(m) =~= start_ids(s));
    }
}

/// The start calls to issue, one after another, for a job's instances.
pub fn start_plan(instances: &[InstanceInspect]) -> (r: Vec<String>)
    ensures
        r@.map_values(|s: String| s@) == start_ids(instances@),
{
    let mut plan: Vec<String> = Vec::new();
    let mut i: usize = 0;
    while i < instances.len()
        invariant
            i <= instances@.len(),
            plan@.map_values(|s: String| s@) == start_ids(instances@.subrange(0, i as int)),
        decreases instances@.len() - i,
    {
        let ghost next = instances@.subrange(0, i + 1);
        assert(next.drop_last() =~= instances@.subrange(0, i as int));
        assert(next.last() == instances@[i as int]);
        let inst = &instances[i];
        let up = match &inst.state {
            Some(state) => match state.running {
                Some(b) => b,
                None => false,
            },
            None => false,
        };
        if !up {
            let id = match &inst.id {
                Some(id) => id.clone(),
                None => String::new(),
            };
            let ghost before = plan@;
            plan.push(id);
            assert(plan@.map_values(|s: String| s@) =~= before.map_values(|s: String| s@).push(
                id_or_empty(instances@[i as int]),
            ));
        }
        i = i + 1;
    }
    assert(instances@.subrange(0, i as int) =~= instances@);
    plan
}

/// What the start operation does next.
pub enum StartAction<E> {
    /// Start the container with this id and report how it went.
    Start(String),
    /// Every planned start succeeded: touch the job's update time.
    Finish,
    /// A start failed: stop issuing starts and report the error.
    Fail(E),
}

/// Progress of a job's start operation: the ids to start, in order, and how
/// many of them were already handed out.
pub struct StartRun {
    pub plan: Vec<String>,
    pub next: usize,
}

impl StartRun {
    pub open spec fn plan_view(&self) -> Seq<Seq<char>> {
        self.plan@.map_values(|s: String| s@)
    }

    /// A run over `instances`, nothing started yet.
    pub fn new(instances: &[InstanceInspect]) -> (r: StartRun)
        ensures
            r.plan_view() == start_ids(instances@),
            r.next == 0,
    {
        StartRun { plan: start_plan(instances), next: 0 }
    }

    /// Decides the next action from how the previous start went (`Ok(())`
    /// before the first one). Starts go out one at a time in plan order; the
    /// first failure ends the run.
    pub fn step<E>(&mut self, last: Result<(), E>) -> (r: StartAction<E>)
        requires
            old(self).next <= old(self).plan@.len(),
        ensures
            final(self).plan == old(self).plan,
            final(self).next <= final(self).plan@.len(),
            last matches Err(e) ==> r == StartAction::<E>::Fail(e),
            last is Err ==> final(self).next == old(self).next,
            last is Ok && old(self).next < old(self).plan@.len() ==> r
                == StartAction::<E>::Start(old(self).plan@[old(self).next as int]),
            last is Ok && old(self).next < old(self).plan@.len() ==> final(self).next
                == old(self).next + 1,
            last is Ok && old(self).next == old(self).plan@.len() ==> r is Finish,
            last is Ok && old(self).next == old(self).plan@.len() ==> final(self).next
                == old(self).next,
    {
        match last {
            Err(e) => StartAction::Fail(e),
            Ok(()) => {
                if self.next < self.plan.len() {
                    let id = self.plan[self.next].clone();
                    self.next = self.next + 1;
                    StartAction::Start(id)
                } else {
                    StartAction::Finish
                }
            },
        }
    }
}

} // verus!
