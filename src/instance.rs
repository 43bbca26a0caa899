use vstd::prelude::*;

verus! {

/// Runtime-reported state of one instance, as far as classification reads it.
#[derive(Debug, Clone, PartialEq, Eq)]
pub struct InstanceState {
    pub running: Option<bool>,
    pub exit_code: Option<i64>,
    pub error: Option<String>,
}

/// What a detailed inspect of one instance reports: its id and its state.
#[derive(Debug, Clone, PartialEq, Eq)]
pub struct InstanceInspect {
    pub id: Option<String>,
    pub state: Option<InstanceState>,
}

/// An instance counts as running only when the runtime says so explicitly.
pub open spec fn is_running(i: InstanceInspect) -> bool {
    i.state is Some && i.state->0.running == Some(true)
}

pub open spec fn running_inc(i: InstanceInspect) -> nat {
    if is_running(i) {
        1
    } else {
        0
    }
}

/// A stopped instance with exit code zero is one success.
pub open spec fn succeeded_inc(i: InstanceInspect) -> nat {
    if !is_running(i) && i.state is Some && i.state->0.exit_code == Some(0i64) {
        1
    } else {
        0
    }
}

/// A stopped instance counts one failure for a non-zero exit code and one
/// more for a non-empty error string: both may apply to the same instance.
pub open spec fn failed_inc(i: InstanceInspect) -> nat {
    if is_running(i) || i.state is None {
        0
    } else {
        let s = i.state->0;
        (if s.exit_code is Some && s.exit_code->0 != 0 {
            1nat
        } else {
            0nat
        }) + (if s.error is Some && s.error->0@.len() > 0 {
            1nat
        } else {
            0nat
        })
    }
}

pub open spec fn count_running(s: Seq<InstanceInspect>) -> nat
    decreases s.len(),
{
    if s.len() == 0 {
        0
    } else {
        count_running(s.drop_last()) + running_inc(s.last())
    }
}

pub open spec fn count_succeeded(s: Seq<InstanceInspect>) -> nat
    decreases s.len(),
{
    if s.len() == 0 {
        0
    } else {
        count_succeeded(s.drop_last()) + succeeded_inc(s.last())
    }
}

pub open spec fn count_failed(s: Seq<InstanceInspect>) -> nat
    decreases s.len(),
{
    if s.len() == 0 {
        0
    } else {
        count_failed(s.drop_last()) + failed_inc(s.last())
    }
}

/// Reduces inspected instances to `(total, failed, succeeded, running)`.
pub fn count_instances(instances: &[InstanceInspect]) -> (r: (usize, usize, usize, usize))
    requires
        instances@.len() <= usize::MAX / 2,
    ensures
        r.0 == instances@.len(),
        r.1 == count_failed(instances@),
        r.2 == count_succeeded(instances@),
        r.3 == count_running(instances@),
{
    let mut failed: usize = 0;
    let mut succeeded: usize = 0;
    let mut running: usize = 0;
    let mut i: usize = 0;
    while i < instances.len()
        invariant
            i <= instances@.len() <= usize::MAX / 2,
            failed == count_failed(instances@.subrange(0, i as int)),
            succeeded == count_succeeded(instances@.subrange(0, i as int)),
            running == count_running(instances@.subrange(0, i as int)),
            failed + succeeded + running <= 2 * i,
        decreases instances@.len() - i,
    {
        let ghost prefix = instances@.subrange(0, i as int);
        let ghost next = instances@.subrange(0, i + 1);
        assert(next.drop_last() =~= prefix);
        assert(next.last() == instances@[i as int]);
        let inst = &instances[i];
        match &inst.state {
            None => {},
            Some(state) => {
                let is_up = match state.running {
                    Some(b) => b,
                    None => false,
                };
                if is_up {
                    running = running + 1;
                } else {
                    match state.exit_code {
                        Some(code) => {
                            if code == 0 {
                                succeeded = succeeded + 1;
                            } else {
                                failed = failed + 1;
                            }
                        },
                        None => {},
                    }
                    match &state.error {
                        Some(err) => {
                            if !err.as_str().is_empty() {
                                failed = failed + 1;
                            }
                        },
                        None => {},
                    }
                }
            },
        }
        i = i + 1;
    }
    assert(instances@.subrange(0, i as int) =~= instances@);
    (instances.len(), failed, succeeded, running)
}

/// Each instance adds at most one to `running` and at most two to the sum of
/// the three counters, so `running <= total` and
/// `running + succeeded + failed <= 2 * total` hold for every instance set.
pub proof fn lemma_counters_bounded(s: Seq<InstanceInspect>)
    ensures
        count_running(s) <= s.len(),
        count_running(s) + count_succeeded(s) + count_failed(s) <= 2 * s.len(),
    decreases s.len(),
{
    if s.len() > 0 {
        lemma_counters_bounded(s.drop_last());
    }
}

} // verus!
