//! The lifecycle of one kernel instance as the host drives it: constructed
//! at most once, computed only while ready, destroyed exactly once. The
//! state machine makes precise which call sequences the layer accepts, and
//! in particular that a kernel whose construction failed is never computed
//! or destroyed.

use vstd::prelude::*;

verus! {

/// The states a kernel instance moves through.
#[derive(Clone, Copy, Debug, PartialEq, Eq, Structural)]
pub enum LifecycleState {
    /// No construction attempt has been made.
    Unconstructed,
    /// Construction succeeded; the host owns the instance.
    Ready,
    /// Construction failed; the host received a status instead of a kernel.
    Failed,
    /// The instance was destroyed; terminal.
    Destroyed,
}

/// The calls the host can direct at one kernel instance.
#[derive(Clone, Copy, Debug, PartialEq, Eq, Structural)]
pub enum LifecycleEvent {
    /// Construction was attempted and the kernel's constructor succeeded.
    CreateOk,
    /// Construction was attempted and the kernel's constructor failed.
    CreateErr,
    /// One compute call.
    Compute,
    /// The single destroy call.
    Destroy,
}

/// The transition relation: which event is accepted in which state, and
/// where it leads. `None` marks a call the layer never lets the host make.
pub open spec fn spec_step(s: LifecycleState, e: LifecycleEvent) -> Option<LifecycleState> {
    match (s, e) {
        (LifecycleState::Unconstructed, LifecycleEvent::CreateOk) => Some(LifecycleState::Ready),
        (LifecycleState::Unconstructed, LifecycleEvent::CreateErr) => Some(LifecycleState::Failed),
        (LifecycleState::Ready, LifecycleEvent::Compute) => Some(LifecycleState::Ready),
        (LifecycleState::Ready, LifecycleEvent::Destroy) => Some(LifecycleState::Destroyed),
        _ => None,
    }
}

/// Take one lifecycle step.
pub fn step(s: LifecycleState, e: LifecycleEvent) -> (r: Option<LifecycleState>)
    ensures
        r == spec_step(s, e),
{
    match (s, e) {
        (LifecycleState::Unconstructed, LifecycleEvent::CreateOk) => Some(LifecycleState::Ready),
        (LifecycleState::Unconstructed, LifecycleEvent::CreateErr) => Some(LifecycleState::Failed),
        (LifecycleState::Ready, LifecycleEvent::Compute) => Some(LifecycleState::Ready),
        (LifecycleState::Ready, LifecycleEvent::Destroy) => Some(LifecycleState::Destroyed),
        _ => None,
    }
}

/// Where a whole call sequence leads from a starting state; `None` as soon
/// as one call is not accepted.
pub open spec fn spec_run(s: LifecycleState, events: Seq<LifecycleEvent>) -> Option<LifecycleState>
    decreases events.len(),
{
    if events.len() == 0 {
        Some(s)
    } else {
        match spec_step(s, events[0]) {
            Some(next) => spec_run(next, events.skip(1)),
            None => None,
        }
    }
}

/// Replay a whole call sequence.
pub fn run_events(start: LifecycleState, events: &Vec<LifecycleEvent>) -> (r: Option<
    LifecycleState,
>)
    ensures
        r == spec_run(start, events@),
{
    let mut state = start;
    let n = events.len();
    proof {
        assert(events@.skip(0) =~= events@);
    }
    for i in 0..n
        invariant
            n == events@.len(),
            spec_run(start, events@) == spec_run(state, events@.skip(i as int)),
    {
        proof {
            assert(events@.skip(i as int)[0] == events@[i as int]);
            assert(events@.skip(i as int).skip(1) =~= events@.skip(i + 1));
        }
        match step(state, events[i]) {
            Some(next) => {
                state = next;
            },
            None => {
                return None;
            },
        }
    }
    proof {
        assert(events@.skip(n as int) =~= Seq::<LifecycleEvent>::empty());
    }
    Some(state)
}

/// From the failed state no call is ever accepted: a sequence is accepted
/// from `Failed` exactly when it is empty.
pub proof fn lemma_failed_is_terminal(events: Seq<LifecycleEvent>)
    ensures
        spec_run(LifecycleState::Failed, events) is Some <==> events.len() == 0,
{
}

/// A kernel whose construction failed is never computed and never
/// destroyed: any call sequence that starts with a failed construction and
/// later contains a compute or destroy call is rejected.
pub proof fn lemma_failed_create_blocks_all_calls(events: Seq<LifecycleEvent>, i: int)
    requires
        events.len() > 0,
        events[0] == LifecycleEvent::CreateErr,
        1 <= i < events.len(),
        events[i] == LifecycleEvent::Compute || events[i] == LifecycleEvent::Destroy,
    ensures
        spec_run(LifecycleState::Unconstructed, events) is None,
{
    assert(events.skip(1).len() > 0);
    lemma_failed_is_terminal(events.skip(1));
}

/// After a successful construction, any number of compute calls followed by
/// one destroy call is accepted and ends in the terminal state.
pub proof fn lemma_computes_then_destroy(events: Seq<LifecycleEvent>)
    requires
        events.len() >= 2,
        events[0] == LifecycleEvent::CreateOk,
        forall|i: int| 1 <= i < events.len() - 1 ==> events[i] == LifecycleEvent::Compute,
        events[events.len() - 1] == LifecycleEvent::Destroy,
    ensures
        spec_run(LifecycleState::Unconstructed, events) == Some(LifecycleState::Destroyed),
{
    lemma_ready_computes(events.skip(1));
}

/// From the ready state, a run of compute calls ending in one destroy is
/// accepted and ends destroyed.
proof fn lemma_ready_computes(events: Seq<LifecycleEvent>)
    requires
        events.len() >= 1,
        forall|i: int| 0 <= i < events.len() - 1 ==> events[i] == LifecycleEvent::Compute,
        events[events.len() - 1] == LifecycleEvent::Destroy,
    ensures
        spec_run(LifecycleState::Ready, events) == Some(LifecycleState::Destroyed),
    decreases events.len(),
{
    if events.len() == 1 {
        assert(events[0] == LifecycleEvent::Destroy);
        assert(spec_run(LifecycleState::Ready, events) == spec_run(
            LifecycleState::Destroyed,
            events.skip(1),
        ));
        assert(events.skip(1).len() == 0);
    } else {
        assert(events[0] == LifecycleEvent::Compute);
        let rest = events.skip(1);
        assert(rest[rest.len() - 1] == events[events.len() - 1]);
        assert forall|i: int| 0 <= i < rest.len() - 1 implies rest[i] == LifecycleEvent::Compute by {
            assert(rest[i] == events[i + 1]);
        }
        lemma_ready_computes(rest);
    }
}

} // verus!
