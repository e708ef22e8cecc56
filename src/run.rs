//! Runs of the servicing loop: a sequence of events fed to `NRF52::step` from
//! a given phase, and what holds of every such run.

use vstd::prelude::*;
use crate::chip::{accepts, transition, Action, Event, Phase};
use crate::peripheral::{task_handler, Peripheral};
use crate::router::{InterruptServiceTrait, Route};

verus! {

/// The phase after the first `i` events of `events`, starting in `start`.
pub open spec fn phase_at<S: InterruptServiceTrait>(svc: &S, start: Phase, events: Seq<Event>, i: nat) -> Phase
    decreases i,
{
    if i == 0 {
        start
    } else {
        transition(svc, phase_at(svc, start, events, (i - 1) as nat), events[i - 1]).0
    }
}

/// The action returned for the `i`th event.
pub open spec fn action_at<S: InterruptServiceTrait>(svc: &S, start: Phase, events: Seq<Event>, i: nat) -> Action {
    transition(svc, phase_at(svc, start, events, i), events[i as int]).1
}

/// Every event answers what the loop was waiting for when it came.
pub open spec fn valid_run<S: InterruptServiceTrait>(svc: &S, start: Phase, events: Seq<Event>) -> bool {
    forall|i: nat| i < events.len() ==> #[trigger] accepts(phase_at(svc, start, events, i), events[i as int])
}

proof fn lemma_step<S: InterruptServiceTrait>(svc: &S, start: Phase, events: Seq<Event>, i: nat)
    requires
        valid_run(svc, start, events),
        i < events.len(),
    ensures
        accepts(phase_at(svc, start, events, i), events[i as int]),
        phase_at(svc, start, events, i + 1) == transition(svc, phase_at(svc, start, events, i), events[i as int]).0,
{
    assert(accepts(phase_at(svc, start, events, i), events[i as int]));
}

/// Exhaustion: the loop returns to the scheduler only right after the
/// deferred-call queue and then the interrupt controller both reported that
/// nothing was pending.
pub proof fn lemma_finish_only_when_exhausted<S: InterruptServiceTrait>(svc: &S, events: Seq<Event>, i: nat)
    requires
        valid_run(svc, Phase::Idle, events),
        i < events.len(),
        action_at(svc, Phase::Idle, events, i) == Action::Finish,
    ensures
        i >= 1,
        events[i - 1] == Event::Deferred(None),
        events[i as int] == Event::Vector(None),
{
    lemma_step(svc, Phase::Idle, events, i);
    assert(phase_at(svc, Phase::Idle, events, i) == Phase::AwaitVector);
    assert(i != 0);
    lemma_step(svc, Phase::Idle, events, (i - 1) as nat);
}

/// Priority: a pending deferred call is always run at once, and the
/// interrupt controller is asked for a vector only right after the
/// deferred-call queue reported that nothing was pending.
pub proof fn lemma_deferred_first<S: InterruptServiceTrait>(svc: &S, events: Seq<Event>, i: nat)
    requires
        valid_run(svc, Phase::Idle, events),
        i < events.len(),
    ensures
        forall|t| events[i as int] == Event::Deferred(Some(t))
            ==> action_at(svc, Phase::Idle, events, i) == Action::Handle(task_handler(t)),
        action_at(svc, Phase::Idle, events, i) == Action::NextVector ==> events[i as int] == Event::Deferred(None),
{
    lemma_step(svc, Phase::Idle, events, i);
}

/// Re-arming: once the interrupt controller hands over vector `v`, the
/// actions up to the next poll of the deferred-call queue end with clearing
/// `v`'s pending bit and then re-enabling `v`, and neither is asked for
/// earlier in that stretch; this holds whether or not `v` is recognized.
pub proof fn lemma_vector_rearmed<S: InterruptServiceTrait>(svc: &S, events: Seq<Event>, i: nat, j: nat, v: u32)
    requires
        valid_run(svc, Phase::Idle, events),
        i < j < events.len(),
        events[i as int] == Event::Vector(Some(v)),
        action_at(svc, Phase::Idle, events, j) == Action::TakeDeferred,
        forall|k: nat| i < k < j ==> action_at(svc, Phase::Idle, events, k) != Action::TakeDeferred,
    ensures
        i + 2 <= j,
        action_at(svc, Phase::Idle, events, (j - 2) as nat) == Action::ClearPending(v),
        action_at(svc, Phase::Idle, events, (j - 1) as nat) == Action::Enable(v),
        forall|k: nat| i <= k < j - 2 ==> {
            &&& !(#[trigger] action_at(svc, Phase::Idle, events, k) is ClearPending)
            &&& !(action_at(svc, Phase::Idle, events, k) is Enable)
        },
{
    let ph = |k: nat| phase_at(svc, Phase::Idle, events, k);
    lemma_step(svc, Phase::Idle, events, i);
    assert(ph(i) == Phase::AwaitVector);
    // After the vector is taken the loop is either servicing it directly or
    // waiting for its shared group's enabled state.
    assert(i + 1 < j) by {
        if i + 1 == j {
            assert(ph(i + 1) is Serviced || ph(i + 1) is AwaitShared);
        }
    }
    lemma_step(svc, Phase::Idle, events, i + 1);
    if ph(i + 1) is AwaitShared {
        assert(ph(i + 1) == Phase::AwaitShared(v, ph(i + 1)->AwaitShared_1, ph(i + 1)->AwaitShared_2));
        // From here: handled (Serviced), spurious (Clearing) or halted.
        if ph(i + 2) is Serviced {
            assert(i + 2 < j);
            lemma_step(svc, Phase::Idle, events, i + 2);
            assert(ph(i + 3) == Phase::Clearing(v));
            assert(i + 3 < j);
            lemma_step(svc, Phase::Idle, events, i + 3);
            assert(ph(i + 4) == Phase::Enabling(v));
            assert(i + 4 <= j) by {
                if i + 4 > j {
                    assert(action_at(svc, Phase::Idle, events, j) != Action::TakeDeferred);
                }
            }
            lemma_step(svc, Phase::Idle, events, i + 4);
            assert(action_at(svc, Phase::Idle, events, i + 4) == Action::TakeDeferred);
            assert(j == i + 4);
        } else if ph(i + 2) is Clearing {
            assert(ph(i + 2) == Phase::Clearing(v));
            assert(i + 2 < j);
            lemma_step(svc, Phase::Idle, events, i + 2);
            assert(ph(i + 3) == Phase::Enabling(v));
            assert(i + 3 <= j) by {
                if i + 3 > j {
                    assert(action_at(svc, Phase::Idle, events, j) != Action::TakeDeferred);
                }
            }
            lemma_step(svc, Phase::Idle, events, i + 3);
            assert(action_at(svc, Phase::Idle, events, i + 3) == Action::TakeDeferred);
            assert(j == i + 3);
        } else {
            assert(ph(i + 2) is Halted);
            assert(i + 2 <= j);
            lemma_step(svc, Phase::Idle, events, i + 2);
        }
    } else {
        assert(ph(i + 1) == Phase::Serviced(v));
        assert(ph(i + 2) == Phase::Clearing(v));
        lemma_step(svc, Phase::Idle, events, i + 2);
        assert(ph(i + 3) == Phase::Enabling(v));
        assert(i + 3 <= j) by {
            if i + 3 > j {
                assert(action_at(svc, Phase::Idle, events, j) != Action::TakeDeferred);
            }
        }
        lemma_step(svc, Phase::Idle, events, i + 3);
        assert(action_at(svc, Phase::Idle, events, i + 3) == Action::TakeDeferred);
        assert(j == i + 3);
    }
}

/// A shared vector goes to the one member that reports enabled, to nobody
/// (the vector is re-armed at once) when neither does, and to nobody when both
/// do: the loop then halts, and no event is taken after it.
pub proof fn lemma_shared_vector_dispatch<S: InterruptServiceTrait>(
    svc: &S,
    events: Seq<Event>,
    i: nat,
    v: u32,
    a: Peripheral,
    b: Peripheral,
    a_enabled: bool,
    b_enabled: bool,
)
    requires
        valid_run(svc, Phase::Idle, events),
        i + 1 < events.len(),
        events[i as int] == Event::Vector(Some(v)),
        svc.route_of(v) == Some(Route::Shared(a, b)),
        events[(i + 1) as int] == Event::Enabled(a_enabled, b_enabled),
    ensures
        action_at(svc, Phase::Idle, events, i) == Action::QueryEnabled(a, b),
        a_enabled && !b_enabled ==> action_at(svc, Phase::Idle, events, i + 1) == Action::Handle(a),
        !a_enabled && b_enabled ==> action_at(svc, Phase::Idle, events, i + 1) == Action::Handle(b),
        !a_enabled && !b_enabled ==> action_at(svc, Phase::Idle, events, i + 1) == Action::ClearPending(v),
        a_enabled && b_enabled ==> {
            &&& action_at(svc, Phase::Idle, events, i + 1) == Action::Fatal(a, b)
            &&& events.len() == i + 2
        },
{
    lemma_step(svc, Phase::Idle, events, i);
    lemma_step(svc, Phase::Idle, events, i + 1);
    if a_enabled && b_enabled && events.len() > i + 2 {
        lemma_step(svc, Phase::Idle, events, i + 2);
    }
}

/// A vector that the interrupt service does not support gets a diagnostic,
/// runs no handler, and is then cleared.
pub proof fn lemma_unsupported_vector<S: InterruptServiceTrait>(svc: &S, events: Seq<Event>, i: nat, v: u32)
    requires
        valid_run(svc, Phase::Idle, events),
        i + 1 < events.len(),
        events[i as int] == Event::Vector(Some(v)),
        svc.route_of(v) is None,
    ensures
        action_at(svc, Phase::Idle, events, i) == Action::ReportUnsupported(v),
        action_at(svc, Phase::Idle, events, i + 1) == Action::ClearPending(v),
{
    lemma_step(svc, Phase::Idle, events, i);
    lemma_step(svc, Phase::Idle, events, i + 1);
}

} // verus!
