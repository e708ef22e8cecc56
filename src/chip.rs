//! The chip's servicing loop, as a state machine. The caller performs each
//! action the machine asks for (taking a deferred call, asking the interrupt
//! controller for a vector, running a handler, re-arming a vector) and hands
//! back what came of it; the machine decides what happens next.

use vstd::prelude::*;
use crate::peripheral::{task_handler, DeferredCallTask, Peripheral};
use crate::router::{arbitrate, arbitration, Dispatch, InterruptServiceTrait, Route};

verus! {

/// What the caller reports back to the servicing loop.
#[derive(Clone, Copy, Debug, PartialEq, Eq, Structural)]
pub enum Event {
    /// The scheduler entered the servicing loop.
    Begin,
    /// The deferred-call queue's answer to `TakeDeferred`: the token taken,
    /// or `None` when nothing was pending.
    Deferred(Option<DeferredCallTask>),
    /// The interrupt controller's answer to `NextVector`.
    Vector(Option<u32>),
    /// Whether each member of the queried shared group reports enabled.
    Enabled(bool, bool),
    /// The requested action was carried out.
    Done,
}

/// What the servicing loop asks the caller to do next.
#[derive(Clone, Copy, Debug, PartialEq, Eq, Structural)]
pub enum Action {
    /// Take and clear one pending deferred-call token, if any.
    TakeDeferred,
    /// Ask the interrupt controller for the next pending vector, if any.
    NextVector,
    /// Read `is_enabled` of both members of a shared group.
    QueryEnabled(Peripheral, Peripheral),
    /// Run this peripheral's `handle_interrupt`.
    Handle(Peripheral),
    /// Emit a non-fatal diagnostic: this vector is not supported.
    ReportUnsupported(u32),
    /// Clear the vector's pending bit.
    ClearPending(u32),
    /// Re-enable the vector.
    Enable(u32),
    /// Both members of a shared group are enabled: stop hard.
    Fatal(Peripheral, Peripheral),
    /// Both sources are empty: return to the scheduler.
    Finish,
}

/// Where the servicing loop stands between two steps.
#[derive(Clone, Copy, Debug, PartialEq, Eq, Structural)]
pub enum Phase {
    /// Outside the loop.
    Idle,
    /// Waiting for the deferred-call queue's answer.
    AwaitDeferred,
    /// A deferred task's handler is running.
    RunningTask,
    /// Waiting for the interrupt controller's answer.
    AwaitVector,
    /// Vector taken; waiting for the enabled state of its shared group.
    AwaitShared(u32, Peripheral, Peripheral),
    /// The vector's handler or diagnostic is under way.
    Serviced(u32),
    /// The vector's pending bit is being cleared.
    Clearing(u32),
    /// The vector is being re-enabled.
    Enabling(u32),
    /// A shared group was found with both members enabled.
    Halted(Peripheral, Peripheral),
}

/// Whether `event` answers what the loop waits for in `phase`. Nothing is
/// accepted once the loop has halted.
pub open spec fn accepts(phase: Phase, event: Event) -> bool {
    match (phase, event) {
        (Phase::Idle, Event::Begin) => true,
        (Phase::AwaitDeferred, Event::Deferred(_)) => true,
        (Phase::RunningTask, Event::Done) => true,
        (Phase::AwaitVector, Event::Vector(_)) => true,
        (Phase::AwaitShared(_, _, _), Event::Enabled(_, _)) => true,
        (Phase::Serviced(_), Event::Done) => true,
        (Phase::Clearing(_), Event::Done) => true,
        (Phase::Enabling(_), Event::Done) => true,
        _ => false,
    }
}

/// One step of the servicing loop: the next phase and the action asked for.
/// Deferred calls are drained before any vector is taken; every vector taken
/// is cleared and re-enabled, recognized or not, before the queue is polled
/// again; the loop finishes only when the queue and then the controller both
/// came back empty.
pub open spec fn transition<S: InterruptServiceTrait>(svc: &S, phase: Phase, event: Event) -> (Phase, Action)
    recommends
        accepts(phase, event),
{
    match (phase, event) {
        (Phase::Idle, Event::Begin) => (Phase::AwaitDeferred, Action::TakeDeferred),
        (Phase::AwaitDeferred, Event::Deferred(Some(t))) => (Phase::RunningTask, Action::Handle(task_handler(t))),
        (Phase::AwaitDeferred, Event::Deferred(None)) => (Phase::AwaitVector, Action::NextVector),
        (Phase::RunningTask, Event::Done) => (Phase::AwaitDeferred, Action::TakeDeferred),
        (Phase::AwaitVector, Event::Vector(Some(v))) => match svc.route_of(v) {
            None => (Phase::Serviced(v), Action::ReportUnsupported(v)),
            Some(Route::Single(p)) => (Phase::Serviced(v), Action::Handle(p)),
            Some(Route::Shared(a, b)) => (Phase::AwaitShared(v, a, b), Action::QueryEnabled(a, b)),
        },
        (Phase::AwaitVector, Event::Vector(None)) => (Phase::Idle, Action::Finish),
        (Phase::AwaitShared(v, a, b), Event::Enabled(ea, eb)) => match arbitration(a, b, ea, eb) {
            Dispatch::Handle(p) => (Phase::Serviced(v), Action::Handle(p)),
            Dispatch::Spurious => (Phase::Clearing(v), Action::ClearPending(v)),
            Dispatch::Conflict(x, y) => (Phase::Halted(x, y), Action::Fatal(x, y)),
        },
        (Phase::Serviced(v), Event::Done) => (Phase::Clearing(v), Action::ClearPending(v)),
        (Phase::Clearing(v), Event::Done) => (Phase::Enabling(v), Action::Enable(v)),
        (Phase::Enabling(v), Event::Done) => (Phase::AwaitDeferred, Action::TakeDeferred),
        // Refused by `accepts`: `step` never takes such an event.
        _ => (phase, Action::Finish),
    }
}

/// The nRF52 chip's interrupt handling: the interrupt service chosen at boot,
/// and where the servicing loop stands.
pub struct NRF52<S: InterruptServiceTrait> {
    interrupt_service: S,
    phase: Phase,
}

impl<S: InterruptServiceTrait> NRF52<S> {
    /// The interrupt service, fixed at construction.
    pub closed spec fn service(&self) -> S {
        self.interrupt_service
    }

    /// Where the servicing loop stands.
    pub closed spec fn phase(&self) -> Phase {
        self.phase
    }

    /// A chip that routes vectors through `interrupt_service`, outside the
    /// servicing loop.
    pub fn new(interrupt_service: S) -> (c: NRF52<S>)
        ensures
            c.service() == interrupt_service,
            c.phase() == Phase::Idle,
    {
        NRF52 { interrupt_service, phase: Phase::Idle }
    }

    /// Whether there is work to service: a deferred call is pending or the
    /// interrupt controller has a pending vector.
    pub fn has_pending_interrupts(&self, nvic_has_pending: bool, deferred_has_tasks: bool) -> (r: bool)
        ensures
            r == (nvic_has_pending || deferred_has_tasks),
    {
        nvic_has_pending || deferred_has_tasks
    }

    /// Whether the servicing loop takes `event` now.
    pub fn accepts(&self, event: Event) -> (r: bool)
        ensures
            r == accepts(self.phase(), event),
    {
        match (self.phase, event) {
            (Phase::Idle, Event::Begin) => true,
            (Phase::AwaitDeferred, Event::Deferred(_)) => true,
            (Phase::RunningTask, Event::Done) => true,
            (Phase::AwaitVector, Event::Vector(_)) => true,
            (Phase::AwaitShared(_, _, _), Event::Enabled(_, _)) => true,
            (Phase::Serviced(_), Event::Done) => true,
            (Phase::Clearing(_), Event::Done) => true,
            (Phase::Enabling(_), Event::Done) => true,
            _ => false,
        }
    }

    /// Advances the servicing loop by `event` and returns what to do next.
    pub fn step(&mut self, event: Event) -> (a: Action)
        requires
            accepts(old(self).phase(), event),
        ensures
            (final(self).phase(), a) == transition(&old(self).service(), old(self).phase(), event),
            final(self).service() == old(self).service(),
    {
        let (next, action) = match (self.phase, event) {
            (Phase::Idle, Event::Begin) => (Phase::AwaitDeferred, Action::TakeDeferred),
            (Phase::AwaitDeferred, Event::Deferred(Some(t))) => (Phase::RunningTask, Action::Handle(t.handler())),
            (Phase::AwaitDeferred, Event::Deferred(None)) => (Phase::AwaitVector, Action::NextVector),
            (Phase::RunningTask, Event::Done) => (Phase::AwaitDeferred, Action::TakeDeferred),
            (Phase::AwaitVector, Event::Vector(Some(v))) => match self.interrupt_service.service_interrupt(v) {
                None => (Phase::Serviced(v), Action::ReportUnsupported(v)),
                Some(Route::Single(p)) => (Phase::Serviced(v), Action::Handle(p)),
                Some(Route::Shared(a, b)) => (Phase::AwaitShared(v, a, b), Action::QueryEnabled(a, b)),
            },
            (Phase::AwaitVector, Event::Vector(None)) => (Phase::Idle, Action::Finish),
            (Phase::AwaitShared(v, a, b), Event::Enabled(ea, eb)) => match arbitrate(a, b, ea, eb) {
                Dispatch::Handle(p) => (Phase::Serviced(v), Action::Handle(p)),
                Dispatch::Spurious => (Phase::Clearing(v), Action::ClearPending(v)),
                Dispatch::Conflict(x, y) => (Phase::Halted(x, y), Action::Fatal(x, y)),
            },
            (Phase::Serviced(v), Event::Done) => (Phase::Clearing(v), Action::ClearPending(v)),
            (Phase::Clearing(v), Event::Done) => (Phase::Enabling(v), Action::Enable(v)),
            (Phase::Enabling(v), Event::Done) => (Phase::AwaitDeferred, Action::TakeDeferred),
            _ => (self.phase, Action::Finish),
        };
        self.phase = next;
        action
    }
}

} // verus!
