//! What holds of the lifecycle state machine and of the recovery
//! coordinator in general, proved over their mathematical models.

use vstd::prelude::*;
use crate::device::{health_result, probe_result};
use crate::lifecycle::{Lifecycle, LifecycleEventView, LifecycleState};
use crate::recovery::Coordinator;
use crate::wait::{WaitOutcomeView, RAW_SUCCESS, RAW_TIMEOUT};

verus! {

/// A probe of a device that answers the wait with success or with an
/// elapsed deadline ends as signaled or timed out, and the device passes as
/// healthy.
pub proof fn lemma_probe_of_live_device(code: i32)
    requires
        code == RAW_SUCCESS || code == RAW_TIMEOUT,
    ensures
        probe_result(Ok(code)) is Signaled || probe_result(Ok(code)) is TimedOut,
        health_result(probe_result(Ok(code))) is Ok,
{
}

/// Every transition keeps the flags consistent with the state: an event,
/// a write of the recreation flag, and the start of a recreation.
pub proof fn lemma_transitions_keep_consistency(
    m: Lifecycle,
    event: LifecycleEventView,
    value: bool,
)
    requires
        m.wf(),
    ensures
        m.next(event).wf(),
        m.with_needs_recreation(value).wf(),
        m.begin_recreation().wf(),
{
}

/// Outside a recreation in flight, the device needs recreation if and only
/// if it is lost or has resumed from suspension.
pub proof fn lemma_needs_recreation_iff_lost_or_resumed(m: Lifecycle)
    requires
        m.wf(),
        !(m.state is Recreating),
    ensures
        m.needs_recreation <==> (m.state is Lost || m.state is SuspendedAwaitingResume),
{
}

/// The machine after a sequence of events, applied in order.
pub open spec fn after_events(m: Lifecycle, events: Seq<LifecycleEventView>) -> Lifecycle
    decreases events.len(),
{
    if events.len() == 0 {
        m
    } else {
        after_events(m.next(events[0]), events.subrange(1, events.len() as int))
    }
}

/// Events alone never put a recreation in flight: from a consistent machine
/// that is not recreating, every sequence of events leads to a consistent
/// machine that is not recreating, in which the device needs recreation if
/// and only if it is lost or has resumed from suspension.
pub proof fn lemma_events_never_start_a_recreation(m: Lifecycle, events: Seq<LifecycleEventView>)
    requires
        m.wf(),
        !(m.state is Recreating),
    ensures
        after_events(m, events).wf(),
        !(after_events(m, events).state is Recreating),
        after_events(m, events).needs_recreation <==> (after_events(m, events).state is Lost
            || after_events(m, events).state is SuspendedAwaitingResume),
    decreases events.len(),
{
    if events.len() > 0 {
        lemma_events_never_start_a_recreation(
            m.next(events[0]),
            events.subrange(1, events.len() as int),
        );
    }
}

/// In every state that events reach from the initial one, the device needs
/// recreation if and only if it is lost or has resumed from suspension.
pub proof fn lemma_needs_recreation_in_every_reached_state(events: Seq<LifecycleEventView>)
    ensures
        after_events(Lifecycle::initial(), events).wf(),
        after_events(Lifecycle::initial(), events).needs_recreation <==> (after_events(
            Lifecycle::initial(),
            events,
        ).state is Lost || after_events(
            Lifecycle::initial(),
            events,
        ).state is SuspendedAwaitingResume),
{
    lemma_events_never_start_a_recreation(Lifecycle::initial(), events);
}

/// The rows of the transition table.
pub proof fn lemma_transition_table(m: Lifecycle, outcome: WaitOutcomeView)
    requires
        m.wf(),
    ensures
        m.state is Healthy ==> m.power_signal(true) == (Lifecycle {
            state: LifecycleState::Suspending,
            is_suspending: true,
            needs_recreation: false,
        }),
        m.state is Suspending ==> m.power_signal(false) == (Lifecycle {
            state: LifecycleState::SuspendedAwaitingResume,
            is_suspending: false,
            needs_recreation: true,
        }),
        m.state is Healthy && !(outcome is DeviceLost) ==> m.health_checked(outcome) == m,
        m.state is Healthy && outcome is DeviceLost ==> m.health_checked(outcome) == (Lifecycle {
            state: LifecycleState::Lost,
            is_suspending: false,
            needs_recreation: true,
        }),
        (m.state is Lost || m.state is SuspendedAwaitingResume) && !m.is_suspending
            ==> m.recreation_result(true) == Lifecycle::initial(),
        m.recreation_result(false).state is Lost,
        m.recreation_result(false).needs_recreation,
        m.recreation_result(false).is_suspending == m.is_suspending,
{
}

/// A suspend announcement makes the very next decision skip the frame,
/// whatever the state was.
pub proof fn lemma_suspend_skips_frame(m: Lifecycle)
    ensures
        m.power_signal(true).is_suspending,
        m.power_signal(true).decision() is SkipFrame,
{
}

/// A repeated suspend announcement changes nothing.
pub proof fn lemma_duplicate_suspend_is_idle(m: Lifecycle)
    ensures
        m.power_signal(true).power_signal(true) == m.power_signal(true),
{
}

/// A resume demands recreation: unless a recreation is in flight, the next
/// decision after it asks for one, with or without a suspend before it.
pub proof fn lemma_resume_requires_recreation(m: Lifecycle)
    requires
        !(m.state is Recreating),
    ensures
        m.power_signal(false).needs_recreation,
        m.power_signal(false).decision() is RequireRecreationThenRender,
        m.power_signal(true).power_signal(false).needs_recreation,
        m.power_signal(true).power_signal(false).decision() is RequireRecreationThenRender,
{
}

/// The rules of the per-frame decision: a suspending device skips the
/// frame whatever else holds; otherwise a device that needs recreation asks
/// for it, unless a recreation is already in flight; a resumed device on
/// which no recreation is requested skips the frame; and rendering is
/// allowed only on a healthy device with no flag set.
pub proof fn lemma_decision_rules(m: Lifecycle)
    ensures
        m.is_suspending ==> m.decision() is SkipFrame,
        m.state is Recreating ==> m.decision() is SkipFrame,
        !m.is_suspending && m.needs_recreation && !(m.state is Recreating)
            ==> m.decision() is RequireRecreationThenRender,
        m.state is SuspendedAwaitingResume && !m.needs_recreation ==> m.decision() is SkipFrame,
        m.decision() is Render <==> m == Lifecycle::initial(),
{
}

/// A health check that does not find the device lost changes nothing:
/// timeouts and backend errors never escalate.
pub proof fn lemma_only_loss_escalates(m: Lifecycle, outcome: WaitOutcomeView)
    ensures
        !(outcome is DeviceLost) ==> m.health_checked(outcome) == m,
        outcome is DeviceLost ==> m.health_checked(outcome).needs_recreation,
        outcome is DeviceLost && m.wf() ==> !(m.health_checked(outcome).decision() is Render),
{
}

/// A successful recreation makes the device healthy, and the next decision
/// is to render, unless a suspend is announced or a resume arrived while
/// the recreation was in flight. Marking the start of a recreation that the
/// decision asks for does not change where its success leads.
pub proof fn lemma_successful_recreation_restores_rendering(m: Lifecycle)
    requires
        m.wf(),
        !m.is_suspending,
        !(m.state is Recreating && m.needs_recreation),
    ensures
        m.recreation_result(true) == Lifecycle::initial(),
        m.recreation_result(true).decision() is Render,
        m.decision() is RequireRecreationThenRender ==> m.begin_recreation().state is Recreating
            && m.begin_recreation().recreation_result(true) == Lifecycle::initial(),
{
}

/// A failed recreation leaves the device lost and in need of recreation,
/// whatever the state was, and the next decision is not to render.
pub proof fn lemma_failed_recreation_stays_lost(m: Lifecycle)
    ensures
        m.recreation_result(false).state is Lost,
        m.recreation_result(false).needs_recreation,
        m.recreation_result(false).is_suspending == m.is_suspending,
        !(m.recreation_result(false).decision() is Render),
        !m.is_suspending ==> m.recreation_result(false).decision() is RequireRecreationThenRender,
        m.begin_recreation().recreation_result(false) == m.recreation_result(false),
{
}

/// A power notification that arrives while a recreation is in flight is
/// not lost: once the recreation has ended, the machine stands where it
/// would stand had the notification arrived just after the end.
pub proof fn lemma_signal_during_recreation_is_replayed(m: Lifecycle, start: bool, ok: bool)
    requires
        m.state is Recreating,
    ensures
        m.power_signal(start).state is Recreating,
        m.power_signal(start).recreation_result(ok) == m.recreation_result(ok).power_signal(
            start,
        ),
{
}

/// Every step of the coordinator keeps it consistent.
pub proof fn lemma_steps_keep_consistency(c: Coordinator, event: LifecycleEventView)
    requires
        c.wf(),
    ensures
        c.step(event).wf(),
        c.loss_noted().wf(),
        c.begin_recreation().wf(),
{
}

/// A successful recreation closes the loss that was being handled; a failed
/// one and a power notification leave it as it was.
pub proof fn lemma_success_closes_the_loss(c: Coordinator, start: bool)
    ensures
        !c.recreation_result(true).loss_handled,
        c.recreation_result(false).loss_handled == c.loss_handled,
        c.power_signal(start).loss_handled == c.loss_handled,
        c.recreation_result(true).loss_plan() is Some,
{
}

/// Only a health check that finds the device lost asks the host for work;
/// power notifications and recreation results never do.
pub proof fn lemma_only_loss_asks_for_work(c: Coordinator, event: LifecycleEventView)
    requires
        c.step_plan(event) is Some,
    ensures
        event is HealthCheck,
        event->HealthCheck_0 is DeviceLost,
        !c.loss_handled,
{
}

/// A loss found on a device that is believed usable is never ignored: it
/// asks the host for work and marks the device for recreation.
pub proof fn lemma_loss_is_never_ignored(c: Coordinator)
    requires
        c.wf(),
        c.lifecycle.state is Healthy || c.lifecycle.state is Suspending,
    ensures
        c.health_plan(WaitOutcomeView::DeviceLost) is Some,
        c.health_checked(WaitOutcomeView::DeviceLost).lifecycle.state is Lost,
        c.health_checked(WaitOutcomeView::DeviceLost).lifecycle.needs_recreation,
{
}

/// The coordinator after a sequence of events, applied in order.
pub open spec fn run(c: Coordinator, events: Seq<LifecycleEventView>) -> Coordinator
    decreases events.len(),
{
    if events.len() == 0 {
        c
    } else {
        run(c.step(events[0]), events.subrange(1, events.len() as int))
    }
}

/// How many times a sequence of events asks the host for work, which is
/// how many snapshots are captured and persisted and how many
/// notifications are shown.
pub open spec fn plans_issued(c: Coordinator, events: Seq<LifecycleEventView>) -> nat
    decreases events.len(),
{
    if events.len() == 0 {
        0
    } else {
        let first: nat = if c.step_plan(events[0]) is Some {
            1
        } else {
            0
        };
        first + plans_issued(c.step(events[0]), events.subrange(1, events.len() as int))
    }
}

/// Whether no event of the sequence is a successful recreation.
pub open spec fn no_recreation_succeeds(events: Seq<LifecycleEventView>) -> bool {
    forall|i: int|
        0 <= i < events.len() ==> #[trigger] events[i] != LifecycleEventView::RecreationResult(
            true,
        )
}

/// Whether some event of the sequence is a health check that finds the
/// device lost.
pub open spec fn loss_observed(events: Seq<LifecycleEventView>) -> bool {
    exists|i: int|
        0 <= i < events.len() && #[trigger] events[i] == LifecycleEventView::HealthCheck(
            WaitOutcomeView::DeviceLost,
        )
}

/// One loss is handled once. Over any sequence of events in which no
/// recreation succeeds, the host is asked for work at most once, however
/// often the loss is observed again; not at all once the loss has been
/// handled; and exactly once where a loss is observed and had not been
/// handled before.
pub proof fn lemma_one_loss_is_handled_once(c: Coordinator, events: Seq<LifecycleEventView>)
    requires
        c.wf(),
        no_recreation_succeeds(events),
    ensures
        run(c, events).wf(),
        plans_issued(c, events) <= 1,
        c.loss_handled ==> plans_issued(c, events) == 0 && run(c, events).loss_handled,
        !c.loss_handled && loss_observed(events) ==> plans_issued(c, events) == 1,
        !c.loss_handled && !loss_observed(events) ==> plans_issued(c, events) == 0,
    decreases events.len(),
{
    if events.len() > 0 {
        let first = events[0];
        let rest = events.subrange(1, events.len() as int);
        assert forall|i: int| 0 <= i < rest.len() implies #[trigger] rest[i]
            != LifecycleEventView::RecreationResult(true) by {
            assert(rest[i] == events[i + 1]);
        }
        lemma_one_loss_is_handled_once(c.step(first), rest);
        let lost = LifecycleEventView::HealthCheck(WaitOutcomeView::DeviceLost);
        if first != lost {
            if loss_observed(events) {
                let i = choose|i: int| 0 <= i < events.len() && #[trigger] events[i] == lost;
                assert(rest[i - 1] == events[i]);
                assert(loss_observed(rest));
            }
            if loss_observed(rest) {
                let j = choose|j: int| 0 <= j < rest.len() && #[trigger] rest[j] == lost;
                assert(events[j + 1] == rest[j]);
                assert(loss_observed(events));
            }
        } else {
            assert(events[0] == lost);
        }
    }
}

} // verus!
