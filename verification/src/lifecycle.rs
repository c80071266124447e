//! The session as a state machine over the calls of its host, and what holds
//! of every run of it.

use vstd::prelude::*;
use crate::collector::{Trace, TraceEvent};
use crate::filter::admits;
use crate::location::Location;
use crate::session::{lemma_event_preserves_wf, HookAction, Phase, SessionModel, SetupResult};

verus! {

/// One event as the trace hook reports it.
pub struct Observation {
    pub event: TraceEvent,
    pub file: Seq<char>,
    pub line: nat,
}

/// One call that the host makes on a session.
pub enum HostCall {
    /// `configure`; `requested` says whether a store was named.
    Configure { requested: bool },
    /// `complete_setup`.
    CompleteSetup(SetupResult),
    /// `test_start`.
    TestStart(Seq<char>),
    /// `on_event`.
    Event(Observation),
    /// `test_end`.
    TestEnd,
}

/// The session after one call.
pub open spec fn step(session: SessionModel, call: HostCall) -> SessionModel {
    match call {
        HostCall::Configure { requested } => session.after_configure(requested),
        HostCall::CompleteSetup(result) => session.after_setup(result),
        HostCall::TestStart(test_id) => session.after_test_start(test_id),
        HostCall::Event(seen) => session.after_event(seen.event, seen.file, seen.line),
        HostCall::TestEnd => session.after_test_end(),
    }
}

/// The session after a sequence of calls.
pub open spec fn run(session: SessionModel, calls: Seq<HostCall>) -> SessionModel
    decreases calls.len(),
{
    if calls.len() == 0 {
        session
    } else {
        step(run(session, calls.drop_last()), calls.last())
    }
}

/// What the host is told to do with the hook by one call.
pub open spec fn hook_action(session: SessionModel, call: HostCall) -> HookAction {
    match call {
        HostCall::TestStart(_) => session.hook_at_start(),
        HostCall::TestEnd => session.hook_at_end(),
        _ => HookAction::Leave,
    }
}

/// Whether one call tells the host to open the store.
pub open spec fn opens_store(session: SessionModel, call: HostCall) -> bool {
    call matches HostCall::Configure { requested } && requested && !session.refuses_configure(
        requested,
    )
}

/// The session after a sequence of events of the trace hook.
pub open spec fn observe(session: SessionModel, events: Seq<Observation>) -> SessionModel
    decreases events.len(),
{
    if events.len() == 0 {
        session
    } else {
        let seen = events.last();
        observe(session, events.drop_last()).after_event(seen.event, seen.file, seen.line)
    }
}

/// The locations of the line events whose file the two roots admit, in the
/// order of the events.
pub open spec fn admitted_lines(
    project_root: Seq<char>,
    excluded_root: Seq<char>,
    events: Seq<Observation>,
) -> Seq<Location> {
    events.filter(
        |seen: Observation|
            seen.event == TraceEvent::Line && admits(project_root, excluded_root, seen.file),
    ).map_values(|seen: Observation| Location { file: seen.file, line: seen.line })
}

/// No call makes a well-formed session ill-formed: in every state that a
/// session reaches, each buffered location is one that the filter admits.
pub proof fn lemma_step_preserves_wf(session: SessionModel, call: HostCall)
    requires
        session.wf(),
    ensures
        step(session, call).wf(),
{
    match call {
        HostCall::Event(seen) => {
            lemma_event_preserves_wf(session, seen.event, seen.file, seen.line);
        },
        _ => {},
    }
}

/// Whatever the host calls, from the start on, only locations that the
/// filter admits are ever in the buffer.
pub proof fn lemma_only_admitted_locations_buffered(calls: Seq<HostCall>)
    ensures
        run(SessionModel::initial(), calls).wf(),
    decreases calls.len(),
{
    if calls.len() > 0 {
        lemma_only_admitted_locations_buffered(calls.drop_last());
        lemma_step_preserves_wf(run(SessionModel::initial(), calls.drop_last()), calls.last());
    }
}

/// While a test runs, its buffer grows by exactly the line events whose file
/// the filter admits, in order and with repetitions; nothing else changes.
pub proof fn lemma_buffer_is_admitted_lines(session: SessionModel, events: Seq<Observation>)
    requires
        session.trace is Some,
    ensures
        observe(session, events) == (SessionModel {
            trace: Some(
                Trace {
                    test_id: session.trace->0.test_id,
                    locations: session.trace->0.locations + admitted_lines(
                        session.project_root,
                        session.excluded_root,
                        events,
                    ),
                },
            ),
            ..session
        }),
    decreases events.len(),
{
    let kept = |seen: Observation|
        seen.event == TraceEvent::Line && admits(
            session.project_root,
            session.excluded_root,
            seen.file,
        );
    let place = |seen: Observation| Location { file: seen.file, line: seen.line };
    reveal(Seq::filter);
    if events.len() == 0 {
        assert(events.filter(kept).map_values(place) =~= Seq::<Location>::empty());
        assert(session.trace->0.locations + Seq::<Location>::empty()
            =~= session.trace->0.locations);
    } else {
        let earlier = events.drop_last();
        let seen = events.last();
        lemma_buffer_is_admitted_lines(session, earlier);
        let before = observe(session, earlier);
        if kept(seen) {
            assert(events.filter(kept) == earlier.filter(kept).push(seen));
            assert(events.filter(kept).map_values(place) =~= earlier.filter(kept).map_values(
                place,
            ).push(place(seen)));
            assert(before.trace->0.locations.push(place(seen)) =~= session.trace->0.locations
                + admitted_lines(session.project_root, session.excluded_root, events));
        } else {
            assert(events.filter(kept) == earlier.filter(kept));
        }
    }
}

/// The buffer of a test holds nothing of the test before it: after one test
/// has ended and the next has started, the buffer is exactly what the filter
/// admits of the events that follow.
pub proof fn lemma_buffer_isolation(
    session: SessionModel,
    next_test: Seq<char>,
    events: Seq<Observation>,
)
    requires
        session.enabled(),
    ensures
        observe(session.after_test_end().after_test_start(next_test), events).trace == Some(
            Trace {
                test_id: next_test,
                locations: admitted_lines(session.project_root, session.excluded_root, events),
            },
        ),
{
    let started = session.after_test_end().after_test_start(next_test);
    lemma_buffer_is_admitted_lines(started, events);
    assert(Seq::<Location>::empty() + admitted_lines(
        session.project_root,
        session.excluded_root,
        events,
    ) =~= admitted_lines(session.project_root, session.excluded_root, events));
}

/// As long as no store is named, a session stays inert under every call: it
/// never tells the host to open the store or to touch the hook, and it
/// records nothing.
pub proof fn lemma_inert_step(session: SessionModel, call: HostCall)
    requires
        session.inert(),
        !(call matches HostCall::Configure { requested } && requested),
    ensures
        step(session, call).inert(),
        hook_action(session, call) == HookAction::Leave,
        !opens_store(session, call),
{
}

/// Whether no call of the sequence names a store.
pub open spec fn names_no_store(calls: Seq<HostCall>) -> bool {
    forall|i: int|
        0 <= i < calls.len() ==> !(#[trigger] calls[i] matches HostCall::Configure { requested }
            && requested)
}

/// A host that never names a store never gets a session to do anything:
/// whatever else it calls, from the start on, the session stays inert, no
/// call tells the host to open the store, and none tells it to touch the
/// hook.
pub proof fn lemma_inert_without_store_target(calls: Seq<HostCall>)
    requires
        names_no_store(calls),
    ensures
        run(SessionModel::initial(), calls).inert(),
        forall|i: int|
            0 <= i < calls.len() ==> {
                let before = #[trigger] run(SessionModel::initial(), calls.take(i));
                &&& before.inert()
                &&& hook_action(before, calls[i]) == HookAction::Leave
                &&& !opens_store(before, calls[i])
            },
    decreases calls.len(),
{
    if calls.len() > 0 {
        let earlier = calls.drop_last();
        assert(names_no_store(earlier)) by {
            assert forall|i: int| 0 <= i < earlier.len() implies !(#[trigger] earlier[i]
                matches HostCall::Configure { requested } && requested) by {
                assert(earlier[i] == calls[i]);
            }
        }
        lemma_inert_without_store_target(earlier);
        lemma_inert_step(run(SessionModel::initial(), earlier), calls.last());
        assert forall|i: int| 0 <= i < calls.len() implies {
            let before = #[trigger] run(SessionModel::initial(), calls.take(i));
            &&& before.inert()
            &&& hook_action(before, calls[i]) == HookAction::Leave
            &&& !opens_store(before, calls[i])
        } by {
            if i < earlier.len() {
                assert(calls.take(i) =~= earlier.take(i));
                assert(calls[i] == earlier[i]);
            } else {
                assert(calls.take(i) =~= earlier);
            }
        }
    }
}

/// A session without tracing stays so for good: whatever the host calls,
/// a store target too, the session remains disabled, opens no store and
/// leaves the hook alone.
pub proof fn lemma_disabled_is_permanent(session: SessionModel, call: HostCall)
    requires
        session.wf(),
        session.phase == Phase::Disabled,
    ensures
        step(session, call) == session,
        hook_action(session, call) == HookAction::Leave,
        !opens_store(session, call),
{
}

/// Once a session is configured, no call changes its two roots or takes its
/// configuration away.
pub proof fn lemma_roots_are_frozen(session: SessionModel, call: HostCall)
    requires
        session.enabled(),
    ensures
        step(session, call).enabled(),
        step(session, call).project_root == session.project_root,
        step(session, call).excluded_root == session.excluded_root,
{
}

} // verus!
