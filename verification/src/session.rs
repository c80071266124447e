//! The session controller: the life cycle of tracing in one process.
//!
//! A session starts unconfigured. The host asks for tracing by naming a store;
//! without one the session is disabled for good and every later call does
//! nothing. With one, the host resolves the two roots and opens the store,
//! and reports how that went. From then on each test is bracketed by
//! `test_start` and `test_end`, and the interpreter's trace hook feeds
//! `on_event` in between.
//!
//! The session performs no input or output. Each call says what the host has
//! to do next: open the store, install or remove the hook, flush a trace.

use vstd::prelude::*;
use crate::collector::{Collector, TestTrace, Trace, TraceEvent};
use crate::filter::{admits, LocationFilter};
use crate::location::Location;
use crate::store::StoreSettings;

verus! {

/// Where a session stands in its life cycle.
#[derive(Clone, Copy, Debug, PartialEq, Eq, Structural)]
pub enum Phase {
    /// Nothing was asked for yet.
    Unconfigured,
    /// Tracing was asked for; the host is resolving the roots and opening the
    /// store.
    Preparing,
    /// Tracing was not asked for. Nothing will ever be recorded.
    Disabled,
    /// Set up, and no test is running.
    Configured,
    /// A test is running and its lines are recorded.
    Armed,
}

/// Why setting up a session failed. Each of these is fatal to the setup.
#[derive(Clone, Copy, Debug, PartialEq, Eq, Structural)]
pub enum ConfigError {
    /// Tracing was asked for a second time.
    AlreadyConfigured,
    /// The host reported on a setup that was not asked for.
    NoSetupPending,
    /// A root path could not be resolved to a canonical path.
    UnresolvableRoot,
    /// The store could not be opened or created.
    StoreUnavailable,
}

/// What the host has to do with the interpreter's trace hook.
#[derive(Clone, Copy, Debug, PartialEq, Eq, Structural)]
pub enum HookAction {
    /// Install the hook: a test starts.
    Install,
    /// Remove the hook: a test ended.
    Uninstall,
    /// Leave the hook as it is.
    Leave,
}

/// What the host has to do after it asked for a configuration.
#[derive(Debug)]
pub enum SetupStep {
    /// Nothing: no store is opened and no root is resolved.
    Nothing,
    /// Resolve the two roots, open the store with these settings, and report
    /// with `complete_setup`.
    OpenStore(StoreSettings),
}

/// How the host fared with the setup it was asked to do.
#[derive(Debug)]
pub enum SetupOutcome {
    /// Both roots are resolved and the store is open.
    Ready { project_root: String, excluded_root: String },
    /// One of the roots could not be resolved.
    UnresolvableRoot,
    /// The store could not be opened or created.
    StoreUnavailable,
}

/// The mathematical value of a `SetupOutcome`.
pub enum SetupResult {
    Ready { project_root: Seq<char>, excluded_root: Seq<char> },
    UnresolvableRoot,
    StoreUnavailable,
}

impl View for SetupOutcome {
    type V = SetupResult;

    open spec fn view(&self) -> SetupResult {
        match self {
            SetupOutcome::Ready { project_root, excluded_root } => SetupResult::Ready {
                project_root: project_root@,
                excluded_root: excluded_root@,
            },
            SetupOutcome::UnresolvableRoot => SetupResult::UnresolvableRoot,
            SetupOutcome::StoreUnavailable => SetupResult::StoreUnavailable,
        }
    }
}

/// What the host has to do when a test has ended.
#[derive(Debug)]
pub struct TestEnd {
    /// What to do with the hook. It comes first: the store is written only
    /// once no further event can arrive.
    pub hook: HookAction,
    /// The trace to flush to the store, if a test was running.
    pub trace: Option<TestTrace>,
}

/// The mathematical value of a session.
pub struct SessionModel {
    pub phase: Phase,
    /// The frozen project root; empty until the session is configured.
    pub project_root: Seq<char>,
    /// The frozen excluded root; empty until the session is configured.
    pub excluded_root: Seq<char>,
    /// The trace of the running test.
    pub trace: Option<Trace>,
}

impl SessionModel {
    /// A session of which nothing was asked yet.
    pub open spec fn initial() -> SessionModel {
        SessionModel {
            phase: Phase::Unconfigured,
            project_root: Seq::empty(),
            excluded_root: Seq::empty(),
            trace: None,
        }
    }

    /// Whether the session is set up for tracing.
    pub open spec fn enabled(self) -> bool {
        self.phase == Phase::Configured || self.phase == Phase::Armed
    }

    /// Whether the session can never record anything unless tracing is asked
    /// for.
    pub open spec fn inert(self) -> bool {
        (self.phase == Phase::Unconfigured || self.phase == Phase::Disabled) && self.trace is None
    }

    /// Whether the filter of this session admits `file`.
    pub open spec fn admits(self, file: Seq<char>) -> bool {
        admits(self.project_root, self.excluded_root, file)
    }

    /// What holds of every session: a trace exists exactly while a test is
    /// running, and every location in it is one that the filter admits.
    pub open spec fn wf(self) -> bool {
        &&& self.phase == Phase::Armed <==> self.trace is Some
        &&& self.trace is Some ==> forall|i: int|
            0 <= i < self.trace->0.locations.len() ==> self.admits(
                #[trigger] self.trace->0.locations[i].file,
            )
    }

    /// The session after the host asked for a configuration. `requested`
    /// says whether a store was named.
    pub open spec fn after_configure(self, requested: bool) -> SessionModel {
        if self.phase == Phase::Unconfigured {
            SessionModel {
                phase: if requested {
                    Phase::Preparing
                } else {
                    Phase::Disabled
                },
                ..self
            }
        } else {
            self
        }
    }

    /// Whether asking for a configuration is refused: a store was named, and
    /// the session is not unconfigured any more.
    pub open spec fn refuses_configure(self, requested: bool) -> bool {
        requested && self.phase != Phase::Unconfigured
    }

    /// The session after the host reported on the setup.
    pub open spec fn after_setup(self, result: SetupResult) -> SessionModel {
        if self.phase == Phase::Preparing {
            match result {
                SetupResult::Ready { project_root, excluded_root } => SessionModel {
                    phase: Phase::Configured,
                    project_root,
                    excluded_root,
                    trace: None,
                },
                _ => SessionModel { phase: Phase::Unconfigured, ..self },
            }
        } else {
            self
        }
    }

    /// How the report on the setup is answered.
    pub open spec fn setup_answer(self, result: SetupResult) -> Result<(), ConfigError> {
        if self.phase != Phase::Preparing {
            Err(ConfigError::NoSetupPending)
        } else {
            match result {
                SetupResult::Ready { .. } => Ok(()),
                SetupResult::UnresolvableRoot => Err(ConfigError::UnresolvableRoot),
                SetupResult::StoreUnavailable => Err(ConfigError::StoreUnavailable),
            }
        }
    }

    /// The session after a test has started: armed, with an empty trace.
    pub open spec fn after_test_start(self, test_id: Seq<char>) -> SessionModel {
        if self.enabled() {
            SessionModel {
                phase: Phase::Armed,
                trace: Some(Trace { test_id, locations: Seq::empty() }),
                ..self
            }
        } else {
            self
        }
    }

    /// Whether an event is recorded: a test is running, the event is a line
    /// event, and the filter admits the file.
    pub open spec fn records(self, event: TraceEvent, file: Seq<char>) -> bool {
        self.trace is Some && event == TraceEvent::Line && self.admits(file)
    }

    /// The session after one event of the trace hook.
    pub open spec fn after_event(self, event: TraceEvent, file: Seq<char>, line: nat)
        -> SessionModel {
        if self.records(event, file) {
            SessionModel {
                trace: Some(
                    Trace {
                        test_id: self.trace->0.test_id,
                        locations: self.trace->0.locations.push(Location { file, line }),
                    },
                ),
                ..self
            }
        } else {
            self
        }
    }

    /// The session after a test has ended: configured, with no trace.
    pub open spec fn after_test_end(self) -> SessionModel {
        if self.enabled() {
            SessionModel { phase: Phase::Configured, trace: None, ..self }
        } else {
            self
        }
    }

    /// What the host does with the hook when a test starts.
    pub open spec fn hook_at_start(self) -> HookAction {
        if self.enabled() {
            HookAction::Install
        } else {
            HookAction::Leave
        }
    }

    /// What the host does with the hook when a test ends.
    pub open spec fn hook_at_end(self) -> HookAction {
        if self.enabled() {
            HookAction::Uninstall
        } else {
            HookAction::Leave
        }
    }
}

/// An event leaves a well-formed session well formed: what it appends is a
/// location that the filter admits.
pub proof fn lemma_event_preserves_wf(
    session: SessionModel,
    event: TraceEvent,
    file: Seq<char>,
    line: nat,
)
    requires
        session.wf(),
    ensures
        session.after_event(event, file, line).wf(),
{
    let next = session.after_event(event, file, line);
    if session.records(event, file) {
        let before = session.trace->0.locations;
        let after = next.trace->0.locations;
        assert forall|i: int| 0 <= i < after.len() implies next.admits(
            #[trigger] after[i].file,
        ) by {
            if i < before.len() {
                assert(after[i] == before[i]);
            }
        }
    }
}

enum Stage {
    Unconfigured,
    Preparing,
    Disabled,
    Ready { filter: LocationFilter, collector: Collector },
}

/// The session controller of one process.
pub struct Session {
    stage: Stage,
}

impl View for Session {
    type V = SessionModel;

    closed spec fn view(&self) -> SessionModel {
        match self.stage {
            Stage::Unconfigured => SessionModel::initial(),
            Stage::Preparing => SessionModel { phase: Phase::Preparing, ..SessionModel::initial() },
            Stage::Disabled => SessionModel { phase: Phase::Disabled, ..SessionModel::initial() },
            Stage::Ready { filter, collector } => SessionModel {
                phase: if collector@ is Some {
                    Phase::Armed
                } else {
                    Phase::Configured
                },
                project_root: filter.project_root(),
                excluded_root: filter.excluded_root(),
                trace: collector@,
            },
        }
    }
}

impl Session {
    #[verifier::type_invariant]
    spec fn inv(&self) -> bool {
        self@.wf()
    }

    /// A session of which nothing was asked yet.
    pub fn new() -> (session: Session)
        ensures
            session@ == SessionModel::initial(),
            session@.wf(),
    {
        Session { stage: Stage::Unconfigured }
    }

    /// Where the session stands.
    pub fn phase(&self) -> (phase: Phase)
        ensures
            phase == self@.phase,
            self@.wf(),
    {
        proof {
            use_type_invariant(self);
        }
        match &self.stage {
            Stage::Unconfigured => Phase::Unconfigured,
            Stage::Preparing => Phase::Preparing,
            Stage::Disabled => Phase::Disabled,
            Stage::Ready { collector, .. } => if collector.is_armed() {
                Phase::Armed
            } else {
                Phase::Configured
            },
        }
    }

    /// The host asks for a configuration, once per process. Without a store
    /// target tracing is switched off for good. With one, the host is told to
    /// open the store at that location; a second such request is refused.
    pub fn configure(&mut self, store_target: Option<String>) -> (step: Result<
        SetupStep,
        ConfigError,
    >)
        ensures
            final(self)@ == old(self)@.after_configure(store_target is Some),
            final(self)@.wf(),
            old(self)@.refuses_configure(store_target is Some) ==> step == Err::<
                SetupStep,
                ConfigError,
            >(ConfigError::AlreadyConfigured),
            !old(self)@.refuses_configure(store_target is Some) ==> match store_target {
                None => step matches Ok(SetupStep::Nothing),
                Some(location) => step matches Ok(SetupStep::OpenStore(settings))
                    && settings.is_standard_for(location@),
            },
    {
        proof {
            use_type_invariant(&*self);
        }
        match store_target {
            None => {
                match &self.stage {
                    Stage::Unconfigured => {
                        self.stage = Stage::Disabled;
                    },
                    _ => {},
                }
                Ok(SetupStep::Nothing)
            },
            Some(location) => {
                match &self.stage {
                    Stage::Unconfigured => {
                        self.stage = Stage::Preparing;
                        Ok(SetupStep::OpenStore(StoreSettings::standard(location)))
                    },
                    _ => Err(ConfigError::AlreadyConfigured),
                }
            },
        }
    }

    /// The host reports on the setup it was asked to do. On success the two
    /// roots are frozen and the session is configured. A failure is fatal to
    /// the setup: the session is unconfigured again.
    pub fn complete_setup(&mut self, outcome: SetupOutcome) -> (answer: Result<(), ConfigError>)
        ensures
            final(self)@ == old(self)@.after_setup(outcome@),
            final(self)@.wf(),
            answer == old(self)@.setup_answer(outcome@),
    {
        proof {
            use_type_invariant(&*self);
        }
        match &self.stage {
            Stage::Preparing => {},
            _ => {
                return Err(ConfigError::NoSetupPending);
            },
        }
        match outcome {
            SetupOutcome::Ready { project_root, excluded_root } => {
                self.stage = Stage::Ready {
                    filter: LocationFilter::new(project_root, excluded_root),
                    collector: Collector::new(),
                };
                Ok(())
            },
            SetupOutcome::UnresolvableRoot => {
                self.stage = Stage::Unconfigured;
                Err(ConfigError::UnresolvableRoot)
            },
            SetupOutcome::StoreUnavailable => {
                self.stage = Stage::Unconfigured;
                Err(ConfigError::StoreUnavailable)
            },
        }
    }

    /// A test is about to run. On a configured session its identifier is
    /// recorded, the buffer starts empty, and the host is told to install the
    /// hook. On any other session nothing happens.
    pub fn test_start(&mut self, test_id: &str) -> (hook: HookAction)
        ensures
            final(self)@ == old(self)@.after_test_start(test_id@),
            final(self)@.wf(),
            hook == old(self)@.hook_at_start(),
    {
        proof {
            use_type_invariant(&*self);
        }
        let mut stage = Stage::Unconfigured;
        core::mem::swap(&mut self.stage, &mut stage);
        let hook = match &mut stage {
            Stage::Ready { collector, .. } => {
                collector.arm(test_id);
                HookAction::Install
            },
            _ => HookAction::Leave,
        };
        self.stage = stage;
        hook
    }

    /// One event of the interpreter's trace hook. Returns whether the
    /// location was recorded. An event that is not recorded costs one
    /// comparison of prefixes at most.
    pub fn on_event(&mut self, event: TraceEvent, file: &str, line: usize) -> (recorded: bool)
        ensures
            final(self)@ == old(self)@.after_event(event, file@, line as nat),
            final(self)@.wf(),
            recorded == old(self)@.records(event, file@),
    {
        proof {
            use_type_invariant(&*self);
            lemma_event_preserves_wf(self@, event, file@, line as nat);
        }
        let wanted = match &self.stage {
            Stage::Ready { filter, collector } => collector.wants(filter, event, file),
            _ => false,
        };
        if !wanted {
            return false;
        }
        let mut stage = Stage::Unconfigured;
        core::mem::swap(&mut self.stage, &mut stage);
        match &mut stage {
            Stage::Ready { collector, .. } => {
                collector.append(file, line);
            },
            _ => {},
        }
        self.stage = stage;
        true
    }

    /// A test has run. On a configured session the host is told to remove
    /// the hook and is handed the trace of the test that was running, to
    /// flush it; the buffer and the recorded identifier are cleared. The
    /// trace is that of the test named at `test_start`, whatever `test_id`
    /// says.
    pub fn test_end(&mut self, test_id: &str) -> (end: TestEnd)
        ensures
            final(self)@ == old(self)@.after_test_end(),
            final(self)@.wf(),
            end.hook == old(self)@.hook_at_end(),
            match old(self)@.trace {
                Some(trace) => end.trace is Some && end.trace->0@ == trace,
                None => end.trace is None,
            },
    {
        proof {
            use_type_invariant(&*self);
        }
        let _ = test_id;
        let mut stage = Stage::Unconfigured;
        core::mem::swap(&mut self.stage, &mut stage);
        let end = match &mut stage {
            Stage::Ready { collector, .. } => {
                let trace = collector.disarm();
                TestEnd { hook: HookAction::Uninstall, trace }
            },
            _ => TestEnd { hook: HookAction::Leave, trace: None },
        };
        self.stage = stage;
        end
    }

    /// Ends a test that the host ran itself, with the outcome of its body.
    /// The outcome comes back as it was given, and the trace is handed out
    /// for flushing whether the body succeeded or failed: the host flushes
    /// first and reports the outcome after.
    pub fn finish_run<T, E>(&mut self, test_id: &str, outcome: Result<T, E>) -> (done: (
        TestEnd,
        Result<T, E>,
    ))
        ensures
            final(self)@ == old(self)@.after_test_end(),
            final(self)@.wf(),
            done.0.hook == old(self)@.hook_at_end(),
            match old(self)@.trace {
                Some(trace) => done.0.trace is Some && done.0.trace->0@ == trace,
                None => done.0.trace is None,
            },
            done.1 == outcome,
    {
        let end = self.test_end(test_id);
        (end, outcome)
    }
}

} // verus!
