//! Graceful-shutdown coordination.
//!
//! A [`ShutdownCoordinator`] races a set of termination signal sources and
//! produces a single cancellation event. The host process installs the OS
//! handlers, suspends on the race, and reports each event here; the
//! coordinator decides every transition, so the decisions are verified:
//! exactly one terminal transition occurs per coordinator, however many
//! sources fire and in whatever order, and teardown is requested at most
//! once.

use vstd::prelude::*;

verus! {

/// A kind of termination signal source.
#[derive(Clone, Copy, Debug, PartialEq, Eq, Structural)]
pub enum SourceKind {
    /// An interactive interrupt request.
    Interrupt,
    /// A process termination request.
    Terminate,
    /// A stand-in arm that never fires, used on platforms that lack a
    /// signal type so that the race keeps a fixed shape.
    NeverFires,
}

/// The phase of a coordinator. Only `Idle -> Waiting` and
/// `Waiting -> Firing -> Done` transitions exist; none returns to `Idle`.
#[derive(Clone, Copy, Debug, PartialEq, Eq, Structural)]
pub enum Phase {
    /// Created; sources may still be registered.
    Idle,
    /// The consumer suspends until a source fires.
    Waiting,
    /// A source fired; teardown is in progress.
    Firing,
    /// Teardown finished or was abandoned; the terminal event was
    /// delivered.
    Done,
}

/// What the host must do after reporting a signal-source firing.
#[derive(Clone, Copy, Debug, PartialEq, Eq, Structural)]
pub enum SignalAction {
    /// This firing won the race: run the teardown hook, bounded by the
    /// configured timeout, then report completion.
    RunTeardown,
    /// A terminal transition already happened; this firing is a no-op.
    Ignore,
}

/// What the host must do when the consumer calls `wait`.
#[derive(Clone, Copy, Debug, PartialEq, Eq, Structural)]
pub enum WaitDirective {
    /// Suspend the caller on the race of the registered sources.
    Suspend,
    /// The terminal event was already delivered: return immediately.
    ReturnNow,
}

/// Why a signal source could not be registered.
#[derive(Clone, Copy, Debug, PartialEq, Eq, Structural)]
pub enum RegisterError {
    /// The underlying OS signal registration is unavailable. Fatal: the
    /// process cannot guarantee graceful shutdown and must abort startup.
    SignalUnavailable,
}

/// A kind of event a host can report to a coordinator.
#[derive(Clone, Copy, Debug, PartialEq, Eq, Structural)]
pub enum CoordinatorEvent {
    /// The consumer called `wait`.
    WaitCalled,
    /// A registered source fired.
    SourceFired,
    /// The teardown hook finished or was abandoned.
    TeardownEnded,
}

/// Races registered signal sources and guarantees that the terminal
/// transition, and with it the teardown request, happens exactly once.
pub struct ShutdownCoordinator {
    /// Current phase of the fires-once state machine.
    phase: Phase,
    /// The registered signal sources.
    sources: Vec<SourceKind>,
    /// How many times teardown was requested; at most one by invariant.
    teardown_requests: u64,
    /// Bound on teardown duration, in milliseconds.
    teardown_timeout_ms: u64,
}

impl ShutdownCoordinator {
    /// The current phase.
    pub closed spec fn phase(self) -> Phase {
        self.phase
    }

    /// The registered signal sources, in registration order.
    pub closed spec fn sources(self) -> Seq<SourceKind> {
        self.sources@
    }

    /// How many times the teardown hook was requested so far.
    pub closed spec fn teardown_requests(self) -> u64 {
        self.teardown_requests
    }

    /// The configured teardown timeout, in milliseconds.
    pub closed spec fn teardown_timeout_ms(self) -> u64 {
        self.teardown_timeout_ms
    }

    /// Exactly one teardown request accompanies the terminal transition:
    /// none before a source fires, one from then on.
    pub open spec fn wf(self) -> bool {
        self.teardown_requests() == if self.phase() == Phase::Firing || self.phase()
            == Phase::Done {
            1int
        } else {
            0int
        }
    }

    /// Some registered source can actually fire.
    pub open spec fn has_live_source(self) -> bool {
        exists|i: int|
            0 <= i < self.sources().len() && #[trigger] self.sources()[i] != SourceKind::NeverFires
    }

    /// Creates a coordinator with no sources, in `Idle`, with the given
    /// teardown timeout.
    pub fn new(teardown_timeout_ms: u64) -> (c: Self)
        ensures
            c.phase() == Phase::Idle,
            c.sources() == Seq::<SourceKind>::empty(),
            c.teardown_requests() == 0,
            c.teardown_timeout_ms() == teardown_timeout_ms,
            c.wf(),
    {
        let c = ShutdownCoordinator {
            phase: Phase::Idle,
            sources: Vec::new(),
            teardown_requests: 0,
            teardown_timeout_ms,
        };
        proof {
            assert(c.sources() =~= Seq::<SourceKind>::empty());
        }
        c
    }

    /// Registers a signal source before waiting begins. `installed`
    /// reports whether the host could install the underlying OS handler;
    /// if it could not, registration fails and the failure is fatal to
    /// startup.
    pub fn register(&mut self, kind: SourceKind, installed: bool) -> (r: Result<(), RegisterError>)
        requires
            old(self).phase() == Phase::Idle,
        ensures
            installed ==> r is Ok && final(self).sources() == old(self).sources().push(kind),
            !installed ==> r == Err::<(), RegisterError>(RegisterError::SignalUnavailable)
                && final(self).sources() == old(self).sources(),
            final(self).phase() == old(self).phase(),
            final(self).teardown_requests() == old(self).teardown_requests(),
            final(self).teardown_timeout_ms() == old(self).teardown_timeout_ms(),
            old(self).wf() ==> final(self).wf(),
    {
        if installed {
            self.sources.push(kind);
            Ok(())
        } else {
            Err(RegisterError::SignalUnavailable)
        }
    }

    /// The source to register for a signal type: the type itself where
    /// the platform supports it, otherwise an arm that never fires, so
    /// the race always keeps the same number of arms.
    pub open spec fn spec_effective_source(kind: SourceKind, platform_supported: bool) -> SourceKind {
        if platform_supported {
            kind
        } else {
            SourceKind::NeverFires
        }
    }

    /// Executable counterpart of [`Self::spec_effective_source`].
    pub fn effective_source(kind: SourceKind, platform_supported: bool) -> (r: SourceKind)
        ensures
            r == Self::spec_effective_source(kind, platform_supported),
    {
        if platform_supported {
            kind
        } else {
            SourceKind::NeverFires
        }
    }

    /// The transition taken when the consumer calls `wait`: from `Idle`
    /// the coordinator starts waiting; once `Done`, further calls return
    /// immediately; in between the caller stays suspended.
    pub open spec fn spec_wait(c: Self) -> (Self, WaitDirective) {
        if c.phase() == Phase::Idle {
            (Self::with_phase(c, Phase::Waiting), WaitDirective::Suspend)
        } else if c.phase() == Phase::Done {
            (c, WaitDirective::ReturnNow)
        } else {
            (c, WaitDirective::Suspend)
        }
    }

    /// `c` with its phase replaced, everything else unchanged.
    pub closed spec fn with_phase(c: Self, phase: Phase) -> Self {
        ShutdownCoordinator { phase, ..c }
    }

    /// The phase of `with_phase`, and that nothing else moves.
    pub proof fn lemma_with_phase(c: Self, phase: Phase)
        ensures
            Self::with_phase(c, phase).phase() == phase,
            Self::with_phase(c, phase).sources() == c.sources(),
            Self::with_phase(c, phase).teardown_requests() == c.teardown_requests(),
            Self::with_phase(c, phase).teardown_timeout_ms() == c.teardown_timeout_ms(),
    {
    }

    /// Called by the consumer to wait for the terminal event. Returns
    /// exactly once per coordinator with `Suspend` pending the race; once
    /// the terminal event was delivered, every further call returns
    /// `ReturnNow` immediately.
    pub fn wait(&mut self) -> (r: WaitDirective)
        ensures
            (*final(self), r) == Self::spec_wait(*old(self)),
            old(self).phase() == Phase::Done <==> r == WaitDirective::ReturnNow,
            final(self).phase() == if old(self).phase() == Phase::Idle {
                Phase::Waiting
            } else {
                old(self).phase()
            },
            final(self).sources() == old(self).sources(),
            final(self).teardown_requests() == old(self).teardown_requests(),
            final(self).teardown_timeout_ms() == old(self).teardown_timeout_ms(),
            old(self).wf() ==> final(self).wf(),
    {
        proof {
            Self::lemma_with_phase(*old(self), Phase::Waiting);
        }
        match self.phase {
            Phase::Idle => {
                self.phase = Phase::Waiting;
                WaitDirective::Suspend
            },
            Phase::Done => WaitDirective::ReturnNow,
            _ => WaitDirective::Suspend,
        }
    }

    /// The transition taken when a registered source fires: the first
    /// firing while waiting wins the race and requests teardown; every
    /// other firing is a no-op.
    pub open spec fn spec_on_signal(c: Self) -> (Self, SignalAction) {
        if c.phase() == Phase::Waiting {
            (Self::fired(c), SignalAction::RunTeardown)
        } else {
            (c, SignalAction::Ignore)
        }
    }

    /// `c` after the winning firing: `Firing`, with one more teardown
    /// request recorded.
    pub closed spec fn fired(c: Self) -> Self {
        ShutdownCoordinator {
            phase: Phase::Firing,
            teardown_requests: (c.teardown_requests + 1) as u64,
            ..c
        }
    }

    /// The fields of `fired`.
    pub proof fn lemma_fired(c: Self)
        ensures
            Self::fired(c).phase() == Phase::Firing,
            Self::fired(c).sources() == c.sources(),
            Self::fired(c).teardown_requests() == (c.teardown_requests() + 1) as u64,
            Self::fired(c).teardown_timeout_ms() == c.teardown_timeout_ms(),
    {
    }

    /// Reports that the registered source at `source_index` fired. The
    /// never-firing stand-in produces no events, so it cannot be
    /// reported. At most one call per coordinator returns `RunTeardown`:
    /// the one that wins the race.
    pub fn on_signal(&mut self, source_index: usize) -> (r: SignalAction)
        requires
            old(self).wf(),
            source_index < old(self).sources().len(),
            old(self).sources()[source_index as int] != SourceKind::NeverFires,
        ensures
            (*final(self), r) == Self::spec_on_signal(*old(self)),
            final(self).wf(),
            r == SignalAction::RunTeardown <==> old(self).phase() == Phase::Waiting,
            r == SignalAction::RunTeardown ==> final(self).phase() == Phase::Firing
                && final(self).teardown_requests() == 1,
            r == SignalAction::Ignore ==> *final(self) == *old(self),
            final(self).sources() == old(self).sources(),
            final(self).teardown_timeout_ms() == old(self).teardown_timeout_ms(),
    {
        proof {
            Self::lemma_fired(*old(self));
        }
        match self.phase {
            Phase::Waiting => {
                self.phase = Phase::Firing;
                self.teardown_requests = self.teardown_requests + 1;
                SignalAction::RunTeardown
            },
            _ => SignalAction::Ignore,
        }
    }

    /// The transition taken when the teardown hook finishes or is
    /// abandoned: the coordinator becomes `Done` either way.
    pub open spec fn spec_finish_teardown(c: Self) -> Self {
        Self::with_phase(c, Phase::Done)
    }

    /// Reports that the teardown hook ran to completion
    /// (`completed_within_timeout`) or was abandoned at the timeout.
    /// Teardown failure is non-fatal: the terminal event is delivered
    /// either way, so the outcome does not depend on the flag.
    pub fn finish_teardown(&mut self, completed_within_timeout: bool)
        requires
            old(self).phase() == Phase::Firing,
        ensures
            *final(self) == Self::spec_finish_teardown(*old(self)),
            final(self).phase() == Phase::Done,
            final(self).sources() == old(self).sources(),
            final(self).teardown_requests() == old(self).teardown_requests(),
            final(self).teardown_timeout_ms() == old(self).teardown_timeout_ms(),
            old(self).wf() ==> final(self).wf(),
    {
        proof {
            Self::lemma_with_phase(*old(self), Phase::Done);
        }
        self.phase = Phase::Done;
    }

    /// Whether a teardown in progress has exceeded the configured
    /// timeout and must be abandoned so the process can proceed to exit.
    pub fn teardown_overdue(&self, elapsed_ms: u64) -> (r: bool)
        ensures
            r == (elapsed_ms > self.teardown_timeout_ms()),
    {
        elapsed_ms > self.teardown_timeout_ms
    }

    /// The coordinator after `n` consecutive signal-source firings.
    pub open spec fn spec_run_signals(c: Self, n: nat) -> Self
        decreases n,
    {
        if n == 0 {
            c
        } else {
            Self::spec_run_signals(Self::spec_on_signal(c).0, (n - 1) as nat)
        }
    }

    /// How many of `n` consecutive firings win the race and request
    /// teardown.
    pub open spec fn spec_run_teardown_count(c: Self, n: nat) -> nat
        decreases n,
    {
        if n == 0 {
            0
        } else {
            (if Self::spec_on_signal(c).1 == SignalAction::RunTeardown {
                1nat
            } else {
                0nat
            }) + Self::spec_run_teardown_count(Self::spec_on_signal(c).0, (n - 1) as nat)
        }
    }

    /// Once the race is decided, further firings are no-ops: they change
    /// nothing and never request teardown again.
    proof fn lemma_no_further_fires(c: Self, n: nat)
        requires
            c.phase() != Phase::Waiting,
        ensures
            Self::spec_run_signals(c, n) == c,
            Self::spec_run_teardown_count(c, n) == 0,
        decreases n,
    {
        if n > 0 {
            Self::lemma_no_further_fires(c, (n - 1) as nat);
        }
    }

    /// However many sources fire, and in whatever order, the wait
    /// completes exactly once: of any `n >= 1` consecutive firings
    /// observed while waiting, exactly one requests teardown; after the
    /// teardown hook finishes or is abandoned, the coordinator is `Done`
    /// and every further `wait` call returns immediately.
    pub proof fn lemma_fires_exactly_once(c: Self, n: nat)
        requires
            c.wf(),
            c.phase() == Phase::Waiting,
            n >= 1,
        ensures
            Self::spec_run_teardown_count(c, n) == 1,
            Self::spec_run_signals(c, n).phase() == Phase::Firing,
            Self::spec_run_signals(c, n).teardown_requests() == 1,
            Self::spec_wait(Self::spec_finish_teardown(Self::spec_run_signals(c, n))).1
                == WaitDirective::ReturnNow,
            Self::spec_wait(Self::spec_finish_teardown(Self::spec_run_signals(c, n))).0
                == Self::spec_finish_teardown(Self::spec_run_signals(c, n)),
    {
        let c1 = Self::fired(c);
        Self::lemma_fired(c);
        Self::lemma_no_further_fires(c1, (n - 1) as nat);
        Self::lemma_with_phase(c1, Phase::Done);
    }

    /// The interrupt source alone is enough: from a waiting coordinator,
    /// a single firing — whichever live arm it comes from, even when the
    /// terminate arm was replaced by the never-firing stand-in — wins the
    /// race, and once teardown finishes the wait completes and stays
    /// completed.
    pub proof fn lemma_single_firing_completes(c: Self)
        requires
            c.wf(),
            c.phase() == Phase::Waiting,
        ensures
            Self::spec_on_signal(c).1 == SignalAction::RunTeardown,
            Self::spec_finish_teardown(Self::spec_on_signal(c).0).phase() == Phase::Done,
            Self::spec_wait(Self::spec_finish_teardown(Self::spec_on_signal(c).0)).1
                == WaitDirective::ReturnNow,
    {
        Self::lemma_fired(c);
        Self::lemma_with_phase(Self::fired(c), Phase::Done);
    }

    /// One step of a coordinator's life, by the kind of event the host
    /// reports. A teardown ending is meaningful only while teardown is in
    /// progress.
    pub open spec fn spec_step(c: Self, e: CoordinatorEvent) -> Self {
        match e {
            CoordinatorEvent::WaitCalled => Self::spec_wait(c).0,
            CoordinatorEvent::SourceFired => Self::spec_on_signal(c).0,
            CoordinatorEvent::TeardownEnded => if c.phase() == Phase::Firing {
                Self::spec_finish_teardown(c)
            } else {
                c
            },
        }
    }

    /// The coordinator after a whole trace of reported events.
    pub open spec fn spec_run(c: Self, es: Seq<CoordinatorEvent>) -> Self
        decreases es.len(),
    {
        if es.len() == 0 {
            c
        } else {
            Self::spec_run(Self::spec_step(c, es.first()), es.drop_first())
        }
    }

    /// Every step preserves the fires-once invariant.
    pub proof fn lemma_step_preserves_wf(c: Self, e: CoordinatorEvent)
        requires
            c.wf(),
        ensures
            Self::spec_step(c, e).wf(),
    {
        Self::lemma_with_phase(c, Phase::Waiting);
        Self::lemma_with_phase(c, Phase::Done);
        Self::lemma_fired(c);
    }

    /// Whatever events the host reports, however many and in whatever
    /// order, one coordinator requests teardown at most once over its
    /// whole life.
    pub proof fn lemma_teardown_at_most_once(c: Self, es: Seq<CoordinatorEvent>)
        requires
            c.wf(),
        ensures
            Self::spec_run(c, es).wf(),
            Self::spec_run(c, es).teardown_requests() <= 1,
        decreases es.len(),
    {
        if es.len() > 0 {
            Self::lemma_step_preserves_wf(c, es.first());
            Self::lemma_teardown_at_most_once(Self::spec_step(c, es.first()), es.drop_first());
        }
    }

    /// A registered interrupt source keeps the race live whatever became
    /// of the other arms: replacing an unsupported signal type by the
    /// never-firing stand-in never removes the last live arm.
    pub proof fn lemma_interrupt_keeps_race_live(c: Self, i: int)
        requires
            0 <= i < c.sources().len(),
            c.sources()[i] == SourceKind::Interrupt,
        ensures
            c.has_live_source(),
    {
        assert(c.sources()[i] != SourceKind::NeverFires);
    }

    /// The current phase.
    pub fn current_phase(&self) -> (r: Phase)
        ensures
            r == self.phase(),
    {
        self.phase
    }

    /// How many sources are registered.
    pub fn source_count(&self) -> (r: usize)
        ensures
            r as nat == self.sources().len(),
    {
        self.sources.len()
    }
}

} // verus!
