//! The launch orchestrator as a state machine. Each step takes the outcome
//! of the previous action and says what to do next; the caller performs the
//! actions (probing, spawning, deleting the trust session, opening a terminal)
//! and feeds their outcomes back.
//!
//! For `LaunchMode::Daemon` the machine first checks whether a silent launch
//! is possible: a daemon that already runs needs nothing, a valid trust session
//! allows a detached spawn followed by a bounded readiness poll, and anything
//! else goes to an interactive terminal. A poll that never sees the daemon
//! deletes the trust session and falls back to the terminal. The other modes
//! go to the terminal at once.

use vstd::prelude::*;
use crate::mode::{LaunchError, LaunchMode};

verus! {

/// Pause between two readiness probes.
pub const POLL_INTERVAL_MS: u64 = 100;

/// How long after a detached spawn the daemon has to become reachable.
pub const POLL_BOUND_MS: u64 = 3000;

/// Where the orchestrator stands.
#[derive(Debug)]
pub enum Phase {
    /// Waiting for the trust session and liveness checks.
    Eligibility,
    /// Waiting for the detached spawn to report.
    Spawning,
    /// Waiting for a readiness probe.
    Polling,
    /// Waiting for the stale trust session to be deleted.
    Invalidating,
    /// Waiting for the terminal host with this index to report.
    Interactive(usize),
    /// The daemon runs, or a terminal was opened for it.
    Done,
    Failed(LaunchError),
}

/// What the caller is to do next.
#[derive(PartialEq, Eq, Structural, Clone, Copy, Debug)]
pub enum Action {
    /// Read the trust session and probe the daemon endpoint; report `Eligibility`.
    CheckEligibility,
    /// Start the daemon with no window and no standard streams; report `Spawned`.
    SpawnDetached(LaunchMode),
    /// Wait `delay_ms`, then probe the endpoint; report `Probed` with the
    /// time elapsed since the spawn.
    Probe { delay_ms: u64 },
    /// Delete the trust session record, ignoring failure; report `Invalidated`.
    InvalidateSession,
    /// Try to start terminal host `index` running the daemon in `mode`;
    /// report `HostOpened`.
    OpenHost { mode: LaunchMode, index: usize },
    /// Nothing left to do: the phase holds the outcome.
    Stop,
}

/// The outcome of the last action.
#[derive(Debug)]
pub enum Event {
    Eligibility { has_session: bool, running: bool },
    Spawned(Result<(), String>),
    Probed { running: bool, elapsed_ms: u64 },
    Invalidated,
    HostOpened { started: bool },
}

/// One launch attempt: the mode asked for, how many terminal hosts the
/// platform offers, and the phase reached.
#[derive(Debug)]
pub struct LaunchMachine {
    pub mode: LaunchMode,
    pub hosts: usize,
    pub phase: Phase,
}

pub open spec fn with_phase(m: LaunchMachine, p: Phase) -> LaunchMachine {
    LaunchMachine { mode: m.mode, hosts: m.hosts, phase: p }
}

/// The action that a machine waits on; repeated when an event does not fit.
pub open spec fn pending(m: LaunchMachine) -> Action {
    match m.phase {
        Phase::Eligibility => Action::CheckEligibility,
        Phase::Spawning => Action::SpawnDetached(m.mode),
        Phase::Polling => Action::Probe { delay_ms: POLL_INTERVAL_MS },
        Phase::Invalidating => Action::InvalidateSession,
        Phase::Interactive(i) => Action::OpenHost { mode: m.mode, index: i },
        Phase::Done => Action::Stop,
        Phase::Failed(_) => Action::Stop,
    }
}

/// Moving to the interactive path: the first terminal host, if there is one.
pub open spec fn to_interactive(m: LaunchMachine) -> (LaunchMachine, Action) {
    if m.hosts > 0 {
        (with_phase(m, Phase::Interactive(0)), Action::OpenHost { mode: m.mode, index: 0 })
    } else {
        (with_phase(m, Phase::Failed(LaunchError::NoInteractiveHost)), Action::Stop)
    }
}

/// The first step of a launch.
pub open spec fn launch_start(mode: LaunchMode, hosts: usize) -> (LaunchMachine, Action) {
    let m = LaunchMachine { mode, hosts, phase: Phase::Eligibility };
    if mode == LaunchMode::Daemon {
        (m, Action::CheckEligibility)
    } else {
        to_interactive(m)
    }
}

/// One transition of the orchestrator. An event that does not answer the
/// pending action leaves the machine as it is and repeats that action.
pub open spec fn next(m: LaunchMachine, e: Event) -> (LaunchMachine, Action) {
    match e {
        Event::Eligibility { has_session, running } => {
            if !(m.phase is Eligibility) {
                (m, pending(m))
            } else if running {
                (with_phase(m, Phase::Done), Action::Stop)
            } else if has_session {
                (with_phase(m, Phase::Spawning), Action::SpawnDetached(m.mode))
            } else {
                to_interactive(m)
            }
        },
        Event::Spawned(result) => {
            if !(m.phase is Spawning) {
                (m, pending(m))
            } else {
                match result {
                    Ok(()) => (with_phase(m, Phase::Polling), Action::Probe { delay_ms: 0 }),
                    Err(d) => (with_phase(m, Phase::Failed(LaunchError::SpawnFailed(d))), Action::Stop),
                }
            }
        },
        Event::Probed { running, elapsed_ms } => {
            if !(m.phase is Polling) {
                (m, pending(m))
            } else if running && elapsed_ms < POLL_BOUND_MS {
                (with_phase(m, Phase::Done), Action::Stop)
            } else if elapsed_ms >= POLL_BOUND_MS {
                (with_phase(m, Phase::Invalidating), Action::InvalidateSession)
            } else {
                (m, Action::Probe { delay_ms: POLL_INTERVAL_MS })
            }
        },
        Event::Invalidated => {
            if !(m.phase is Invalidating) {
                (m, pending(m))
            } else {
                to_interactive(m)
            }
        },
        Event::HostOpened { started } => {
            match m.phase {
                Phase::Interactive(i) => {
                    if started {
                        (with_phase(m, Phase::Done), Action::Stop)
                    } else if i + 1 < m.hosts {
                        (with_phase(m, Phase::Interactive((i + 1) as usize)),
                         Action::OpenHost { mode: m.mode, index: (i + 1) as usize })
                    } else {
                        (with_phase(m, Phase::Failed(LaunchError::NoInteractiveHost)), Action::Stop)
                    }
                },
                _ => (m, pending(m)),
            }
        },
    }
}

impl LaunchMachine {
    /// Only a daemon launch passes through the silent-launch phases, and a
    /// terminal host index is always one of the hosts.
    pub open spec fn wf(&self) -> bool {
        &&& (self.phase matches Phase::Interactive(i) ==> i < self.hosts)
        &&& (self.phase is Eligibility || self.phase is Spawning || self.phase is Polling
            || self.phase is Invalidating) ==> self.mode == LaunchMode::Daemon
    }

    /// Begins a launch in `mode` on a platform with `hosts` terminal hosts.
    pub fn start(mode: LaunchMode, hosts: usize) -> (r: (LaunchMachine, Action))
        ensures
            r == launch_start(mode, hosts),
            r.0.wf(),
    {
        let m = LaunchMachine { mode, hosts, phase: Phase::Eligibility };
        if mode.is_interactive_only() {
            let mut m = m;
            let a = m.enter_interactive();
            (m, a)
        } else {
            (m, Action::CheckEligibility)
        }
    }

    fn enter_interactive(&mut self) -> (a: Action)
        ensures
            (*final(self), a) == to_interactive(*old(self)),
    {
        if self.hosts > 0 {
            self.phase = Phase::Interactive(0);
            Action::OpenHost { mode: self.mode, index: 0 }
        } else {
            self.phase = Phase::Failed(LaunchError::NoInteractiveHost);
            Action::Stop
        }
    }

    /// The action this machine waits on.
    pub fn pending_action(&self) -> (a: Action)
        ensures
            a == pending(*self),
    {
        match self.phase {
            Phase::Eligibility => Action::CheckEligibility,
            Phase::Spawning => Action::SpawnDetached(self.mode),
            Phase::Polling => Action::Probe { delay_ms: POLL_INTERVAL_MS },
            Phase::Invalidating => Action::InvalidateSession,
            Phase::Interactive(i) => Action::OpenHost { mode: self.mode, index: i },
            Phase::Done => Action::Stop,
            Phase::Failed(_) => Action::Stop,
        }
    }

    /// Whether the launch has reached a final phase.
    pub fn is_finished(&self) -> (r: bool)
        ensures
            r == (self.phase is Done || self.phase is Failed),
    {
        matches!(self.phase, Phase::Done | Phase::Failed(_))
    }

    /// Advances the launch by the outcome of the pending action.
    pub fn step(&mut self, event: Event) -> (a: Action)
        ensures
            (*final(self), a) == next(*old(self), event),
            old(self).wf() ==> final(self).wf(),
    {
        match event {
            Event::Eligibility { has_session, running } => {
                if !matches!(self.phase, Phase::Eligibility) {
                    self.pending_action()
                } else if running {
                    self.phase = Phase::Done;
                    Action::Stop
                } else if has_session {
                    self.phase = Phase::Spawning;
                    Action::SpawnDetached(self.mode)
                } else {
                    self.enter_interactive()
                }
            },
            Event::Spawned(result) => {
                if !matches!(self.phase, Phase::Spawning) {
                    self.pending_action()
                } else {
                    match result {
                        Ok(()) => {
                            self.phase = Phase::Polling;
                            Action::Probe { delay_ms: 0 }
                        },
                        Err(d) => {
                            self.phase = Phase::Failed(LaunchError::SpawnFailed(d));
                            Action::Stop
                        },
                    }
                }
            },
            Event::Probed { running, elapsed_ms } => {
                if !matches!(self.phase, Phase::Polling) {
                    self.pending_action()
                } else if running && elapsed_ms < POLL_BOUND_MS {
                    self.phase = Phase::Done;
                    Action::Stop
                } else if elapsed_ms >= POLL_BOUND_MS {
                    self.phase = Phase::Invalidating;
                    Action::InvalidateSession
                } else {
                    Action::Probe { delay_ms: POLL_INTERVAL_MS }
                }
            },
            Event::Invalidated => {
                if !matches!(self.phase, Phase::Invalidating) {
                    self.pending_action()
                } else {
                    self.enter_interactive()
                }
            },
            Event::HostOpened { started } => {
                match self.phase {
                    Phase::Interactive(i) => {
                        if started {
                            self.phase = Phase::Done;
                            Action::Stop
                        } else if self.hosts > 0 && i < self.hosts - 1 {
                            self.phase = Phase::Interactive(i + 1);
                            Action::OpenHost { mode: self.mode, index: i + 1 }
                        } else {
                            self.phase = Phase::Failed(LaunchError::NoInteractiveHost);
                            Action::Stop
                        }
                    },
                    _ => self.pending_action(),
                }
            },
        }
    }
}


/// The machine and the actions after feeding it `events` in order.
pub open spec fn run(m: LaunchMachine, events: Seq<Event>) -> (LaunchMachine, Seq<Action>)
    decreases events.len(),
{
    if events.len() == 0 {
        (m, Seq::empty())
    } else {
        let (m1, a) = next(m, events[0]);
        let (m2, rest) = run(m1, events.drop_first());
        (m2, seq![a] + rest)
    }
}

/// A probe report that shows the daemon reachable within the bound.
pub open spec fn sees_daemon(e: Event) -> bool {
    match e {
        Event::Probed { running, elapsed_ms } => running && elapsed_ms < POLL_BOUND_MS,
        _ => false,
    }
}

/// A probe report made before the bound ran out.
pub open spec fn within_bound(e: Event) -> bool {
    match e {
        Event::Probed { running, elapsed_ms } => elapsed_ms < POLL_BOUND_MS,
        _ => false,
    }
}

/// `n` probes at the regular interval.
pub open spec fn regular_probes(n: nat) -> Seq<Action> {
    Seq::new(n, |i: int| Action::Probe { delay_ms: POLL_INTERVAL_MS })
}

/// The events of a daemon launch up to the start of polling: a trust session
/// is present, no daemon runs, and the detached spawn succeeds.
pub open spec fn silent_start_events() -> Seq<Event> {
    seq![Event::Eligibility { has_session: true, running: false }, Event::Spawned(Ok(()))]
}

proof fn lemma_run_append(m: LaunchMachine, a: Seq<Event>, b: Seq<Event>)
    ensures
        run(m, a + b) == ({
            let (m1, xs) = run(m, a);
            let (m2, ys) = run(m1, b);
            (m2, xs + ys)
        }),
    decreases a.len(),
{
    if a.len() == 0 {
        assert(a + b =~= b);
        assert(Seq::<Action>::empty() + run(m, b).1 =~= run(m, b).1);
    } else {
        let (m1, x) = next(m, a[0]);
        assert((a + b).drop_first() =~= a.drop_first() + b);
        assert((a + b)[0] == a[0]);
        lemma_run_append(m1, a.drop_first(), b);
        let (m2, xs) = run(m1, a.drop_first());
        let (m3, ys) = run(m2, b);
        assert(seq![x] + (xs + ys) =~= (seq![x] + xs) + ys);
    }
}

proof fn lemma_poll_runs_out(m: LaunchMachine, probes: Seq<Event>)
    requires
        m.phase is Polling,
        probes.len() >= 1,
        forall|i: int| 0 <= i < probes.len() ==> (#[trigger] probes[i] is Probed && !sees_daemon(probes[i])),
        forall|i: int| 0 <= i < probes.len() - 1 ==> within_bound(#[trigger] probes[i]),
        !within_bound(probes.last()),
    ensures
        run(m, probes) == (with_phase(m, Phase::Invalidating),
            regular_probes((probes.len() - 1) as nat) + seq![Action::InvalidateSession]),
    decreases probes.len(),
{
    reveal_with_fuel(run, 2);
    let p = probes[0];
    assert(p is Probed && !sees_daemon(p));
    let rest = probes.drop_first();
    if probes.len() == 1 {
        assert(rest.len() == 0);
        assert(seq![Action::InvalidateSession] + Seq::<Action>::empty()
            =~= regular_probes(0) + seq![Action::InvalidateSession]);
    } else {
        assert(within_bound(probes[0]));
        assert(next(m, p) == (m, Action::Probe { delay_ms: POLL_INTERVAL_MS }));
        assert forall|i: int| 0 <= i < rest.len() implies (#[trigger] rest[i] is Probed
            && !sees_daemon(rest[i])) by {
            assert(rest[i] == probes[i + 1]);
        }
        assert forall|i: int| 0 <= i < rest.len() - 1 implies within_bound(#[trigger] rest[i]) by {
            assert(rest[i] == probes[i + 1]);
        }
        lemma_poll_runs_out(m, rest);
        assert(seq![Action::Probe { delay_ms: POLL_INTERVAL_MS }]
            + (regular_probes((rest.len() - 1) as nat) + seq![Action::InvalidateSession])
            =~= regular_probes((probes.len() - 1) as nat) + seq![Action::InvalidateSession]);
    }
}

proof fn lemma_poll_sees_daemon(m: LaunchMachine, probes: Seq<Event>)
    requires
        m.phase is Polling,
        probes.len() >= 1,
        forall|i: int| 0 <= i < probes.len() ==> within_bound(#[trigger] probes[i]),
        forall|i: int| 0 <= i < probes.len() - 1 ==> !sees_daemon(#[trigger] probes[i]),
        sees_daemon(probes.last()),
    ensures
        run(m, probes) == (with_phase(m, Phase::Done),
            regular_probes((probes.len() - 1) as nat) + seq![Action::Stop]),
    decreases probes.len(),
{
    reveal_with_fuel(run, 2);
    let p = probes[0];
    assert(within_bound(p));
    let rest = probes.drop_first();
    if probes.len() == 1 {
        assert(rest.len() == 0);
        assert(seq![Action::Stop] + Seq::<Action>::empty() =~= regular_probes(0) + seq![Action::Stop]);
    } else {
        assert(!sees_daemon(probes[0]));
        assert(next(m, p) == (m, Action::Probe { delay_ms: POLL_INTERVAL_MS }));
        assert forall|i: int| 0 <= i < rest.len() implies within_bound(#[trigger] rest[i]) by {
            assert(rest[i] == probes[i + 1]);
        }
        assert forall|i: int| 0 <= i < rest.len() - 1 implies !sees_daemon(#[trigger] rest[i]) by {
            assert(rest[i] == probes[i + 1]);
        }
        lemma_poll_sees_daemon(m, rest);
        assert(seq![Action::Probe { delay_ms: POLL_INTERVAL_MS }]
            + (regular_probes((rest.len() - 1) as nat) + seq![Action::Stop])
            =~= regular_probes((probes.len() - 1) as nat) + seq![Action::Stop]);
    }
}

proof fn lemma_silent_start(hosts: usize)
    ensures
        ({
            let m0 = launch_start(LaunchMode::Daemon, hosts).0;
            run(m0, silent_start_events()) == (with_phase(m0, Phase::Polling),
                seq![Action::SpawnDetached(LaunchMode::Daemon), Action::Probe { delay_ms: 0 }])
        }),
{
    reveal_with_fuel(run, 3);
    let m0 = launch_start(LaunchMode::Daemon, hosts).0;
    let ev = silent_start_events();
    let m1 = with_phase(m0, Phase::Spawning);
    let m2 = with_phase(m0, Phase::Polling);
    assert(next(m0, ev[0]) == (m1, Action::SpawnDetached(LaunchMode::Daemon)));
    assert(ev.drop_first() =~= seq![Event::Spawned(Ok(()))]);
    assert(next(m1, ev.drop_first()[0]) == (m2, Action::Probe { delay_ms: 0 }));
    assert(ev.drop_first().drop_first() =~= Seq::<Event>::empty());
    assert(seq![Action::Probe { delay_ms: 0 }] + Seq::<Action>::empty() =~= seq![Action::Probe { delay_ms: 0 }]);
    assert(seq![Action::SpawnDetached(LaunchMode::Daemon)] + seq![Action::Probe { delay_ms: 0 }]
        =~= seq![Action::SpawnDetached(LaunchMode::Daemon), Action::Probe { delay_ms: 0 }]);
}

/// A daemon launch that finds the daemon already running ends at once, with
/// success and without spawning anything, whatever the trust session says.
pub proof fn law_running_daemon_is_left_alone(hosts: usize, has_session: bool)
    ensures
        ({
            let m0 = launch_start(LaunchMode::Daemon, hosts).0;
            next(m0, Event::Eligibility { has_session, running: true })
                == (with_phase(m0, Phase::Done), Action::Stop)
        }),
{
}

/// A daemon launch with a trust session, no daemon running and a detached
/// spawn that succeeds, whose probes never see the daemon before the poll
/// bound runs out, deletes the trust session exactly once and then goes to the
/// interactive path: the actions are the spawn, the probes, one invalidation
/// and the first terminal host (or, with no host at all, a failed stop).
pub proof fn law_unconfirmed_silent_launch_falls_back(hosts: usize, probes: Seq<Event>)
    requires
        probes.len() >= 1,
        forall|i: int| 0 <= i < probes.len() ==> (#[trigger] probes[i] is Probed && !sees_daemon(probes[i])),
        forall|i: int| 0 <= i < probes.len() - 1 ==> within_bound(#[trigger] probes[i]),
        !within_bound(probes.last()),
    ensures
        ({
            let m0 = launch_start(LaunchMode::Daemon, hosts).0;
            let (m, actions) = run(m0, silent_start_events() + probes + seq![Event::Invalidated]);
            let (mi, ai) = to_interactive(with_phase(m0, Phase::Invalidating));
            &&& actions == seq![Action::SpawnDetached(LaunchMode::Daemon), Action::Probe { delay_ms: 0 }]
                + regular_probes((probes.len() - 1) as nat)
                + seq![Action::InvalidateSession, ai]
            &&& m == mi
            &&& hosts > 0 ==> ai == Action::OpenHost { mode: LaunchMode::Daemon, index: 0 }
                && m.phase == Phase::Interactive(0)
        }),
{
    reveal_with_fuel(run, 2);
    let m0 = launch_start(LaunchMode::Daemon, hosts).0;
    let start = silent_start_events();
    lemma_silent_start(hosts);
    let m2 = with_phase(m0, Phase::Polling);
    lemma_poll_runs_out(m2, probes);
    let m3 = with_phase(m0, Phase::Invalidating);
    let last = seq![Event::Invalidated];
    let (mi, ai) = to_interactive(m3);
    assert(next(m3, last[0]) == (mi, ai));
    assert(last.drop_first() =~= Seq::<Event>::empty());
    lemma_run_append(m0, start, probes);
    lemma_run_append(m0, start + probes, last);
    assert(run(m3, last).1 =~= seq![ai]);
    assert(seq![Action::SpawnDetached(LaunchMode::Daemon), Action::Probe { delay_ms: 0 }]
        + (regular_probes((probes.len() - 1) as nat) + seq![Action::InvalidateSession]) + seq![ai]
        =~= seq![Action::SpawnDetached(LaunchMode::Daemon), Action::Probe { delay_ms: 0 }]
        + regular_probes((probes.len() - 1) as nat)
        + seq![Action::InvalidateSession, ai]);
}

/// A daemon launch with a trust session, no daemon running and a detached
/// spawn that succeeds, whose probes see the daemon before the poll bound
/// runs out, ends in success and never opens a terminal host.
pub proof fn law_confirmed_silent_launch_skips_terminal(hosts: usize, probes: Seq<Event>)
    requires
        probes.len() >= 1,
        forall|i: int| 0 <= i < probes.len() ==> within_bound(#[trigger] probes[i]),
        forall|i: int| 0 <= i < probes.len() - 1 ==> !sees_daemon(#[trigger] probes[i]),
        sees_daemon(probes.last()),
    ensures
        ({
            let m0 = launch_start(LaunchMode::Daemon, hosts).0;
            let (m, actions) = run(m0, silent_start_events() + probes);
            &&& m.phase is Done
            &&& actions == seq![Action::SpawnDetached(LaunchMode::Daemon), Action::Probe { delay_ms: 0 }]
                + regular_probes((probes.len() - 1) as nat) + seq![Action::Stop]
            &&& forall|i: int| 0 <= i < actions.len() ==> !(#[trigger] actions[i] is OpenHost)
        }),
{
    let m0 = launch_start(LaunchMode::Daemon, hosts).0;
    lemma_silent_start(hosts);
    lemma_poll_sees_daemon(with_phase(m0, Phase::Polling), probes);
    lemma_run_append(m0, silent_start_events(), probes);
    let actions = seq![Action::SpawnDetached(LaunchMode::Daemon), Action::Probe { delay_ms: 0 }]
        + regular_probes((probes.len() - 1) as nat) + seq![Action::Stop];
    assert(run(m0, silent_start_events() + probes).1 =~= actions);
    assert forall|i: int| 0 <= i < actions.len() implies !(#[trigger] actions[i] is OpenHost) by {
        if 2 <= i < actions.len() - 1 {
            assert(actions[i] == regular_probes((probes.len() - 1) as nat)[i - 2]);
        }
    }
}

/// A launch in an interactive-only mode goes straight to the interactive
/// path, with no trust session or liveness check: the first terminal host,
/// or a failed stop when the platform has none.
pub proof fn law_interactive_modes_skip_eligibility(mode: LaunchMode, hosts: usize)
    requires
        mode != LaunchMode::Daemon,
    ensures
        launch_start(mode, hosts) == to_interactive(LaunchMachine { mode, hosts, phase: Phase::Eligibility }),
        !(launch_start(mode, hosts).1 is CheckEligibility),
        hosts > 0 ==> launch_start(mode, hosts) == (LaunchMachine { mode, hosts, phase: Phase::Interactive(0) },
            Action::OpenHost { mode, index: 0 }),
{
}

} // verus!
