//! The connection-establishment state machine.
//!
//! Initialization must end with a usable database: remote-replica mode is
//! chosen only when both a non-empty remote URL and a non-empty auth token
//! were supplied; remote attempts are retried over a fixed number of rounds
//! across the URL's scheme variants, with a fixed delay between rounds and a
//! metadata wipe before every attempt; on exhaustion the machine falls back
//! to a purely local database, and only a failing local open is fatal.
//!
//! The machine itself performs no I/O: it hands out one action at a time
//! (attempt this URL, wait, open locally, pull an initial sync) and consumes
//! the event that reports how the action went.
use vstd::prelude::*;

use crate::url::{alt_url, spec_alt_url};

verus! {

/// How many rounds of remote connection attempts are made before falling
/// back to the local database.
pub const RETRY_ROUNDS: u64 = 3;

/// The fixed delay, in seconds, between two rounds of remote attempts. No
/// delay follows the final round.
pub const RETRY_DELAY_SECS: u64 = 2;

/// What was supplied to initialization: an optional remote URL and an
/// optional auth token. Remote-replica mode needs both, non-empty.
#[derive(Debug, Clone, PartialEq, Eq)]
pub struct InitConfig {
    pub url: Option<String>,
    pub auth_token: Option<String>,
}

/// Where initialization stands.
#[derive(Debug, Clone, Copy, PartialEq, Eq, Structural)]
pub enum InitPhase {
    /// Attempting the remote replica: `round` counts retry rounds from zero,
    /// `variant` indexes the URL variant tried within the round.
    Trying { round: u64, variant: u64 },
    /// Waiting out the inter-round delay after round `round` failed.
    Sleeping { round: u64 },
    /// Opening the purely local database (either local-only mode, or the
    /// fallback after remote exhaustion).
    OpeningLocal,
    /// Remote connection succeeded; pulling the initial sync.
    Syncing,
    /// Initialization finished with a usable handle.
    Ready { remote: bool },
    /// Even the local open failed: fatal, nothing left to try.
    Failed,
}

/// The next piece of outside work the driver must perform.
#[derive(Debug, Clone, PartialEq, Eq)]
pub enum InitAction {
    /// Delete the replica-metadata file beside the local database path, then
    /// attempt a remote replica at this URL.
    AttemptRemote { url: String },
    /// Wait this many seconds before the next retry round.
    Delay { secs: u64 },
    /// Open the purely local database at the fixed path.
    OpenLocal,
    /// Attempt one initial sync pull; its failure is not fatal.
    AttemptSync,
    /// Initialization is complete; `remote` says which mode was reached.
    Done { remote: bool },
    /// Initialization failed fatally: even the local open failed.
    Abort,
}

/// What the driver reports back about the action it performed.
#[derive(Debug, Clone, Copy, PartialEq, Eq, Structural)]
pub enum InitEvent {
    RemoteOk,
    RemoteErr,
    Slept,
    LocalOk,
    LocalErr,
    SyncOk,
    SyncErr,
}

/// Remote-replica mode is selected exactly when both a non-empty URL and a
/// non-empty auth token were supplied. The decision is made once, at
/// initialization, and not revisited.
pub open spec fn spec_is_remote(c: InitConfig) -> bool {
    match (c.url, c.auth_token) {
        (Some(u), Some(t)) => u@.len() > 0 && t@.len() > 0,
        _ => false,
    }
}

/// The ordered URL variants a remote round tries: the supplied URL first,
/// then its alternate scheme when that differs.
pub open spec fn spec_url_plan(u: Seq<char>) -> Seq<Seq<char>> {
    if spec_alt_url(u) == u {
        seq![u]
    } else {
        seq![u, spec_alt_url(u)]
    }
}

/// Which events can answer the action of a phase.
pub open spec fn spec_event_fits(phase: InitPhase, ev: InitEvent) -> bool {
    match phase {
        InitPhase::Trying { .. } => ev is RemoteOk || ev is RemoteErr,
        InitPhase::Sleeping { .. } => ev is Slept,
        InitPhase::OpeningLocal => ev is LocalOk || ev is LocalErr,
        InitPhase::Syncing => ev is SyncOk || ev is SyncErr,
        InitPhase::Ready { .. } => false,
        InitPhase::Failed => false,
    }
}

/// The transition relation: where a phase goes on an event, with `nurls` URL
/// variants available. A failed attempt advances to the next variant of the
/// round, then to the inter-round delay while rounds remain, and after the
/// final round to the local fallback. A successful attempt goes to the
/// initial sync, whose outcome — success or failure — leads to a ready
/// remote handle, because sync failure is not fatal.
pub open spec fn spec_step(phase: InitPhase, nurls: nat, ev: InitEvent) -> InitPhase {
    match phase {
        InitPhase::Trying { round, variant } => {
            if ev is RemoteOk {
                InitPhase::Syncing
            } else if variant + 1 < nurls {
                InitPhase::Trying { round, variant: (variant + 1) as u64 }
            } else if round + 1 < RETRY_ROUNDS {
                InitPhase::Sleeping { round }
            } else {
                InitPhase::OpeningLocal
            }
        },
        InitPhase::Sleeping { round } => InitPhase::Trying {
            round: (round + 1) as u64,
            variant: 0,
        },
        InitPhase::OpeningLocal => {
            if ev is LocalOk {
                InitPhase::Ready { remote: false }
            } else {
                InitPhase::Failed
            }
        },
        InitPhase::Syncing => InitPhase::Ready { remote: true },
        InitPhase::Ready { .. } => phase,
        InitPhase::Failed => phase,
    }
}

/// The connection-establishment state machine: the URL variants of the
/// remote plan (empty in local-only mode) and the current phase.
#[derive(Debug, Clone, PartialEq, Eq)]
pub struct InitMachine {
    pub urls: Vec<String>,
    pub phase: InitPhase,
}

/// The action a phase asks of the driver.
pub open spec fn spec_current_action(m: InitMachine) -> InitAction {
    match m.phase {
        InitPhase::Trying { round, variant } => InitAction::AttemptRemote {
            url: m.urls@[variant as int],
        },
        InitPhase::Sleeping { .. } => InitAction::Delay { secs: RETRY_DELAY_SECS },
        InitPhase::OpeningLocal => InitAction::OpenLocal,
        InitPhase::Syncing => InitAction::AttemptSync,
        InitPhase::Ready { remote } => InitAction::Done { remote },
        InitPhase::Failed => InitAction::Abort,
    }
}

impl InitMachine {
    /// Well-formedness: the phase's indices stay inside the plan.
    pub open spec fn wf(self) -> bool {
        &&& self.urls@.len() <= 2
        &&& match self.phase {
            InitPhase::Trying { round, variant } => round < RETRY_ROUNDS && (variant as int)
                < self.urls@.len(),
            InitPhase::Sleeping { round } => round + 1 < RETRY_ROUNDS && self.urls@.len() >= 1,
            _ => true,
        }
    }

    /// Builds the machine for what was supplied: remote mode starts at the
    /// first attempt of the first round with the URL plan of the supplied
    /// URL; anything less than a non-empty URL and a non-empty token skips
    /// remote logic entirely and starts at the local open.
    pub fn new(config: &InitConfig) -> (m: InitMachine)
        ensures
            m.wf(),
            !spec_is_remote(*config) ==> m.phase == InitPhase::OpeningLocal && m.urls@.len() == 0,
            spec_is_remote(*config) ==> {
                &&& m.phase == (InitPhase::Trying { round: 0u64, variant: 0u64 })
                &&& m.urls@.map_values(|s: String| s@) == spec_url_plan(config.url->0@)
            },
    {
        let mut remote_url: Option<&String> = None;
        match (&config.url, &config.auth_token) {
            (Some(u), Some(t)) => {
                if !u.as_str().is_empty() && !t.as_str().is_empty() {
                    remote_url = Some(u);
                }
            },
            _ => {},
        }
        match remote_url {
            Some(u) => {
                let alt = alt_url(u.as_str());
                let mut urls: Vec<String> = Vec::new();
                urls.push(u.clone());
                if !(alt == *u) {
                    urls.push(alt);
                    proof {
                        assert(urls@.map_values(|s: String| s@) =~= spec_url_plan(u@));
                    }
                } else {
                    proof {
                        assert(urls@.map_values(|s: String| s@) =~= spec_url_plan(u@));
                    }
                }
                InitMachine { urls, phase: InitPhase::Trying { round: 0, variant: 0 } }
            },
            None => InitMachine { urls: Vec::new(), phase: InitPhase::OpeningLocal },
        }
    }

    /// The next piece of outside work: what the driver must do now.
    pub fn current_action(&self) -> (a: InitAction)
        requires
            self.wf(),
        ensures
            a == spec_current_action(*self),
    {
        match &self.phase {
            InitPhase::Trying { round: _, variant } => {
                let u = &self.urls[*variant as usize];
                InitAction::AttemptRemote { url: u.clone() }
            },
            InitPhase::Sleeping { .. } => InitAction::Delay { secs: RETRY_DELAY_SECS },
            InitPhase::OpeningLocal => InitAction::OpenLocal,
            InitPhase::Syncing => InitAction::AttemptSync,
            InitPhase::Ready { remote } => InitAction::Done { remote: *remote },
            InitPhase::Failed => InitAction::Abort,
        }
    }

    /// Consumes the driver's report and advances the phase along the
    /// transition relation. The URL plan never changes.
    pub fn step(&mut self, ev: InitEvent)
        requires
            old(self).wf(),
            spec_event_fits(old(self).phase, ev),
        ensures
            final(self).urls == old(self).urls,
            final(self).phase == spec_step(old(self).phase, old(self).urls@.len() as nat, ev),
            final(self).wf(),
    {
        match self.phase {
            InitPhase::Trying { round, variant } => {
                if matches!(ev, InitEvent::RemoteOk) {
                    self.phase = InitPhase::Syncing;
                } else if variant + 1 < self.urls.len() as u64 {
                    self.phase = InitPhase::Trying { round, variant: variant + 1 };
                } else if round + 1 < RETRY_ROUNDS {
                    self.phase = InitPhase::Sleeping { round };
                } else {
                    self.phase = InitPhase::OpeningLocal;
                }
            },
            InitPhase::Sleeping { round } => {
                self.phase = InitPhase::Trying { round: round + 1, variant: 0 };
            },
            InitPhase::OpeningLocal => {
                if matches!(ev, InitEvent::LocalOk) {
                    self.phase = InitPhase::Ready { remote: false };
                } else {
                    self.phase = InitPhase::Failed;
                }
            },
            InitPhase::Syncing => {
                self.phase = InitPhase::Ready { remote: true };
            },
            InitPhase::Ready { .. } => {},
            InitPhase::Failed => {},
        }
    }
}

/// The run in which every remote attempt fails and every delay completes:
/// how many attempts are made from `phase` on, and where the run ends.
pub open spec fn spec_fail_run(phase: InitPhase, nurls: nat) -> (nat, InitPhase)
    decreases
        (match phase {
            InitPhase::Trying { round, .. } => RETRY_ROUNDS - round,
            InitPhase::Sleeping { round } => RETRY_ROUNDS - round,
            _ => 0,
        }),
        (match phase {
            InitPhase::Trying { variant, .. } => 2 * ((nurls as int) - variant),
            InitPhase::Sleeping { .. } => 1,
            _ => 0,
        }),
    when nurls <= 2 && (match phase {
        InitPhase::Trying { round, variant } => round < RETRY_ROUNDS && (variant as int) < nurls,
        InitPhase::Sleeping { round } => round + 1 < RETRY_ROUNDS,
        _ => true,
    })
{
    match phase {
        InitPhase::Trying { .. } => {
            let sub = spec_fail_run(spec_step(phase, nurls, InitEvent::RemoteErr), nurls);
            ((1 + sub.0) as nat, sub.1)
        },
        InitPhase::Sleeping { .. } => spec_fail_run(
            spec_step(phase, nurls, InitEvent::Slept),
            nurls,
        ),
        _ => (0, phase),
    }
}

proof fn lemma_fail_run_from(round: u64, variant: u64, nurls: nat)
    requires
        round < RETRY_ROUNDS,
        (variant as int) < nurls,
        nurls <= 2,
    ensures
        spec_fail_run(InitPhase::Trying { round, variant }, nurls).0 == (RETRY_ROUNDS - round)
            * nurls - variant,
        spec_fail_run(InitPhase::Trying { round, variant }, nurls).1 == InitPhase::OpeningLocal,
    decreases RETRY_ROUNDS - round, nurls - variant,
{
    let phase = InitPhase::Trying { round, variant };
    if variant + 1 < nurls {
        let next = InitPhase::Trying { round, variant: (variant + 1) as u64 };
        assert(spec_step(phase, nurls, InitEvent::RemoteErr) == next);
        lemma_fail_run_from(round, (variant + 1) as u64, nurls);
        assert((RETRY_ROUNDS - round) * nurls - variant >= 1) by (nonlinear_arith)
            requires
                round < RETRY_ROUNDS,
                (variant as int) + 1 < nurls,
        ;
    } else if round + 1 < RETRY_ROUNDS {
        let slept = InitPhase::Sleeping { round };
        let next = InitPhase::Trying { round: (round + 1) as u64, variant: 0 };
        assert(spec_step(phase, nurls, InitEvent::RemoteErr) == slept);
        assert(spec_step(slept, nurls, InitEvent::Slept) == next);
        lemma_fail_run_from((round + 1) as u64, 0, nurls);
        assert((RETRY_ROUNDS - round - 1) * nurls >= 1) by (nonlinear_arith)
            requires
                round + 1 < RETRY_ROUNDS,
                nurls >= 1,
        ;
        assert(spec_fail_run(slept, nurls) == spec_fail_run(next, nurls));
        assert((RETRY_ROUNDS - round) * nurls - variant == (RETRY_ROUNDS - round - 1) * nurls + 1)
            by (nonlinear_arith)
            requires
                variant + 1 == nurls,
                round + 1 < RETRY_ROUNDS,
        ;
    } else {
        let next = InitPhase::OpeningLocal;
        assert(spec_step(phase, nurls, InitEvent::RemoteErr) == next);
        assert(spec_fail_run(next, nurls).0 == 0);
        assert((RETRY_ROUNDS - round) * nurls - variant == 1) by (nonlinear_arith)
            requires
                variant + 1 == nurls,
                round + 1 == RETRY_ROUNDS,
        ;
    }
}

/// Law (retry bound): with a remote endpoint that always fails, the machine
/// makes exactly `RETRY_ROUNDS` times the number of URL variants remote
/// attempts, and the run ends at the local fallback — initialization then
/// produces a local-only handle rather than failing.
pub proof fn lemma_retry_bound(nurls: nat)
    requires
        1 <= nurls <= 2,
    ensures
        spec_fail_run(InitPhase::Trying { round: 0, variant: 0 }, nurls).0 == RETRY_ROUNDS * nurls,
        spec_fail_run(InitPhase::Trying { round: 0, variant: 0 }, nurls).1
            == InitPhase::OpeningLocal,
{
    lemma_fail_run_from(0, 0, nurls);
}

/// Law (fallback availability): when no remote URL and token were supplied,
/// the machine's very first action is the local open — no remote attempt, no
/// delay — and a successful local open completes initialization in
/// local-only mode at once.
pub proof fn lemma_local_mode(m: InitMachine, nurls: nat)
    requires
        m.phase == InitPhase::OpeningLocal,
    ensures
        spec_current_action(m) == InitAction::OpenLocal,
        spec_step(m.phase, nurls, InitEvent::LocalOk) == (InitPhase::Ready { remote: false }),
{
}

/// Law (recovery on a later attempt): every remote attempt is asked for with
/// a fresh metadata wipe (the attempt action carries it), and success on any
/// round and variant — no matter how many earlier attempts failed — moves
/// initialization to the initial sync and then to a ready remote handle,
/// whatever the sync outcome, because sync failure is not fatal.
pub proof fn lemma_remote_success_any_attempt(
    round: u64,
    variant: u64,
    nurls: nat,
    sync_ev: InitEvent,
)
    ensures
        spec_step(InitPhase::Trying { round, variant }, nurls, InitEvent::RemoteOk)
            == InitPhase::Syncing,
        spec_step(InitPhase::Syncing, nurls, sync_ev) == (InitPhase::Ready { remote: true }),
{
}

} // verus!
