//! The decision logic of the render worker: the one-time initialization
//! guard that makes racing first calls agree on a single worker, and the
//! set-up steps of one engine instance, snapshot restore and fallback
//! included. The embedding program performs the actions these decisions
//! call for; the decisions themselves are fixed here.

use vstd::prelude::*;

verus! {

/// The one-time initialization guard: claimed exactly once, by whichever
/// caller gets there first. The embedding program holds it behind its
/// single-initialization primitive, which makes the check-and-claim
/// atomic.
#[derive(Debug, Clone, Copy, PartialEq, Eq, Structural)]
pub struct WorkerGuard {
    pub started: bool,
}

impl WorkerGuard {
    /// A fresh guard: nobody has claimed initialization yet.
    pub fn new() -> (r: Self)
        ensures
            !r.started,
    {
        WorkerGuard { started: false }
    }

    /// Claims the right to initialize the worker: grants it exactly when
    /// nobody has claimed before, and leaves the guard claimed either
    /// way.
    pub fn try_claim(&mut self) -> (r: bool)
        ensures
            r == !old(self).started,
            final(self).started,
    {
        let r = !self.started;
        self.started = true;
        r
    }
}

/// The outcomes of `n` successive claims on a guard in state `started`.
pub open spec fn claim_outcomes(started: bool, n: nat) -> Seq<bool>
    decreases n,
{
    if n == 0 {
        Seq::empty()
    } else {
        seq![!started] + claim_outcomes(true, (n - 1) as nat)
    }
}

/// How many of a sequence of outcomes granted the claim.
pub open spec fn count_true(s: Seq<bool>) -> int
    decreases s.len(),
{
    if s.len() == 0 {
        0
    } else {
        (if s[0] {
            1int
        } else {
            0int
        }) + count_true(s.drop_first())
    }
}

/// No claim is granted on a guard already claimed.
proof fn lemma_no_claim_after(n: nat)
    ensures
        count_true(claim_outcomes(true, n)) == 0,
    decreases n,
{
    if n > 0 {
        lemma_no_claim_after((n - 1) as nat);
        assert(claim_outcomes(true, n).drop_first() =~= claim_outcomes(true, (n - 1) as nat));
    }
}

/// However many calls take their turn at a fresh guard, exactly one is
/// granted initialization.
pub proof fn lemma_exactly_one_claim(n: nat)
    requires
        n >= 1,
    ensures
        count_true(claim_outcomes(false, n)) == 1,
{
    lemma_no_claim_after((n - 1) as nat);
    assert(claim_outcomes(false, n).drop_first() =~= claim_outcomes(true, (n - 1) as nat));
}

/// Where one engine instance stands while it is brought up.
#[derive(Debug, Clone, Copy, PartialEq, Eq, Structural)]
pub enum EngineSetup {
    /// Nothing has happened yet.
    Idle,
    /// A persisted snapshot is being restored.
    Restoring,
    /// The engine is being initialized from scratch; `persist` says
    /// whether a fresh snapshot is to be written once it is up.
    ColdStarting { persist: bool },
    /// The engine is up and owned by the worker for the rest of the
    /// process lifetime.
    Ready,
    /// Cold initialization itself failed; the worker cannot serve.
    Failed,
}

/// What the embedding program reports back to the set-up logic.
#[derive(Debug, Clone, Copy, PartialEq, Eq, Structural)]
pub enum SetupEvent {
    /// Set-up begins: whether a cache path was configured, and whether a
    /// file already exists at it.
    Begin { cache: bool, file_exists: bool },
    /// Restoring the snapshot finished.
    RestoreFinished { ok: bool },
    /// Initializing from scratch finished.
    ColdFinished { ok: bool },
}

/// What the embedding program is to do next.
#[derive(Debug, Clone, Copy, PartialEq, Eq, Structural)]
pub enum SetupAction {
    /// Load the persisted snapshot from the cache path.
    TryRestore,
    /// Initialize a fresh engine and load the typesetting bootstrap.
    ColdStart,
    /// Write a snapshot of the freshly initialized engine to the cache
    /// path.
    PersistSnapshot,
    /// Nothing; the set-up is settled for this event.
    NoAction,
    /// Report the failure to every waiting caller.
    ReportFailure,
}

/// One set-up step: the next state and the action it calls for. A restore
/// failure is never fatal, it falls back to a cold start; a snapshot is
/// written only when no file existed at the cache path; only a failed
/// cold start ends in failure.
pub open spec fn setup_step_spec(s: EngineSetup, e: SetupEvent) -> (EngineSetup, SetupAction) {
    match (s, e) {
        (EngineSetup::Idle, SetupEvent::Begin { cache, file_exists }) => {
            if cache && file_exists {
                (EngineSetup::Restoring, SetupAction::TryRestore)
            } else if cache {
                (EngineSetup::ColdStarting { persist: true }, SetupAction::ColdStart)
            } else {
                (EngineSetup::ColdStarting { persist: false }, SetupAction::ColdStart)
            }
        },
        (EngineSetup::Restoring, SetupEvent::RestoreFinished { ok }) => {
            if ok {
                (EngineSetup::Ready, SetupAction::NoAction)
            } else {
                (EngineSetup::ColdStarting { persist: false }, SetupAction::ColdStart)
            }
        },
        (EngineSetup::ColdStarting { persist }, SetupEvent::ColdFinished { ok }) => {
            if ok && persist {
                (EngineSetup::Ready, SetupAction::PersistSnapshot)
            } else if ok {
                (EngineSetup::Ready, SetupAction::NoAction)
            } else {
                (EngineSetup::Failed, SetupAction::ReportFailure)
            }
        },
        _ => (s, SetupAction::NoAction),
    }
}

/// Decides `setup_step_spec`.
pub fn setup_step(s: EngineSetup, e: SetupEvent) -> (r: (EngineSetup, SetupAction))
    ensures
        r == setup_step_spec(s, e),
{
    match (s, e) {
        (EngineSetup::Idle, SetupEvent::Begin { cache, file_exists }) => {
            if cache && file_exists {
                (EngineSetup::Restoring, SetupAction::TryRestore)
            } else if cache {
                (EngineSetup::ColdStarting { persist: true }, SetupAction::ColdStart)
            } else {
                (EngineSetup::ColdStarting { persist: false }, SetupAction::ColdStart)
            }
        },
        (EngineSetup::Restoring, SetupEvent::RestoreFinished { ok }) => {
            if ok {
                (EngineSetup::Ready, SetupAction::NoAction)
            } else {
                (EngineSetup::ColdStarting { persist: false }, SetupAction::ColdStart)
            }
        },
        (EngineSetup::ColdStarting { persist }, SetupEvent::ColdFinished { ok }) => {
            if ok && persist {
                (EngineSetup::Ready, SetupAction::PersistSnapshot)
            } else if ok {
                (EngineSetup::Ready, SetupAction::NoAction)
            } else {
                (EngineSetup::Failed, SetupAction::ReportFailure)
            }
        },
        (s2, _) => (s2, SetupAction::NoAction),
    }
}

/// A failed snapshot restore never fails the set-up: it always falls back
/// to a cold start.
pub proof fn lemma_restore_failure_never_fatal()
    ensures
        forall|ok: bool|
            (#[trigger] setup_step_spec(
                EngineSetup::Restoring,
                SetupEvent::RestoreFinished { ok },
            )).0 != EngineSetup::Failed,
        setup_step_spec(EngineSetup::Restoring, SetupEvent::RestoreFinished { ok: false }).1
            == SetupAction::ColdStart,
{
}

/// A snapshot is only ever written on the cold path that a configured
/// cache without a file at it begins.
pub proof fn lemma_persist_only_for_missing_file(s: EngineSetup, e: SetupEvent)
    ensures
        setup_step_spec(s, e).1 == SetupAction::PersistSnapshot ==> s == (EngineSetup::ColdStarting {
            persist: true,
        }),
        setup_step_spec(EngineSetup::Idle, e).0 == (EngineSetup::ColdStarting { persist: true })
            ==> e == (SetupEvent::Begin { cache: true, file_exists: false }),
{
}

} // verus!
