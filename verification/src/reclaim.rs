use vstd::prelude::*;

verus! {

/// Where the claim of a socket path stands.
#[derive(Clone, Copy, Debug, PartialEq, Eq, Structural)]
pub enum BindPhase {
    /// The first attempt to bind the path.
    Bind,
    /// A probe `connect()` to the path, after the bind found it in use.
    Probe,
    /// The second attempt to bind, after the stale file was removed.
    Rebind,
}

/// What the I/O step of the current phase reported.
#[derive(Clone, Copy, Debug, PartialEq, Eq, Structural)]
pub enum StepOutcome {
    /// The bind, or the probe's connect, succeeded.
    Succeeded,
    /// The step failed with `AddrInUse`.
    AddrInUse,
    /// The step failed with `ConnectionRefused`.
    ConnectionRefused,
    /// The step failed with any other error.
    OtherError,
}

/// What the claim does next.
#[derive(Clone, Copy, Debug, PartialEq, Eq, Structural)]
pub enum BindAction {
    /// The socket is bound: use it.
    Claimed,
    /// The path is in use: probe it with a `connect()` to learn whether a live
    /// process owns it.
    ProbePeer,
    /// Nobody answers at the path: it is a stale file from a crashed run.
    /// Remove it and bind again.
    RemoveStaleAndRebind,
    /// A live process is bound to the path: fail with `AddrInUse` and leave
    /// its socket alone.
    RefuseLivePeer,
    /// Fail with the error the step reported.
    Fail,
}

/// Decides the next step of claiming a socket path from the current phase and
/// what its I/O step reported. A stale socket file (a connect to it is
/// refused) is reclaimed; a path with a live owner (a connect succeeds) is
/// never removed.
pub fn next_bind_step(phase: BindPhase, outcome: StepOutcome) -> (action: BindAction)
    ensures
        (action == BindAction::Claimed) <==> (phase != BindPhase::Probe && outcome
            == StepOutcome::Succeeded),
        (action == BindAction::ProbePeer) <==> (phase == BindPhase::Bind && outcome
            == StepOutcome::AddrInUse),
        (action == BindAction::RemoveStaleAndRebind) <==> (phase == BindPhase::Probe && outcome
            == StepOutcome::ConnectionRefused),
        (action == BindAction::RefuseLivePeer) <==> (phase == BindPhase::Probe && outcome
            == StepOutcome::Succeeded),
        (action == BindAction::Fail) <==> ((outcome == StepOutcome::OtherError) || (phase
            == BindPhase::Bind && outcome == StepOutcome::ConnectionRefused) || (phase
            == BindPhase::Probe && outcome == StepOutcome::AddrInUse) || (phase == BindPhase::Rebind
            && outcome != StepOutcome::Succeeded)),
{
    match (phase, outcome) {
        (BindPhase::Bind, StepOutcome::Succeeded) => BindAction::Claimed,
        (BindPhase::Bind, StepOutcome::AddrInUse) => BindAction::ProbePeer,
        (BindPhase::Probe, StepOutcome::Succeeded) => BindAction::RefuseLivePeer,
        (BindPhase::Probe, StepOutcome::ConnectionRefused) => BindAction::RemoveStaleAndRebind,
        (BindPhase::Rebind, StepOutcome::Succeeded) => BindAction::Claimed,
        _ => BindAction::Fail,
    }
}

} // verus!
