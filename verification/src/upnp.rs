use vstd::prelude::*;

verus! {

/// Consecutive failed mapping attempts the controller tolerates before it
/// abandons the lease loop for good.
pub const MAX_MAPPING_FAILURES: u8 = 5;

/// Lease duration of one port mapping, in seconds; the controller sleeps
/// this long before renewing.
pub const LEASE_DURATION_SECS: u64 = 120;

/// Where the Port-Mapping Controller stands.
#[derive(Debug, Clone, Copy, PartialEq, Eq, Structural)]
pub enum UpnpState {
    /// Looking for a gateway on the local network.
    Discover,
    /// Gateway found; comparing its advertised external address with the
    /// locally detected one.
    CompareIp,
    /// Checking that the local address is IPv4 before leasing.
    FamilyCheck,
    /// About to attempt a port mapping; `failures` consecutive attempts of
    /// the current cycle have failed so far.
    Lease { failures: u8 },
    /// Waiting out the backoff before the next attempt.
    Backoff { failures: u8 },
    /// Mapping installed; waiting for the renewal point.
    Renewing,
    /// The lease loop was given up after too many consecutive failures.
    Abandoned,
    /// The controller has exited.
    Finished,
}

/// What the controller observed since its last decision.
#[derive(Debug, Clone, Copy, PartialEq, Eq, Structural)]
pub enum UpnpEvent {
    GatewayFound,
    GatewayAbsent,
    /// The gateway's external address was looked up; `differs` says a
    /// fetched address differed from the locally detected one.
    ExternalChecked { differs: bool },
    LocalIsV4,
    LocalNotV4,
    AddPortSucceeded,
    AddPortFailed,
    SleepElapsed,
    ShutdownSignal,
    SignalHookFailed,
}

/// What the controller asks its surroundings to do next.
#[derive(Debug, Clone, Copy, PartialEq, Eq, Structural)]
pub enum UpnpAction {
    /// Look up the gateway's external address.
    FetchExternalIp,
    /// Warn that the external address should be handed out when sharing
    /// beyond the local network.
    WarnUseExternal,
    /// Attempt to add the port mapping.
    AttemptAdd,
    /// Sleep this many seconds, then report back.
    Sleep { secs: u64 },
    /// Warn that no gateway was found; the server keeps serving without a
    /// mapping.
    WarnNoGateway,
    /// Raise the one terminal error: the lease loop is abandoned for good
    /// and the port must be forwarded by hand.
    LogGiveUp,
    /// Remove the mapping, best effort, and exit.
    RemoveMapping,
    /// Warn that the shutdown hook failed; the mapping is left to expire on
    /// its own.
    WarnHookFailed,
    /// Nothing to do.
    NoOp,
}

/// One decision of the Port-Mapping Controller, as a mathematical function
/// from the current state and the observed event to the next state and the
/// action to perform. Pairs outside the protocol change nothing.
pub open spec fn spec_step(s: UpnpState, e: UpnpEvent) -> (UpnpState, UpnpAction) {
    match (s, e) {
        (UpnpState::Discover, UpnpEvent::GatewayFound) => (
            UpnpState::CompareIp,
            UpnpAction::FetchExternalIp,
        ),
        (UpnpState::Discover, UpnpEvent::GatewayAbsent) => (
            UpnpState::Finished,
            UpnpAction::WarnNoGateway,
        ),
        (UpnpState::CompareIp, UpnpEvent::ExternalChecked { differs }) => (
            UpnpState::FamilyCheck,
            if differs {
                UpnpAction::WarnUseExternal
            } else {
                UpnpAction::NoOp
            },
        ),
        (UpnpState::FamilyCheck, UpnpEvent::LocalIsV4) => (
            UpnpState::Lease { failures: 0 },
            UpnpAction::AttemptAdd,
        ),
        (UpnpState::FamilyCheck, UpnpEvent::LocalNotV4) => (UpnpState::Finished, UpnpAction::NoOp),
        (UpnpState::Lease { failures }, UpnpEvent::AddPortSucceeded) => (
            UpnpState::Renewing,
            UpnpAction::Sleep { secs: LEASE_DURATION_SECS },
        ),
        (UpnpState::Lease { failures }, UpnpEvent::AddPortFailed) => {
            if failures + 1 >= MAX_MAPPING_FAILURES {
                (UpnpState::Abandoned, UpnpAction::LogGiveUp)
            } else {
                (
                    UpnpState::Backoff { failures: (failures + 1) as u8 },
                    UpnpAction::Sleep { secs: (5 + 5 * failures) as u64 },
                )
            }
        },
        (UpnpState::Backoff { failures }, UpnpEvent::SleepElapsed) => (
            UpnpState::Lease { failures },
            UpnpAction::AttemptAdd,
        ),
        (UpnpState::Renewing, UpnpEvent::SleepElapsed) => (
            UpnpState::Lease { failures: 0 },
            UpnpAction::AttemptAdd,
        ),
        (UpnpState::Lease { failures }, UpnpEvent::ShutdownSignal) => (
            UpnpState::Finished,
            UpnpAction::RemoveMapping,
        ),
        (UpnpState::Backoff { failures }, UpnpEvent::ShutdownSignal) => (
            UpnpState::Finished,
            UpnpAction::RemoveMapping,
        ),
        (UpnpState::Renewing, UpnpEvent::ShutdownSignal) => (
            UpnpState::Finished,
            UpnpAction::RemoveMapping,
        ),
        (UpnpState::Lease { failures }, UpnpEvent::SignalHookFailed) => (
            UpnpState::Finished,
            UpnpAction::WarnHookFailed,
        ),
        (UpnpState::Backoff { failures }, UpnpEvent::SignalHookFailed) => (
            UpnpState::Finished,
            UpnpAction::WarnHookFailed,
        ),
        (UpnpState::Renewing, UpnpEvent::SignalHookFailed) => (
            UpnpState::Finished,
            UpnpAction::WarnHookFailed,
        ),
        _ => (s, UpnpAction::NoOp),
    }
}

/// One decision of the Port-Mapping Controller as executable code; the
/// surroundings perform the action, observe the next event and call again.
pub fn upnp_step(s: UpnpState, e: UpnpEvent) -> (r: (UpnpState, UpnpAction))
    ensures
        r == spec_step(s, e),
{
    match (s, e) {
        (UpnpState::Discover, UpnpEvent::GatewayFound) => (
            UpnpState::CompareIp,
            UpnpAction::FetchExternalIp,
        ),
        (UpnpState::Discover, UpnpEvent::GatewayAbsent) => (
            UpnpState::Finished,
            UpnpAction::WarnNoGateway,
        ),
        (UpnpState::CompareIp, UpnpEvent::ExternalChecked { differs }) => (
            UpnpState::FamilyCheck,
            if differs {
                UpnpAction::WarnUseExternal
            } else {
                UpnpAction::NoOp
            },
        ),
        (UpnpState::FamilyCheck, UpnpEvent::LocalIsV4) => (
            UpnpState::Lease { failures: 0 },
            UpnpAction::AttemptAdd,
        ),
        (UpnpState::FamilyCheck, UpnpEvent::LocalNotV4) => (UpnpState::Finished, UpnpAction::NoOp),
        (UpnpState::Lease { failures: _ }, UpnpEvent::AddPortSucceeded) => (
            UpnpState::Renewing,
            UpnpAction::Sleep { secs: LEASE_DURATION_SECS },
        ),
        (UpnpState::Lease { failures }, UpnpEvent::AddPortFailed) => {
            if failures >= MAX_MAPPING_FAILURES - 1 {
                (UpnpState::Abandoned, UpnpAction::LogGiveUp)
            } else {
                (
                    UpnpState::Backoff { failures: failures + 1 },
                    UpnpAction::Sleep { secs: 5 + 5 * (failures as u64) },
                )
            }
        },
        (UpnpState::Backoff { failures }, UpnpEvent::SleepElapsed) => (
            UpnpState::Lease { failures },
            UpnpAction::AttemptAdd,
        ),
        (UpnpState::Renewing, UpnpEvent::SleepElapsed) => (
            UpnpState::Lease { failures: 0 },
            UpnpAction::AttemptAdd,
        ),
        (UpnpState::Lease { failures: _ }, UpnpEvent::ShutdownSignal) => (
            UpnpState::Finished,
            UpnpAction::RemoveMapping,
        ),
        (UpnpState::Backoff { failures: _ }, UpnpEvent::ShutdownSignal) => (
            UpnpState::Finished,
            UpnpAction::RemoveMapping,
        ),
        (UpnpState::Renewing, UpnpEvent::ShutdownSignal) => (
            UpnpState::Finished,
            UpnpAction::RemoveMapping,
        ),
        (UpnpState::Lease { failures: _ }, UpnpEvent::SignalHookFailed) => (
            UpnpState::Finished,
            UpnpAction::WarnHookFailed,
        ),
        (UpnpState::Backoff { failures: _ }, UpnpEvent::SignalHookFailed) => (
            UpnpState::Finished,
            UpnpAction::WarnHookFailed,
        ),
        (UpnpState::Renewing, UpnpEvent::SignalHookFailed) => (
            UpnpState::Finished,
            UpnpAction::WarnHookFailed,
        ),
        (state, _) => (state, UpnpAction::NoOp),
    }
}

/// The states and actions of a whole run: `spec_step` applied to each event
/// in turn, collecting every action.
pub open spec fn run_steps(s: UpnpState, events: Seq<UpnpEvent>) -> (UpnpState, Seq<UpnpAction>)
    decreases events.len(),
{
    if events.len() == 0 {
        (s, Seq::empty())
    } else {
        let first = spec_step(s, events[0]);
        let rest = run_steps(first.0, events.drop_first());
        (rest.0, seq![first.1] + rest.1)
    }
}

/// The consecutive-failure count never leaves the retry budget.
pub open spec fn state_wf(s: UpnpState) -> bool {
    match s {
        UpnpState::Lease { failures } => failures < MAX_MAPPING_FAILURES,
        UpnpState::Backoff { failures } => failures < MAX_MAPPING_FAILURES,
        _ => true,
    }
}

/// Every decision keeps the consecutive-failure count within the retry
/// budget: no reachable state has seen `MAX_MAPPING_FAILURES` failures and
/// still plans an attempt.
pub proof fn lemma_step_preserves_wf(s: UpnpState, e: UpnpEvent)
    requires
        state_wf(s),
    ensures
        state_wf(spec_step(s, e).0),
{
}

/// Once the lease loop is abandoned, it stays abandoned: no event makes the
/// controller attempt another mapping, and the terminal error is never
/// raised a second time.
pub proof fn lemma_abandoned_is_absorbing(e: UpnpEvent)
    ensures
        spec_step(UpnpState::Abandoned, e).0 == UpnpState::Abandoned,
        spec_step(UpnpState::Abandoned, e).1 == UpnpAction::NoOp,
{
}

/// Five consecutive mapping failures abandon the lease loop: starting a
/// fresh cycle, the run over five failed attempts ends `Abandoned`, pauses
/// four times with linearly growing backoff, retries after each pause, and
/// raises the terminal error exactly once, at the very end. Together with
/// `lemma_abandoned_is_absorbing`, no sixth attempt ever follows.
pub proof fn lemma_five_failures_abandon()
    ensures
        ({
            let events = seq![
                UpnpEvent::AddPortFailed,
                UpnpEvent::SleepElapsed,
                UpnpEvent::AddPortFailed,
                UpnpEvent::SleepElapsed,
                UpnpEvent::AddPortFailed,
                UpnpEvent::SleepElapsed,
                UpnpEvent::AddPortFailed,
                UpnpEvent::SleepElapsed,
                UpnpEvent::AddPortFailed,
            ];
            let r = run_steps(UpnpState::Lease { failures: 0 }, events);
            &&& r.0 == UpnpState::Abandoned
            &&& r.1 =~= seq![
                UpnpAction::Sleep { secs: 5 },
                UpnpAction::AttemptAdd,
                UpnpAction::Sleep { secs: 10 },
                UpnpAction::AttemptAdd,
                UpnpAction::Sleep { secs: 15 },
                UpnpAction::AttemptAdd,
                UpnpAction::Sleep { secs: 20 },
                UpnpAction::AttemptAdd,
                UpnpAction::LogGiveUp,
            ]
        }),
{
    reveal_with_fuel(run_steps, 11);
}

} // verus!
