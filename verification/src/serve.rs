//! The life of a session: what is done in which order, from building the accounts
//! to the last audit record.
//!
//! The order is what matters here. Calls that still run are cancelled and waited
//! for before the bridges are shut down, and all of that before the record of the
//! process's end is written, which is what makes that record the last.
use vstd::prelude::*;
use vstd::string::*;

use crate::mcp::error::INVALID_PARAMS;
use crate::text;
use crate::text::signed_decimal_of;

verus! {

/// Why a session failed.
pub enum ServeFailure {
    /// The accounts could not be built.
    Registry(String),
    /// Both bridges ended before the session was opened.
    BridgesExitedBeforeInit,
    /// A bridge failed before the session was opened.
    BridgeDuringInit(String),
    /// The answer to a request before the session could not be written.
    PreInitEnvelope(String),
    /// A bridge failed after such an answer.
    BridgeAfterPreInit(String),
    /// The session was refused for a fault of the server.
    InitFailed { code: i32, message: String },
    /// A bridge failed after a refused session.
    BridgeAfterInitFailure(String),
    /// The session could not be opened for another reason.
    Init(String),
    /// A bridge failed during the session.
    Bridge(String),
    /// The protocol stack failed during the session.
    Service(String),
    /// A bridge failed while the session was shut down.
    BridgeShutdown(String),
}

/// The text of a failure.
pub open spec fn failure_text(failure: ServeFailure) -> Seq<char> {
    match failure {
        ServeFailure::Registry(e) => "building account registry: "@ + e@,
        ServeFailure::BridgesExitedBeforeInit => "validator bridges exited before init completed"@,
        ServeFailure::BridgeDuringInit(e) => "validator bridge during init: "@ + e@,
        ServeFailure::PreInitEnvelope(e) => e@,
        ServeFailure::BridgeAfterPreInit(e) => "validator bridge after pre-init: "@ + e@,
        ServeFailure::InitFailed { code, message } => "MCP server init failed: code "@
            + text::signed_decimal(code as int) + ": "@ + message@,
        ServeFailure::BridgeAfterInitFailure(e) => "validator bridge after init failure: "@ + e@,
        ServeFailure::Init(e) => "MCP server init: "@ + e@,
        ServeFailure::Bridge(e) => "validator bridge: "@ + e@,
        ServeFailure::Service(e) => "MCP server error: "@ + e@,
        ServeFailure::BridgeShutdown(e) => "validator bridge shutdown: "@ + e@,
    }
}

fn prefixed(prefix: &str, e: &String) -> (r: String)
    ensures
        r@ == prefix@ + e@,
{
    let mut r = prefix.to_owned();
    r.append(e.as_str());
    r
}

impl ServeFailure {
    /// The text of the failure.
    pub fn text(&self) -> (r: String)
        ensures
            r@ == failure_text(*self),
    {
        match self {
            ServeFailure::Registry(e) => prefixed("building account registry: ", e),
            ServeFailure::BridgesExitedBeforeInit => {
                "validator bridges exited before init completed".to_owned()
            },
            ServeFailure::BridgeDuringInit(e) => prefixed("validator bridge during init: ", e),
            ServeFailure::PreInitEnvelope(e) => e.clone(),
            ServeFailure::BridgeAfterPreInit(e) => prefixed("validator bridge after pre-init: ", e),
            ServeFailure::InitFailed { code, message } => {
                let mut r = "MCP server init failed: code ".to_owned();
                let digits = signed_decimal_of(*code as i64);
                r.append(digits.as_str());
                r.append(": ");
                r.append(message.as_str());
                r
            },
            ServeFailure::BridgeAfterInitFailure(e) => prefixed(
                "validator bridge after init failure: ",
                e,
            ),
            ServeFailure::Init(e) => prefixed("MCP server init: ", e),
            ServeFailure::Bridge(e) => prefixed("validator bridge: ", e),
            ServeFailure::Service(e) => prefixed("MCP server error: ", e),
            ServeFailure::BridgeShutdown(e) => prefixed("validator bridge shutdown: ", e),
        }
    }
}

/// Why the protocol stack opened no session.
pub enum InitFailure {
    /// The first message was a request that does not open one.
    ExpectedInitialize,
    /// The request that opens one was refused.
    Refused { code: i32, message: String },
    /// Anything else.
    Other(String),
}

/// Whether a refused session is the client's doing, which it has been told: then
/// the process ends well.
pub fn initialize_failure_is_handled_rejection(code: i32) -> (r: bool)
    ensures
        r == (code == INVALID_PARAMS),
{
    code == INVALID_PARAMS
}

/// What to make of the bridges' shutdown, and of what went before it.
pub enum Teardown {
    /// The outcome stands, whatever the shutdown comes to.
    Settled(Result<(), ServeFailure>),
    /// A request before the session was answered: a fault of the shutdown counts.
    AfterPreInit,
    /// The session was refused, with this outcome: a fault of the shutdown
    /// replaces it.
    AfterRefusal(Result<(), ServeFailure>),
}

/// Where a session stands.
pub enum ServePhase {
    /// The accounts are being built.
    Building,
    /// The session is being opened.
    Opening,
    /// A request before the session is being answered.
    Answering,
    /// The bridges are being shut down after a session that was not opened.
    TearingDown(Teardown),
    /// The running calls are being waited for after such a session.
    DrainingUnopened(Result<(), ServeFailure>),
    /// The session is served.
    Serving,
    /// The bridges have ended; the protocol stack is still to end.
    Finishing,
    /// The running calls are being waited for.
    Draining(Result<(), ServeFailure>),
    /// The bridges are being shut down.
    ShuttingDown { outcome: Result<(), ServeFailure>, undrained: u64 },
    /// The writer of cancellation records is being waited for.
    Joining { outcome: Result<(), ServeFailure>, undrained: u64 },
    /// All is done.
    Done { outcome: Result<(), ServeFailure>, undrained: u64 },
}

/// What is to be done next.
#[derive(Debug, Clone, Copy, PartialEq, Eq, Structural)]
pub enum ServeAction {
    BuildRegistry,
    /// Wait for the session to open, or for the bridges to end.
    RaceInit,
    /// Answer a request that came before the session.
    EmitPreInitEnvelope,
    /// Abort the inbound bridge and wait for both.
    ShutdownAfterFailure,
    /// Wait for the protocol stack to end, or for the bridges.
    RaceService,
    /// Wait for the protocol stack to end.
    AwaitService,
    /// Cancel the running calls and wait for them.
    DrainDispatches,
    /// Wait for both bridges.
    DrainSupervisor,
    /// Wait for the writer of cancellation records.
    JoinDrainer,
    /// Write the record of the process's end.
    Finish,
}

/// What happened.
pub enum ServeEvent {
    RegistryBuilt,
    RegistryFailed(String),
    /// The session is open.
    Opened,
    /// The bridges ended before it was; `intercepted` tells whether a request
    /// before the session was intercepted and answered.
    BridgesEndedUnopened { fault: Result<(), String>, intercepted: bool },
    /// The protocol stack opened none.
    NotOpened { failure: InitFailure, intercepted: bool },
    EnvelopeWritten,
    EnvelopeFailed(String),
    /// The bridges are shut down.
    BridgesDown(Result<(), String>),
    /// The bridges ended during the session.
    BridgesEnded(Result<(), String>),
    /// The protocol stack ended.
    ServiceEnded(Result<(), String>),
    /// This many calls are left.
    Drained(u64),
    DrainerJoined,
}

/// The outcome of a session that was refused with this code.
pub open spec fn refusal_outcome(code: i32, message: String) -> Result<(), ServeFailure> {
    if code == INVALID_PARAMS {
        Ok(())
    } else {
        Err(ServeFailure::InitFailed { code, message })
    }
}

/// What a session came to once its bridges are shut down.
pub open spec fn torn_down(teardown: Teardown, fault: Result<(), String>) -> Result<
    (),
    ServeFailure,
> {
    match teardown {
        Teardown::Settled(outcome) => outcome,
        Teardown::AfterPreInit => match fault {
            Ok(()) => Ok(()),
            Err(e) => Err(ServeFailure::BridgeAfterPreInit(e)),
        },
        Teardown::AfterRefusal(outcome) => match fault {
            Ok(()) => outcome,
            Err(e) => Err(ServeFailure::BridgeAfterInitFailure(e)),
        },
    }
}

/// Where a session stands after an event, and what is to be done then. `None`
/// where the event cannot come now.
pub open spec fn next(phase: ServePhase, event: ServeEvent) -> Option<(ServePhase, ServeAction)> {
    match (phase, event) {
        (ServePhase::Building, ServeEvent::RegistryBuilt) => Some(
            (ServePhase::Opening, ServeAction::RaceInit),
        ),
        (ServePhase::Building, ServeEvent::RegistryFailed(e)) => Some(
            (
                ServePhase::Done { outcome: Err(ServeFailure::Registry(e)), undrained: 0 },
                ServeAction::Finish,
            ),
        ),
        (ServePhase::Opening, ServeEvent::Opened) => Some(
            (ServePhase::Serving, ServeAction::RaceService),
        ),
        (ServePhase::Opening, ServeEvent::BridgesEndedUnopened { fault, intercepted }) => Some(
            (
                ServePhase::TearingDown(
                    Teardown::Settled(
                        if intercepted {
                            Ok(())
                        } else {
                            match fault {
                                Ok(()) => Err(ServeFailure::BridgesExitedBeforeInit),
                                Err(e) => Err(ServeFailure::BridgeDuringInit(e)),
                            }
                        },
                    ),
                ),
                ServeAction::ShutdownAfterFailure,
            ),
        ),
        (ServePhase::Opening, ServeEvent::NotOpened { failure, intercepted }) => if intercepted {
            Some(
                (
                    ServePhase::TearingDown(Teardown::Settled(Ok(()))),
                    ServeAction::ShutdownAfterFailure,
                ),
            )
        } else {
            match failure {
                InitFailure::ExpectedInitialize => Some(
                    (ServePhase::Answering, ServeAction::EmitPreInitEnvelope),
                ),
                InitFailure::Refused { code, message } => Some(
                    (
                        ServePhase::TearingDown(
                            Teardown::AfterRefusal(refusal_outcome(code, message)),
                        ),
                        ServeAction::ShutdownAfterFailure,
                    ),
                ),
                InitFailure::Other(e) => Some(
                    (
                        ServePhase::TearingDown(Teardown::Settled(Err(ServeFailure::Init(e)))),
                        ServeAction::ShutdownAfterFailure,
                    ),
                ),
            }
        },
        (ServePhase::Answering, ServeEvent::EnvelopeWritten) => Some(
            (ServePhase::TearingDown(Teardown::AfterPreInit), ServeAction::ShutdownAfterFailure),
        ),
        (ServePhase::Answering, ServeEvent::EnvelopeFailed(e)) => Some(
            (
                ServePhase::DrainingUnopened(Err(ServeFailure::PreInitEnvelope(e))),
                ServeAction::DrainDispatches,
            ),
        ),
        (ServePhase::TearingDown(teardown), ServeEvent::BridgesDown(fault)) => Some(
            (
                ServePhase::DrainingUnopened(torn_down(teardown, fault)),
                ServeAction::DrainDispatches,
            ),
        ),
        (ServePhase::DrainingUnopened(outcome), ServeEvent::Drained(undrained)) => Some(
            (ServePhase::Done { outcome, undrained }, ServeAction::Finish),
        ),
        (ServePhase::Serving, ServeEvent::BridgesEnded(Err(e))) => Some(
            (ServePhase::Draining(Err(ServeFailure::Bridge(e))), ServeAction::DrainDispatches),
        ),
        (ServePhase::Serving, ServeEvent::BridgesEnded(Ok(()))) => Some(
            (ServePhase::Finishing, ServeAction::AwaitService),
        ),
        (ServePhase::Serving, ServeEvent::ServiceEnded(result)) => Some(
            (ServePhase::Draining(service_outcome(result)), ServeAction::DrainDispatches),
        ),
        (ServePhase::Finishing, ServeEvent::ServiceEnded(result)) => Some(
            (ServePhase::Draining(service_outcome(result)), ServeAction::DrainDispatches),
        ),
        (ServePhase::Draining(outcome), ServeEvent::Drained(undrained)) => Some(
            (
                ServePhase::ShuttingDown { outcome, undrained },
                if outcome is Ok {
                    ServeAction::DrainSupervisor
                } else {
                    ServeAction::ShutdownAfterFailure
                },
            ),
        ),
        (ServePhase::ShuttingDown { outcome, undrained }, ServeEvent::BridgesDown(fault)) => Some(
            (
                ServePhase::Joining { outcome: session_outcome(outcome, fault), undrained },
                ServeAction::JoinDrainer,
            ),
        ),
        (ServePhase::Joining { outcome, undrained }, ServeEvent::DrainerJoined) => Some(
            (ServePhase::Done { outcome, undrained }, ServeAction::Finish),
        ),
        _ => None,
    }
}

/// What the end of the protocol stack makes of a session.
pub open spec fn service_outcome(result: Result<(), String>) -> Result<(), ServeFailure> {
    match result {
        Ok(()) => Ok(()),
        Err(e) => Err(ServeFailure::Service(e)),
    }
}

/// What a served session came to once its bridges are shut down: a failure during
/// the session comes before one of the shutdown.
pub open spec fn session_outcome(
    outcome: Result<(), ServeFailure>,
    fault: Result<(), String>,
) -> Result<(), ServeFailure> {
    match outcome {
        Err(e) => Err(e),
        Ok(()) => match fault {
            Ok(()) => Ok(()),
            Err(e) => Err(ServeFailure::BridgeShutdown(e)),
        },
    }
}

fn settle_teardown(teardown: Teardown, fault: Result<(), String>) -> (r: Result<(), ServeFailure>)
    ensures
        r == torn_down(teardown, fault),
{
    match teardown {
        Teardown::Settled(outcome) => outcome,
        Teardown::AfterPreInit => match fault {
            Ok(()) => Ok(()),
            Err(e) => Err(ServeFailure::BridgeAfterPreInit(e)),
        },
        Teardown::AfterRefusal(outcome) => match fault {
            Ok(()) => outcome,
            Err(e) => Err(ServeFailure::BridgeAfterInitFailure(e)),
        },
    }
}

fn on_not_opened(failure: InitFailure, intercepted: bool) -> (r: (ServePhase, ServeAction))
    ensures
        Some(r) == next(ServePhase::Opening, ServeEvent::NotOpened { failure, intercepted }),
{
    if intercepted {
        return (
            ServePhase::TearingDown(Teardown::Settled(Ok(()))),
            ServeAction::ShutdownAfterFailure,
        );
    }
    match failure {
        InitFailure::ExpectedInitialize => {
            (ServePhase::Answering, ServeAction::EmitPreInitEnvelope)
        },
        InitFailure::Refused { code, message } => {
            let outcome = if initialize_failure_is_handled_rejection(code) {
                Ok(())
            } else {
                Err(ServeFailure::InitFailed { code, message })
            };
            (
                ServePhase::TearingDown(Teardown::AfterRefusal(outcome)),
                ServeAction::ShutdownAfterFailure,
            )
        },
        InitFailure::Other(e) => {
            (
                ServePhase::TearingDown(Teardown::Settled(Err(ServeFailure::Init(e)))),
                ServeAction::ShutdownAfterFailure,
            )
        },
    }
}

fn service_result(result: Result<(), String>) -> (r: Result<(), ServeFailure>)
    ensures
        r == service_outcome(result),
{
    match result {
        Ok(()) => Ok(()),
        Err(e) => Err(ServeFailure::Service(e)),
    }
}

/// Where a session begins, and what is to be done first.
pub fn serve_start() -> (r: (ServePhase, ServeAction))
    ensures
        r == (ServePhase::Building, ServeAction::BuildRegistry),
{
    (ServePhase::Building, ServeAction::BuildRegistry)
}

/// Takes note of an event: where the session stands then, and what is to be done.
/// `None` where the event cannot come now.
pub fn serve_step(phase: ServePhase, event: ServeEvent) -> (r: Option<(ServePhase, ServeAction)>)
    ensures
        r == next(phase, event),
{
    match (phase, event) {
        (ServePhase::Building, ServeEvent::RegistryBuilt) => Some(
            (ServePhase::Opening, ServeAction::RaceInit),
        ),
        (ServePhase::Building, ServeEvent::RegistryFailed(e)) => Some(
            (
                ServePhase::Done { outcome: Err(ServeFailure::Registry(e)), undrained: 0 },
                ServeAction::Finish,
            ),
        ),
        (ServePhase::Opening, ServeEvent::Opened) => Some(
            (ServePhase::Serving, ServeAction::RaceService),
        ),
        (ServePhase::Opening, ServeEvent::BridgesEndedUnopened { fault, intercepted }) => {
            let outcome = if intercepted {
                Ok(())
            } else {
                match fault {
                    Ok(()) => Err(ServeFailure::BridgesExitedBeforeInit),
                    Err(e) => Err(ServeFailure::BridgeDuringInit(e)),
                }
            };
            Some(
                (
                    ServePhase::TearingDown(Teardown::Settled(outcome)),
                    ServeAction::ShutdownAfterFailure,
                ),
            )
        },
        (ServePhase::Opening, ServeEvent::NotOpened { failure, intercepted }) => Some(
            on_not_opened(failure, intercepted),
        ),
        (ServePhase::Answering, ServeEvent::EnvelopeWritten) => Some(
            (ServePhase::TearingDown(Teardown::AfterPreInit), ServeAction::ShutdownAfterFailure),
        ),
        (ServePhase::Answering, ServeEvent::EnvelopeFailed(e)) => Some(
            (
                ServePhase::DrainingUnopened(Err(ServeFailure::PreInitEnvelope(e))),
                ServeAction::DrainDispatches,
            ),
        ),
        (ServePhase::TearingDown(teardown), ServeEvent::BridgesDown(fault)) => Some(
            (
                ServePhase::DrainingUnopened(settle_teardown(teardown, fault)),
                ServeAction::DrainDispatches,
            ),
        ),
        (ServePhase::DrainingUnopened(outcome), ServeEvent::Drained(undrained)) => Some(
            (ServePhase::Done { outcome, undrained }, ServeAction::Finish),
        ),
        (ServePhase::Serving, ServeEvent::BridgesEnded(Err(e))) => Some(
            (ServePhase::Draining(Err(ServeFailure::Bridge(e))), ServeAction::DrainDispatches),
        ),
        (ServePhase::Serving, ServeEvent::BridgesEnded(Ok(()))) => Some(
            (ServePhase::Finishing, ServeAction::AwaitService),
        ),
        (ServePhase::Serving, ServeEvent::ServiceEnded(result)) => Some(
            (ServePhase::Draining(service_result(result)), ServeAction::DrainDispatches),
        ),
        (ServePhase::Finishing, ServeEvent::ServiceEnded(result)) => Some(
            (ServePhase::Draining(service_result(result)), ServeAction::DrainDispatches),
        ),
        (ServePhase::Draining(outcome), ServeEvent::Drained(undrained)) => {
            let action = if outcome.is_ok() {
                ServeAction::DrainSupervisor
            } else {
                ServeAction::ShutdownAfterFailure
            };
            Some((ServePhase::ShuttingDown { outcome, undrained }, action))
        },
        (ServePhase::ShuttingDown { outcome, undrained }, ServeEvent::BridgesDown(fault)) => {
            let settled = match outcome {
                Err(e) => Err(e),
                Ok(()) => match fault {
                    Ok(()) => Ok(()),
                    Err(e) => Err(ServeFailure::BridgeShutdown(e)),
                },
            };
            Some((ServePhase::Joining { outcome: settled, undrained }, ServeAction::JoinDrainer))
        },
        (ServePhase::Joining { outcome, undrained }, ServeEvent::DrainerJoined) => Some(
            (ServePhase::Done { outcome, undrained }, ServeAction::Finish),
        ),
        _ => None,
    }
}

/// Where a session stands after these events, and all that was to be done.
/// `None` where one of them could not come.
pub open spec fn run(events: Seq<ServeEvent>) -> Option<(ServePhase, Seq<ServeAction>)>
    decreases events.len(),
{
    if events.len() == 0 {
        Some((ServePhase::Building, seq![ServeAction::BuildRegistry]))
    } else {
        match run(events.drop_last()) {
            None => None,
            Some((phase, actions)) => match next(phase, events.last()) {
                None => None,
                Some((after, action)) => Some((after, actions.push(action))),
            },
        }
    }
}

/// How often something was to be done.
pub open spec fn times(actions: Seq<ServeAction>, action: ServeAction) -> nat
    decreases actions.len(),
{
    if actions.len() == 0 {
        0
    } else {
        times(actions.drop_last(), action) + if actions.last() == action {
            1nat
        } else {
            0nat
        }
    }
}

/// What was to be done last is the first `n` of these, in this order: to cancel the
/// running calls and wait for them, to shut the bridges down, to wait for the writer
/// of cancellation records, and to write the record of the process's end.
pub open spec fn winds_up(actions: Seq<ServeAction>, n: int) -> bool {
    let at = actions.len() - n;
    &&& at >= 0
    &&& n > 0 ==> actions[at] == ServeAction::DrainDispatches
    &&& n > 1 ==> actions[at + 1] == ServeAction::DrainSupervisor || actions[at + 1]
        == ServeAction::ShutdownAfterFailure
    &&& n > 2 ==> actions[at + 2] == ServeAction::JoinDrainer
    &&& n > 3 ==> actions[at + 3] == ServeAction::Finish
}

/// What was to be done so far, by where the session stands.
spec fn done_so_far(phase: ServePhase, actions: Seq<ServeAction>) -> bool {
    let drains = times(actions, ServeAction::DrainDispatches);
    let joins = times(actions, ServeAction::JoinDrainer);
    let ends = times(actions, ServeAction::Finish);
    let served = times(actions, ServeAction::RaceService);
    match phase {
        ServePhase::Building => drains == 0 && joins == 0 && ends == 0 && served == 0 && times(
            actions,
            ServeAction::RaceInit,
        ) == 0,
        ServePhase::Opening => drains == 0 && joins == 0 && ends == 0 && served == 0 && times(
            actions,
            ServeAction::RaceInit,
        ) == 1,
        ServePhase::Answering => drains == 0 && joins == 0 && ends == 0 && served == 0,
        ServePhase::TearingDown(_) => drains == 0 && joins == 0 && ends == 0 && served == 0,
        ServePhase::DrainingUnopened(_) => drains == 1 && joins == 0 && ends == 0 && served == 0,
        ServePhase::Serving => drains == 0 && joins == 0 && ends == 0 && served == 1,
        ServePhase::Finishing => drains == 0 && joins == 0 && ends == 0 && served == 1,
        ServePhase::Draining(_) => drains == 1 && joins == 0 && ends == 0 && served == 1 && winds_up(
            actions,
            1,
        ),
        ServePhase::ShuttingDown { .. } => drains == 1 && joins == 0 && ends == 0 && served == 1
            && winds_up(actions, 2),
        ServePhase::Joining { .. } => drains == 1 && joins == 1 && ends == 0 && served == 1
            && winds_up(actions, 3),
        ServePhase::Done { outcome, undrained } => {
            &&& ends == 1
            &&& actions.last() == ServeAction::Finish
            &&& joins == served
            &&& served <= drains <= 1
            &&& served == 1 ==> winds_up(actions, 4)
            &&& drains == 0 ==> undrained == 0 && outcome matches Err(ServeFailure::Registry(_))
        },
    }
}

proof fn lemma_run(events: Seq<ServeEvent>)
    requires
        run(events) is Some,
    ensures
        run(events) matches Some((phase, actions)) && done_so_far(phase, actions),
    decreases events.len(),
{
    reveal_with_fuel(times, 2);
    if events.len() > 0 {
        lemma_run(events.drop_last());
        let (phase, actions) = run(events.drop_last())->0;
        let (after, action) = next(phase, events.last())->0;
        assert(actions.push(action).drop_last() =~= actions);
    } else {
        assert(seq![ServeAction::BuildRegistry].drop_last() =~= Seq::empty());
    }
}

/// However a session goes, the record of the process's end is the last thing to be
/// done, and comes once. Unless the accounts could not even be built, the running
/// calls were cancelled and waited for before it, once; and where a session was
/// served, so was the writer of cancellation records.
pub proof fn law_process_end_is_last(events: Seq<ServeEvent>)
    requires
        run(events) matches Some((phase, _)) && phase is Done,
    ensures
        run(events) matches Some((phase, actions)) && {
            &&& actions.last() == ServeAction::Finish
            &&& times(actions, ServeAction::Finish) == 1
            &&& times(actions, ServeAction::DrainDispatches) == 1 || (phase matches ServePhase::Done {
                outcome: Err(ServeFailure::Registry(_)),
                ..
            })
            &&& times(actions, ServeAction::JoinDrainer) == times(actions, ServeAction::RaceService)
        },
{
    lemma_run(events);
}

/// A session that was served is wound up in this order, each step once: the running
/// calls are waited for, then the bridges are shut down, then the writer of
/// cancellation records is waited for, and then the record of the process's end is
/// written.
pub proof fn law_served_session_winds_up_in_order(events: Seq<ServeEvent>)
    requires
        run(events) matches Some((phase, actions)) && phase is Done && times(
            actions,
            ServeAction::RaceService,
        ) > 0,
    ensures
        run(events) matches Some((_, actions)) && {
            &&& winds_up(actions, 4)
            &&& times(actions, ServeAction::DrainDispatches) == 1
            &&& times(actions, ServeAction::DrainSupervisor) + times(
                actions,
                ServeAction::ShutdownAfterFailure,
            ) == 1
            &&& times(actions, ServeAction::JoinDrainer) == 1
            &&& times(actions, ServeAction::Finish) == 1
        },
{
    lemma_run(events);
    lemma_shutdowns(events);
}

/// The bridges of a served session are shut down once its calls were waited for, and
/// not before.
proof fn lemma_shutdowns(events: Seq<ServeEvent>)
    requires
        run(events) is Some,
    ensures
        run(events) matches Some((phase, actions)) && {
            let downs = times(actions, ServeAction::DrainSupervisor) + times(
                actions,
                ServeAction::ShutdownAfterFailure,
            );
            match phase {
                ServePhase::Building => downs == 0,
                ServePhase::Opening => downs == 0,
                ServePhase::Answering => downs == 0,
                ServePhase::TearingDown(_) => times(actions, ServeAction::RaceService) == 0,
                ServePhase::DrainingUnopened(_) => times(actions, ServeAction::RaceService) == 0,
                ServePhase::Serving => downs == 0,
                ServePhase::Finishing => downs == 0,
                ServePhase::Draining(_) => downs == 0,
                ServePhase::ShuttingDown { .. } => downs == 1,
                ServePhase::Joining { .. } => downs == 1,
                ServePhase::Done { .. } => times(actions, ServeAction::RaceService) > 0 ==> downs
                    == 1,
            }
        },
    decreases events.len(),
{
    reveal_with_fuel(times, 2);
    lemma_run(events);
    if events.len() > 0 {
        lemma_shutdowns(events.drop_last());
        lemma_run(events.drop_last());
        let (phase, actions) = run(events.drop_last())->0;
        let (after, action) = next(phase, events.last())->0;
        assert(actions.push(action).drop_last() =~= actions);
    } else {
        assert(seq![ServeAction::BuildRegistry].drop_last() =~= Seq::empty());
    }
}

/// A session that is done stays so: nothing more can happen.
pub proof fn law_done_is_final(
    outcome: Result<(), ServeFailure>,
    undrained: u64,
    event: ServeEvent,
)
    ensures
        next(ServePhase::Done { outcome, undrained }, event) is None,
{
}

/// A request that was intercepted before the session is a good end, whichever end
/// of the race was seen first and however the bridges shut down.
pub proof fn law_interception_ends_well(
    fault: Result<(), String>,
    failure: InitFailure,
    down: Result<(), String>,
)
    ensures
        next(ServePhase::Opening, ServeEvent::BridgesEndedUnopened { fault, intercepted: true })
            == next(ServePhase::Opening, ServeEvent::NotOpened { failure, intercepted: true }),
        torn_down(Teardown::Settled(Ok(())), down) is Ok,
        next(ServePhase::Opening, ServeEvent::NotOpened { failure, intercepted: true }) matches Some(
            (torn, _),
        ) && next(torn, ServeEvent::BridgesDown(down)) == Some(
            (ServePhase::DrainingUnopened(Ok(())), ServeAction::DrainDispatches),
        ),
{
}

/// How the process ended, for the record.
#[derive(Debug, Clone, Copy, PartialEq, Eq, Structural)]
pub enum ProcessEndReason {
    /// The client went away, or was refused and told so.
    Eof,
    Error,
}

/// How the process ended, by what the session came to.
pub open spec fn reason_of(outcome: Result<(), ServeFailure>) -> ProcessEndReason {
    match outcome {
        Ok(()) => ProcessEndReason::Eof,
        Err(_) => ProcessEndReason::Error,
    }
}

/// How the process ended, by what the session came to.
pub fn process_end_reason(outcome: &Result<(), ServeFailure>) -> (r: ProcessEndReason)
    ensures
        r == if *outcome is Ok {
            ProcessEndReason::Eof
        } else {
            ProcessEndReason::Error
        },
        r == reason_of(*outcome),
{
    match outcome {
        Ok(()) => ProcessEndReason::Eof,
        Err(_) => ProcessEndReason::Error,
    }
}

/// Where a session stands after one event more: where it stood, if the event cannot come.
pub open spec fn then_at(phase: ServePhase, event: ServeEvent) -> ServePhase {
    match next(phase, event) {
        Some((after, _)) => after,
        None => phase,
    }
}

/// A served session ends as its protocol stack ends: a failure of the stack stands
/// whatever the shutdown comes to, and only after a good end a fault of the shutdown
/// counts. The calls that were left are reported either way.
pub proof fn law_served_session_ends_as_its_stack(
    result: Result<(), String>,
    undrained: u64,
    fault: Result<(), String>,
)
    ensures
        ({
            let draining = then_at(ServePhase::Serving, ServeEvent::ServiceEnded(result));
            let shutting = then_at(draining, ServeEvent::Drained(undrained));
            let joining = then_at(shutting, ServeEvent::BridgesDown(fault));
            let done = then_at(joining, ServeEvent::DrainerJoined);
            let waiting = then_at(ServePhase::Serving, ServeEvent::BridgesEnded(Ok(())));
            &&& done matches ServePhase::Done { outcome, undrained: left } && left == undrained
                && match (result, fault) {
                (Err(e), _) => outcome == Err::<(), ServeFailure>(ServeFailure::Service(e)),
                (Ok(()), Err(e)) => outcome == Err::<(), ServeFailure>(
                    ServeFailure::BridgeShutdown(e),
                ),
                (Ok(()), Ok(())) => outcome is Ok,
            }
            &&& then_at(waiting, ServeEvent::ServiceEnded(result)) == draining
        }),
{
}

/// A bridge that fails during a session is what the session comes to, whatever the
/// shutdown comes to.
pub proof fn law_failed_bridge_ends_the_session(
    e: String,
    undrained: u64,
    fault: Result<(), String>,
)
    ensures
        ({
            let draining = then_at(ServePhase::Serving, ServeEvent::BridgesEnded(Err(e)));
            let shutting = then_at(draining, ServeEvent::Drained(undrained));
            let joining = then_at(shutting, ServeEvent::BridgesDown(fault));
            then_at(joining, ServeEvent::DrainerJoined) == (ServePhase::Done {
                outcome: Err(ServeFailure::Bridge(e)),
                undrained,
            })
        }),
        next(ServePhase::Draining(Err(ServeFailure::Bridge(e))), ServeEvent::Drained(undrained))
            matches Some((_, action)) && action == ServeAction::ShutdownAfterFailure,
        next(ServePhase::Draining(Ok(())), ServeEvent::Drained(undrained)) matches Some((_, action))
            && action == ServeAction::DrainSupervisor,
{
}

/// What a session that was not opened comes to, once its bridges are down and its calls
/// waited for.
pub open spec fn unopened_end(
    failure: InitFailure,
    fault: Result<(), String>,
    undrained: u64,
) -> ServePhase {
    let torn = then_at(
        ServePhase::Opening,
        ServeEvent::NotOpened { failure, intercepted: false },
    );
    then_at(then_at(torn, ServeEvent::BridgesDown(fault)), ServeEvent::Drained(undrained))
}

/// A client that was refused for its parameters has been told, and the process ends
/// well. A refusal by any other code is a failure with that code and its text. A bridge
/// that fails after the refusal counts before either.
pub proof fn law_refused_session_ends(code: i32, message: String, e: String, undrained: u64)
    ensures
        unopened_end(InitFailure::Refused { code, message }, Ok(()), undrained) == (
        ServePhase::Done {
            outcome: if code == -32602 {
                Ok(())
            } else {
                Err(ServeFailure::InitFailed { code, message })
            },
            undrained,
        }),
        unopened_end(InitFailure::Refused { code, message }, Err(e), undrained) == (
        ServePhase::Done { outcome: Err(ServeFailure::BridgeAfterInitFailure(e)), undrained }),
{
}

/// A session that fails to open for another reason ends with that reason, however the
/// bridges shut down.
pub proof fn law_unopened_session_ends(e: String, fault: Result<(), String>, undrained: u64)
    ensures
        unopened_end(InitFailure::Other(e), fault, undrained) == (ServePhase::Done {
            outcome: Err(ServeFailure::Init(e)),
            undrained,
        }),
        ({
            let torn = then_at(
                ServePhase::Opening,
                ServeEvent::BridgesEndedUnopened { fault: Err(e), intercepted: false },
            );
            then_at(then_at(torn, ServeEvent::BridgesDown(fault)), ServeEvent::Drained(undrained))
                == (ServePhase::Done {
                outcome: Err(ServeFailure::BridgeDuringInit(e)),
                undrained,
            })
        }),
        ({
            let torn = then_at(
                ServePhase::Opening,
                ServeEvent::BridgesEndedUnopened { fault: Ok(()), intercepted: false },
            );
            then_at(then_at(torn, ServeEvent::BridgesDown(fault)), ServeEvent::Drained(undrained))
                == (ServePhase::Done {
                outcome: Err(ServeFailure::BridgesExitedBeforeInit),
                undrained,
            })
        }),
        then_at(ServePhase::Building, ServeEvent::RegistryFailed(e)) == (ServePhase::Done {
            outcome: Err(ServeFailure::Registry(e)),
            undrained: 0,
        }),
{
}

/// A request before the session is answered, and the process then ends well, unless a
/// bridge fails after the answer. An answer that cannot be written is the failure.
pub proof fn law_answered_early_request_ends_well(e: String, undrained: u64)
    ensures
        next(
            ServePhase::Opening,
            ServeEvent::NotOpened { failure: InitFailure::ExpectedInitialize, intercepted: false },
        ) == Some((ServePhase::Answering, ServeAction::EmitPreInitEnvelope)),
        ({
            let torn = then_at(ServePhase::Answering, ServeEvent::EnvelopeWritten);
            &&& then_at(
                then_at(torn, ServeEvent::BridgesDown(Ok(()))),
                ServeEvent::Drained(undrained),
            ) == (ServePhase::Done { outcome: Ok(()), undrained })
            &&& then_at(
                then_at(torn, ServeEvent::BridgesDown(Err(e))),
                ServeEvent::Drained(undrained),
            ) == (ServePhase::Done {
                outcome: Err(ServeFailure::BridgeAfterPreInit(e)),
                undrained,
            })
        }),
        then_at(
            then_at(ServePhase::Answering, ServeEvent::EnvelopeFailed(e)),
            ServeEvent::Drained(undrained),
        ) == (ServePhase::Done { outcome: Err(ServeFailure::PreInitEnvelope(e)), undrained }),
{
}

/// The text of a failure ends with its cause, behind words that tell where it came from.
pub proof fn law_failure_text_tells_the_cause(e: String, code: i32)
    ensures
        failure_text(ServeFailure::Registry(e)) == "building account registry: "@ + e@,
        failure_text(ServeFailure::BridgeDuringInit(e)) == "validator bridge during init: "@ + e@,
        failure_text(ServeFailure::PreInitEnvelope(e)) == e@,
        failure_text(ServeFailure::BridgeAfterPreInit(e)) == "validator bridge after pre-init: "@
            + e@,
        failure_text(ServeFailure::InitFailed { code, message: e })
            == "MCP server init failed: code "@ + text::signed_decimal(code as int) + ": "@ + e@,
        failure_text(ServeFailure::BridgeAfterInitFailure(e))
            == "validator bridge after init failure: "@ + e@,
        failure_text(ServeFailure::Init(e)) == "MCP server init: "@ + e@,
        failure_text(ServeFailure::Bridge(e)) == "validator bridge: "@ + e@,
        failure_text(ServeFailure::Service(e)) == "MCP server error: "@ + e@,
        failure_text(ServeFailure::BridgeShutdown(e)) == "validator bridge shutdown: "@ + e@,
{
}

/// What is to be done goes by where the session stands after an event. In a shutdown of a
/// served session the inbound bridge is aborted only where the session failed.
pub proof fn law_where_it_stands_says_what_to_do(phase: ServePhase, event: ServeEvent)
    ensures
        next(phase, event) matches Some((after, action)) ==> action == match after {
            ServePhase::Building => ServeAction::BuildRegistry,
            ServePhase::Opening => ServeAction::RaceInit,
            ServePhase::Answering => ServeAction::EmitPreInitEnvelope,
            ServePhase::TearingDown(_) => ServeAction::ShutdownAfterFailure,
            ServePhase::DrainingUnopened(_) => ServeAction::DrainDispatches,
            ServePhase::Serving => ServeAction::RaceService,
            ServePhase::Finishing => ServeAction::AwaitService,
            ServePhase::Draining(_) => ServeAction::DrainDispatches,
            ServePhase::ShuttingDown { outcome: Ok(()), .. } => ServeAction::DrainSupervisor,
            ServePhase::ShuttingDown { outcome: Err(_), .. } => ServeAction::ShutdownAfterFailure,
            ServePhase::Joining { .. } => ServeAction::JoinDrainer,
            ServePhase::Done { .. } => ServeAction::Finish,
        },
{
}

/// Each event can come just where what it tells of is under way.
pub proof fn law_events_come_in_their_time(phase: ServePhase, event: ServeEvent)
    ensures
        event is RegistryBuilt || event is RegistryFailed ==> (next(phase, event) is Some <==> phase
            is Building),
        event is Opened || event is BridgesEndedUnopened || event is NotOpened ==> (next(
            phase,
            event,
        ) is Some <==> phase is Opening),
        event is EnvelopeWritten || event is EnvelopeFailed ==> (next(phase, event) is Some
            <==> phase is Answering),
        event is BridgesDown ==> (next(phase, event) is Some <==> phase is TearingDown || phase
            is ShuttingDown),
        event is BridgesEnded ==> (next(phase, event) is Some <==> phase is Serving),
        event is ServiceEnded ==> (next(phase, event) is Some <==> phase is Serving || phase
            is Finishing),
        event is Drained ==> (next(phase, event) is Some <==> phase is Draining || phase
            is DrainingUnopened),
        event is DrainerJoined ==> (next(phase, event) is Some <==> phase is Joining),
        next(ServePhase::Building, ServeEvent::RegistryBuilt) matches Some((after, _)) && after
            is Opening,
        next(ServePhase::Opening, ServeEvent::Opened) matches Some((after, _)) && after is Serving,
{
}

/// The record of the process's end tells of an error if and only if the session failed.
pub proof fn law_end_record_tells_of_a_failure(failure: ServeFailure)
    ensures
        reason_of(Err(failure)) is Error,
        reason_of(Ok(())) is Eof,
{
}

} // verus!
