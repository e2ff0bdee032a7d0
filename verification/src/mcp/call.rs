//! One tool call, from its start record to its answer.
//!
//! The records, the account's guard and the tool itself are outside. Here is what
//! is done with each answer that they give, and in what order.
use vstd::prelude::*;

use crate::account::DEFAULT_ACCOUNT_NAME;
use crate::boot::registry;
use crate::boot::registry::AccountRegistry;
use crate::error;
use crate::error::{ErrorCode, RimapError};
use crate::json::{Json, JsonV};
use crate::mcp::audit_envelope;
use crate::mcp::audit_envelope::{
    open_envelope, reply, AuditEnvelopeGuard, Reply, StartWrite, ToolEnd,
};
use crate::mcp::dispatch;
use crate::mcp::dispatch::{
    audit_account, guard_signal, under_ceiling, DispatchTicket, FailureReason, GuardSignal,
    PostureContext,
};
use crate::mcp::error::Content;
use crate::mcp::result_provenance;
use crate::mcp::server;
use crate::mcp::server::CallPlan;
use crate::text;
use crate::text::copy_text;
use crate::tool::ToolName;

verus! {

/// What is known of a call before it begins.
pub struct Call {
    pub tool: ToolName,
    /// The account that it is logged under.
    pub account: Option<String>,
    /// How long a tool of an account may take. The tools about accounts have no
    /// limit, and no guard that is told how they ended.
    pub ceiling_secs: Option<u64>,
}

/// The name that calls on an account of this name are logged under: none for the
/// default name.
pub open spec fn logged_name(id: Seq<char>) -> Option<Seq<char>> {
    if id == DEFAULT_ACCOUNT_NAME@ {
        None
    } else {
        Some(id)
    }
}

/// How long a planned call may take: `None` where it has no limit.
pub open spec fn limit_of(plan: CallPlan, accounts: Seq<registry::AccountState>) -> Option<u64> {
    match plan {
        CallPlan::Infrastructure(_) => None,
        CallPlan::Account { account, .. } => match registry::last_named(accounts, account@) {
            Some(state) => Some(state.tool_call_timeout_secs),
            None => None,
        },
    }
}

/// The posture that a planned call is logged under: `None` where the account of the plan
/// is not configured.
pub open spec fn posture_of(plan: CallPlan, accounts: Seq<registry::AccountState>) -> Option<
    PostureContext,
> {
    match plan {
        CallPlan::Infrastructure(_) => Some(PostureContext::Infrastructure),
        CallPlan::Account { account, .. } => match registry::last_named(accounts, account@) {
            Some(state) => Some(PostureContext::Account(state.posture)),
            None => None,
        },
    }
}

/// What is known of a planned call before it begins. A tool about accounts belongs
/// to none: it is logged under no account and has no limit. `None` where the
/// account of the plan is not configured.
pub fn call_for(plan: &CallPlan, registry: &AccountRegistry) -> (r: Option<Call>)
    ensures
        match *plan {
            CallPlan::Infrastructure(tool) => r matches Some(call) && call.tool == tool
                && call.account is None && call.ceiling_secs is None,
            CallPlan::Account { account, tool } => match registry::last_named(
                registry.states(),
                account@,
            ) {
                Some(state) => r matches Some(call) && call.tool == tool && text::text_view(
                    call.account,
                ) == logged_name(state.id@) && call.ceiling_secs == Some(
                    state.tool_call_timeout_secs,
                ),
                None => r is None,
            },
        },
        r matches Some(call) ==> call.ceiling_secs == limit_of(*plan, registry.states()),
{
    match plan {
        CallPlan::Infrastructure(tool) => Some(
            Call { tool: *tool, account: None, ceiling_secs: None },
        ),
        CallPlan::Account { account, tool } => match registry.find_by_name(account.as_str()) {
            Some(state) => Some(
                Call {
                    tool: *tool,
                    account: audit_account(state),
                    ceiling_secs: Some(state.tool_call_timeout_secs),
                },
            ),
            None => None,
        },
    }
}

/// The posture that a planned call is logged under. `None` where the account of
/// the plan is not configured.
pub fn posture_for(plan: &CallPlan, registry: &AccountRegistry) -> (r: Option<PostureContext>)
    ensures
        r == match *plan {
            CallPlan::Infrastructure(_) => Some(PostureContext::Infrastructure),
            CallPlan::Account { account, .. } => match registry::last_named(
                registry.states(),
                account@,
            ) {
                Some(state) => Some(PostureContext::Account(state.posture)),
                None => None,
            },
        },
        r == posture_of(*plan, registry.states()),
{
    match plan {
        CallPlan::Infrastructure(_) => Some(PostureContext::Infrastructure),
        CallPlan::Account { account, .. } => match registry.find_by_name(account.as_str()) {
            Some(state) => Some(PostureContext::Account(state.posture)),
            None => None,
        },
    }
}

/// A call that is planned for an account is planned for a configured one.
pub proof fn law_planned_account_is_configured(
    accounts: Seq<registry::AccountState>,
    raw: Seq<char>,
    args: Option<JsonV>,
)
    requires
        registry::in_order(accounts),
    ensures
        server::planned(accounts, raw, args) matches server::PlanV::Account(name, _)
            ==> registry::last_named(accounts, name) is Some,
{
    if let server::PlanV::Account(name, _) = server::planned(accounts, raw, args) {
        registry::lemma_last_named(accounts, name);
        if let Some(wanted) = crate::mcp::tool_name::split_name(raw).0 {
            registry::lemma_last_named(accounts, wanted);
        } else {
            assert(accounts[0].id@ == name);
        }
    }
}

/// Where a call stands.
pub enum CallPhase {
    /// Its start record is being written.
    Starting,
    /// The account's guard, or the limiter, is being asked.
    Asking { guard: AuditEnvelopeGuard, ticket: DispatchTicket },
    /// The tool is running.
    Running { guard: AuditEnvelopeGuard },
    /// Its end record is being written.
    Ending { result: Result<Json, RimapError> },
    Over,
}

/// What happened. Times are those since the start record, in milliseconds.
pub enum CallEvent {
    Started(StartWrite),
    /// The call may run.
    Admitted,
    /// The call may not run.
    Refused(RimapError, u64),
    /// The tool came to its end.
    Finished(Result<Json, RimapError>, u64),
    /// The tool took longer than it may, and was cut off.
    CutOff(u64),
    /// The end record is written, or was lost. An error of the tool is shown with
    /// this text.
    EndRecorded(String),
    /// The call was given up.
    Dropped(u64),
}

/// What is to be done.
pub enum CallAction {
    WriteStart,
    /// Ask the account's guard, or the limiter.
    AskGuard,
    /// Run the tool.
    Dispatch(DispatchTicket),
    /// Tell the account's guard, give up its connection where `give_up`, and write
    /// the end record.
    Conclude { signal: GuardSignal, give_up: bool, end: ToolEnd },
    /// Hand the end record of a call that was given up to its writer.
    RecordCancelled(ToolEnd),
    /// Answer the client.
    Answer(Reply),
    Nothing,
}

/// Where a call stands, in short.
pub enum Stage {
    Starting,
    Asking,
    Running,
    Ending,
    Over,
}

/// What happened, in short.
pub enum Happening {
    StartWritten,
    StartFailed,
    Admitted,
    Refused,
    Finished,
    CutOff,
    EndRecorded,
    Dropped,
}

/// What is to be done, in short.
pub enum Deed {
    WriteStart,
    AskGuard,
    Dispatch,
    Conclude,
    RecordCancelled,
    Answer,
    Nothing,
}

/// The stage that a phase belongs to.
pub open spec fn stage(phase: CallPhase) -> Stage {
    match phase {
        CallPhase::Starting => Stage::Starting,
        CallPhase::Asking { .. } => Stage::Asking,
        CallPhase::Running { .. } => Stage::Running,
        CallPhase::Ending { .. } => Stage::Ending,
        CallPhase::Over => Stage::Over,
    }
}

/// What happens in an event.
pub open spec fn happening(event: CallEvent) -> Happening {
    match event {
        CallEvent::Started(StartWrite::Written(_)) => Happening::StartWritten,
        CallEvent::Started(_) => Happening::StartFailed,
        CallEvent::Admitted => Happening::Admitted,
        CallEvent::Refused(_, _) => Happening::Refused,
        CallEvent::Finished(_, _) => Happening::Finished,
        CallEvent::CutOff(_) => Happening::CutOff,
        CallEvent::EndRecorded(_) => Happening::EndRecorded,
        CallEvent::Dropped(_) => Happening::Dropped,
    }
}

/// What is done in an action.
pub open spec fn deed(action: CallAction) -> Deed {
    match action {
        CallAction::WriteStart => Deed::WriteStart,
        CallAction::AskGuard => Deed::AskGuard,
        CallAction::Dispatch(_) => Deed::Dispatch,
        CallAction::Conclude { .. } => Deed::Conclude,
        CallAction::RecordCancelled(_) => Deed::RecordCancelled,
        CallAction::Answer(_) => Deed::Answer,
        CallAction::Nothing => Deed::Nothing,
    }
}

/// Where a call stands next, and what is to be done: `None` where that cannot
/// happen now. Only the tools of accounts are `limited` in time.
pub open spec fn next(limited: bool, at: Stage, what: Happening) -> Option<(Stage, Deed)> {
    match (at, what) {
        (Stage::Starting, Happening::StartWritten) => Some((Stage::Asking, Deed::AskGuard)),
        (Stage::Starting, Happening::StartFailed) => Some((Stage::Over, Deed::Answer)),
        (Stage::Starting, Happening::Dropped) => Some((Stage::Over, Deed::Nothing)),
        (Stage::Asking, Happening::Admitted) => Some((Stage::Running, Deed::Dispatch)),
        (Stage::Asking, Happening::Refused) => Some((Stage::Ending, Deed::Conclude)),
        (Stage::Asking, Happening::Dropped) => Some((Stage::Over, Deed::RecordCancelled)),
        (Stage::Running, Happening::Finished) => Some((Stage::Ending, Deed::Conclude)),
        (Stage::Running, Happening::CutOff) => if limited {
            Some((Stage::Ending, Deed::Conclude))
        } else {
            None
        },
        (Stage::Running, Happening::Dropped) => Some((Stage::Over, Deed::RecordCancelled)),
        (Stage::Ending, Happening::EndRecorded) => Some((Stage::Over, Deed::Answer)),
        (Stage::Ending, Happening::Dropped) => Some((Stage::Over, Deed::Nothing)),
        _ => None,
    }
}

/// The guard over a call whose start record has this number.
pub open spec fn guards(guard: AuditEnvelopeGuard, call: Call, seq: u64) -> bool {
    &&& guard.is_armed()
    &&& guard.seq() == seq
    &&& guard.called() == call.tool
    &&& guard.logged_under() == text::text_view(call.account)
}

/// The end record of a guarded call, apart from how it ended.
pub open spec fn ends(end: ToolEnd, guard: AuditEnvelopeGuard, duration_ms: u64) -> bool {
    &&& end.start_seq == guard.seq()
    &&& end.tool == guard.called()
    &&& text::text_view(end.account) == guard.logged_under()
    &&& end.duration_ms == duration_ms
}

/// The end record says how the call ended: well, with what is kept of its result,
/// or with the code of its error.
pub open spec fn records(
    end: ToolEnd,
    guard: AuditEnvelopeGuard,
    result: Result<Json, RimapError>,
) -> bool {
    match result {
        Ok(value) => {
            &&& end.outcome.status is Succeeded
            &&& end.outcome.error_code is None
            &&& end.outcome.result_summary@ == result_provenance::provenance(
                guard.called(),
                value@,
            )
        },
        Err(e) => {
            &&& end.outcome.status is Error
            &&& end.outcome.error_code == Some(error::error_code(e))
            &&& end.outcome.result_summary@ == result_provenance::nothing()
        },
    }
}

/// What the account's guard is told of a tool that came to its end.
pub open spec fn told(call: Call, result: Result<Json, RimapError>) -> GuardSignal {
    if call.ceiling_secs is None {
        GuardSignal::Silent
    } else {
        match result {
            Ok(_) => GuardSignal::Success,
            Err(e) => match dispatch::breaker_reason(e) {
                Some(reason) => GuardSignal::Failure(reason),
                None => GuardSignal::Silent,
            },
        }
    }
}

/// What the client is answered for a result.
pub open spec fn answers(
    answer: Reply,
    result: Result<Json, RimapError>,
    shown: Seq<char>,
) -> bool {
    match result {
        Ok(value) => answer == Reply::Value(value),
        Err(e) => if crate::mcp::error::tool_execution_code(error::error_code(e)) {
            answer matches Reply::Failed(failed) && {
                &&& failed.is_error == Some(true)
                &&& failed.content@.len() == 1
                &&& failed.content@[0] matches Content::Text(t) && t@
                    == crate::mcp::error::wire_text(error::error_code(e), shown)
                &&& failed.structured_content matches Some(data) && data@
                    == crate::mcp::error::result_details(e)
            }
        } else {
            answer matches Reply::Protocol(data) && data@ == crate::mcp::error::mcp_error_v(
                e,
                shown,
            )
        },
    }
}

/// What a step carries: the guard stays with the call, the result goes from the
/// tool to the end record and to the client unchanged, and the account's guard
/// hears only of tools that ran.
pub open spec fn carries(
    call: Call,
    phase: CallPhase,
    event: CallEvent,
    after: CallPhase,
    action: CallAction,
) -> bool {
    match (phase, event) {
        (CallPhase::Starting, CallEvent::Started(StartWrite::Written(seq))) => after matches
            CallPhase::Asking { guard, .. } && guards(guard, call, seq),
        (CallPhase::Starting, CallEvent::Started(StartWrite::Refused(reason))) => action matches
            CallAction::Answer(Reply::Protocol(e)) && e@ == audit_envelope::start_refused(reason@),
        (CallPhase::Starting, CallEvent::Started(StartWrite::Panicked(shown))) => action matches
            CallAction::Answer(Reply::Protocol(e)) && e@ == audit_envelope::start_panicked(shown@),
        (CallPhase::Asking { guard, .. }, CallEvent::Admitted) => after == (CallPhase::Running {
            guard,
        }),
        (CallPhase::Asking { guard, .. }, CallEvent::Refused(e, ms)) => {
            let result = Err::<Json, RimapError>(e);
            &&& after == (CallPhase::Ending { result })
            &&& action matches CallAction::Conclude { signal, give_up, end }
            &&& signal is Silent
            &&& !give_up
            &&& ends(end, guard, ms)
            &&& records(end, guard, result)
        },
        (CallPhase::Running { guard }, CallEvent::Finished(result, ms)) => {
            &&& after == (CallPhase::Ending { result })
            &&& action matches CallAction::Conclude { signal, give_up, end }
            &&& signal == told(call, result)
            &&& !give_up
            &&& ends(end, guard, ms)
            &&& records(end, guard, result)
        },
        (CallPhase::Running { guard }, CallEvent::CutOff(ms)) => {
            &&& after matches CallPhase::Ending { result }
            &&& result matches Err(RimapError::Imap { code, message })
            &&& code is Timeout
            &&& message@ == dispatch::ceiling_message(call.ceiling_secs->0)
            &&& action matches CallAction::Conclude { signal, give_up, end }
            &&& signal == GuardSignal::Failure(FailureReason::Timeout)
            &&& give_up
            &&& ends(end, guard, ms)
            &&& records(end, guard, result)
        },
        (CallPhase::Asking { guard, .. }, CallEvent::Dropped(ms)) => cancels(action, guard, ms),
        (CallPhase::Running { guard }, CallEvent::Dropped(ms)) => cancels(action, guard, ms),
        (CallPhase::Ending { result }, CallEvent::EndRecorded(shown)) => action matches
            CallAction::Answer(answer) && answers(answer, result, shown@),
        _ => true,
    }
}

/// The record of a call that was given up.
pub open spec fn cancels(action: CallAction, guard: AuditEnvelopeGuard, ms: u64) -> bool {
    &&& action matches CallAction::RecordCancelled(end)
    &&& ends(end, guard, ms)
    &&& end.outcome.status is Cancelled
    &&& end.outcome.error_code == Some(ErrorCode::Cancelled)
    &&& end.outcome.result_summary@ == result_provenance::nothing()
}

/// A guard that a call is under is armed.
pub open spec fn guarded(phase: CallPhase) -> bool {
    match phase {
        CallPhase::Asking { guard, .. } => guard.is_armed(),
        CallPhase::Running { guard } => guard.is_armed(),
        _ => true,
    }
}

/// A call begins with its start record.
pub fn call_start() -> (r: (CallPhase, CallAction))
    ensures
        stage(r.0) is Starting,
        deed(r.1) is WriteStart,
        guarded(r.0),
{
    (CallPhase::Starting, CallAction::WriteStart)
}

fn conclude(
    guard: AuditEnvelopeGuard,
    ms: u64,
    signal: GuardSignal,
    give_up: bool,
    result: Result<Json, RimapError>,
) -> (r: (CallPhase, CallAction))
    ensures
        r.0 == (CallPhase::Ending { result }),
        r.1 matches CallAction::Conclude { signal: s, give_up: g, end } && s == signal && g
            == give_up && ends(end, guard, ms) && records(end, guard, result),
{
    let mut guard = guard;
    let end = match &result {
        Ok(value) => guard.finish(ms, Ok(value)),
        Err(e) => guard.finish(ms, Err(e)),
    };
    (CallPhase::Ending { result }, CallAction::Conclude { signal, give_up, end })
}

fn give_up_call(guard: AuditEnvelopeGuard, ms: u64) -> (r: CallAction)
    requires
        guard.is_armed(),
    ensures
        cancels(r, guard, ms),
{
    let mut guard = guard;
    match guard.on_drop(ms) {
        Some(end) => CallAction::RecordCancelled(end),
        None => CallAction::Nothing,
    }
}

fn signal_for(call: &Call, result: &Result<Json, RimapError>) -> (r: GuardSignal)
    ensures
        r == told(*call, *result),
{
    if call.ceiling_secs.is_none() {
        return GuardSignal::Silent;
    }
    match result {
        Ok(_) => guard_signal(None),
        Err(e) => guard_signal(Some(e)),
    }
}

/// Takes note of what happened: where the call stands then, and what is to be
/// done. `None` where that cannot happen now.
pub fn call_step(call: &Call, phase: CallPhase, event: CallEvent) -> (r: Option<
    (CallPhase, CallAction),
>)
    requires
        guarded(phase),
    ensures
        match r {
            Some((after, action)) => {
                &&& next(call.ceiling_secs is Some, stage(phase), happening(event)) == Some(
                    (stage(after), deed(action)),
                )
                &&& carries(*call, phase, event, after, action)
                &&& guarded(after)
            },
            None => next(call.ceiling_secs is Some, stage(phase), happening(event)) is None,
        },
{
    match (phase, event) {
        (CallPhase::Starting, CallEvent::Started(written)) => match open_envelope(
            written,
            call.tool,
            copy_text(&call.account),
        ) {
            Ok((guard, ticket)) => Some((CallPhase::Asking { guard, ticket }, CallAction::AskGuard)),
            Err(e) => Some((CallPhase::Over, CallAction::Answer(Reply::Protocol(e)))),
        },
        (CallPhase::Starting, CallEvent::Dropped(_)) => Some((CallPhase::Over, CallAction::Nothing)),
        (CallPhase::Asking { guard, ticket }, CallEvent::Admitted) => Some(
            (CallPhase::Running { guard }, CallAction::Dispatch(ticket)),
        ),
        (CallPhase::Asking { guard, .. }, CallEvent::Refused(e, ms)) => Some(
            conclude(guard, ms, GuardSignal::Silent, false, Err(e)),
        ),
        (CallPhase::Asking { guard, .. }, CallEvent::Dropped(ms)) => Some(
            (CallPhase::Over, give_up_call(guard, ms)),
        ),
        (CallPhase::Running { guard }, CallEvent::Finished(result, ms)) => {
            let signal = signal_for(call, &result);
            Some(conclude(guard, ms, signal, false, result))
        },
        (CallPhase::Running { guard }, CallEvent::CutOff(ms)) => match call.ceiling_secs {
            Some(secs) => {
                let (result, give_up) = under_ceiling(secs, None);
                let signal = signal_for(call, &result);
                Some(conclude(guard, ms, signal, give_up, result))
            },
            None => None,
        },
        (CallPhase::Running { guard }, CallEvent::Dropped(ms)) => Some(
            (CallPhase::Over, give_up_call(guard, ms)),
        ),
        (CallPhase::Ending { result }, CallEvent::EndRecorded(shown)) => Some(
            (CallPhase::Over, CallAction::Answer(reply(result, shown.as_str()))),
        ),
        (CallPhase::Ending { .. }, CallEvent::Dropped(_)) => Some(
            (CallPhase::Over, CallAction::Nothing),
        ),
        _ => None,
    }
}

/// The end record of a call names the tool, the account and the start record that
/// the call was begun with: none where it was begun with no account.
pub proof fn law_records_share_the_account(
    call: Call,
    seq: u64,
    guard: AuditEnvelopeGuard,
    end: ToolEnd,
    ms: u64,
)
    requires
        guards(guard, call, seq),
        ends(end, guard, ms),
    ensures
        end.start_seq == seq,
        end.tool == call.tool,
        text::text_view(end.account) == text::text_view(call.account),
        call.account is None ==> end.account is None,
{
}

/// Where a call stands after all this, and what was to be done: `None` where some
/// of it could not happen.
pub open spec fn run(limited: bool, history: Seq<Happening>) -> Option<(Stage, Seq<Deed>)>
    decreases history.len(),
{
    if history.len() == 0 {
        Some((Stage::Starting, seq![Deed::WriteStart]))
    } else {
        match run(limited, history.drop_last()) {
            Some((at, deeds)) => match next(limited, at, history.last()) {
                Some((after, what)) => Some((after, deeds.push(what))),
                None => None,
            },
            None => None,
        }
    }
}

/// How often something was to be done.
pub open spec fn times(deeds: Seq<Deed>, what: Deed) -> nat
    decreases deeds.len(),
{
    if deeds.len() == 0 {
        0
    } else {
        times(deeds.drop_last(), what) + if deeds.last() == what {
            1nat
        } else {
            0nat
        }
    }
}

/// What holds at every stage of a call.
spec fn tallies(history: Seq<Happening>, at: Stage, deeds: Seq<Deed>) -> bool {
    let started = history.contains(Happening::StartWritten);
    let ended = times(deeds, Deed::Conclude) + times(deeds, Deed::RecordCancelled);
    let ran = times(deeds, Deed::Dispatch);
    let answered = times(deeds, Deed::Answer);
    match at {
        Stage::Starting => !started && ended == 0 && ran == 0 && answered == 0 && history.len()
            == 0,
        Stage::Asking => started && ended == 0 && ran == 0 && answered == 0,
        Stage::Running => started && ended == 0 && ran == 1 && answered == 0
            && history.contains(Happening::Admitted),
        Stage::Ending => started && ended == 1 && times(deeds, Deed::Conclude) == 1 && ran <= 1
            && answered == 0 && (ran == 1 ==> history.contains(Happening::Admitted)),
        Stage::Over => ended == (if started {
            1nat
        } else {
            0nat
        }) && ran <= 1 && answered <= 1 && (ran == 1 ==> started && history.contains(
            Happening::Admitted,
        )) && (answered == 1 ==> deeds.last() is Answer && (started ==> times(
            deeds,
            Deed::Conclude,
        ) == 1)),
    }
}

proof fn lemma_tallies(limited: bool, history: Seq<Happening>)
    ensures
        run(limited, history) matches Some((at, deeds)) ==> tallies(history, at, deeds),
    decreases history.len(),
{
    reveal_with_fuel(times, 2);
    if history.len() > 0 {
        let before = history.drop_last();
        lemma_tallies(limited, before);
        assert(forall|h: Happening| before.contains(h) ==> history.contains(h)) by {
            assert forall|h: Happening| before.contains(h) implies history.contains(h) by {
                let k = choose|k: int| 0 <= k < before.len() && before[k] == h;
                assert(history[k] == h);
            }
        }
        assert(history[history.len() - 1] == history.last());
        assert(forall|h: Happening|
            history.contains(h) && h != history.last() ==> before.contains(h)) by {
            assert forall|h: Happening|
                history.contains(h) && h != history.last() implies before.contains(h) by {
                let k = choose|k: int| 0 <= k < history.len() && history[k] == h;
                assert(before[k] == h);
            }
        }
        if let Some((at, deeds)) = run(limited, before) {
            if let Some((after, what)) = next(limited, at, history.last()) {
                assert(deeds.push(what).drop_last() =~= deeds);
            }
        }
    }
}

/// Every call whose start is recorded gets exactly one end record, whether it
/// comes to its end, is refused, is cut off or is given up; a call whose start is
/// not recorded gets none.
pub proof fn law_one_end_for_each_start(limited: bool, history: Seq<Happening>)
    requires
        run(limited, history) matches Some((at, _)) && at is Over,
    ensures
        run(limited, history) matches Some((_, deeds)) && times(deeds, Deed::Conclude) + times(
            deeds,
            Deed::RecordCancelled,
        ) == if history.contains(Happening::StartWritten) {
            1nat
        } else {
            0nat
        },
{
    lemma_tallies(limited, history);
}

/// A tool runs at most once, and only after its start is recorded and the call is
/// admitted.
pub proof fn law_no_tool_runs_unrecorded(limited: bool, history: Seq<Happening>)
    ensures
        run(limited, history) matches Some((_, deeds)) ==> times(deeds, Deed::Dispatch) <= 1 && (
        times(deeds, Deed::Dispatch) == 1 ==> history.contains(Happening::StartWritten)
            && history.contains(Happening::Admitted)),
{
    lemma_tallies(limited, history);
}

/// The client is answered at most once, as the last thing to be done; where the
/// start was recorded, the end was recorded before it.
pub proof fn law_answer_comes_last(limited: bool, history: Seq<Happening>)
    ensures
        run(limited, history) matches Some((at, deeds)) ==> times(deeds, Deed::Answer) <= 1 && (
        times(deeds, Deed::Answer) == 1 ==> at is Over && deeds.last() is Answer && (
        history.contains(Happening::StartWritten) ==> times(deeds, Deed::Conclude) == 1)),
{
    lemma_tallies(limited, history);
}

/// A step that call and event allow, with all that it carries.
pub open spec fn steps(
    call: Call,
    phase: CallPhase,
    event: CallEvent,
    after: CallPhase,
    action: CallAction,
) -> bool {
    &&& next(call.ceiling_secs is Some, stage(phase), happening(event)) == Some(
        (stage(after), deed(action)),
    )
    &&& carries(call, phase, event, after, action)
}

/// The account's guard hears of every tool that ran under a limit and of no other: of
/// its success, of a failure that counts, or that it was cut off. The connection is
/// given up where a tool was cut off, and never otherwise.
pub proof fn law_guard_hears_how_a_tool_ended(
    call: Call,
    phase: CallPhase,
    event: CallEvent,
    after: CallPhase,
    action: CallAction,
)
    requires
        steps(call, phase, event, after, action),
        action is Conclude,
    ensures
        action->give_up <==> event is CutOff,
        event is Refused ==> action->signal is Silent,
        call.ceiling_secs is None ==> action->signal is Silent,
        call.ceiling_secs is Some && (event matches CallEvent::Finished(Ok(_), _))
            ==> action->signal is Success,
        event is CutOff ==> action->signal == GuardSignal::Failure(FailureReason::Timeout),
        action->signal is Success ==> event is Finished,
        call.ceiling_secs is Some && (event matches CallEvent::Finished(Err(e), _)
            && dispatch::breaker_reason(e) is Some) ==> action->signal is Failure,
{
}

/// The end record says how the call ended: that it went well only where the tool gave a
/// result, by the error's own code where it failed, was refused or was cut off, and that
/// it was given up only where it was.
pub proof fn law_end_record_says_how_it_ended(
    call: Call,
    phase: CallPhase,
    event: CallEvent,
    after: CallPhase,
    action: CallAction,
)
    requires
        steps(call, phase, event, after, action),
    ensures
        event matches CallEvent::Finished(Ok(_), ms) ==> action matches CallAction::Conclude {
            end,
            ..
        } && end.outcome.status is Succeeded && end.outcome.error_code is None && end.duration_ms
            == ms,
        event matches CallEvent::Finished(Err(e), ms) ==> action matches CallAction::Conclude {
            end,
            ..
        } && end.outcome.status is Error && end.outcome.error_code == Some(error::error_code(e))
            && end.duration_ms == ms,
        event matches CallEvent::Refused(e, ms) ==> action matches CallAction::Conclude { end, .. }
            && end.outcome.status is Error && end.outcome.error_code == Some(error::error_code(e))
            && end.duration_ms == ms,
        event matches CallEvent::CutOff(ms) ==> action matches CallAction::Conclude { end, .. }
            && end.outcome.status is Error && end.outcome.error_code == Some(ErrorCode::Timeout)
            && end.duration_ms == ms,
        action matches CallAction::RecordCancelled(end) ==> end.outcome.status is Cancelled
            && end.outcome.error_code == Some(ErrorCode::Cancelled) && (event matches
            CallEvent::Dropped(ms) && end.duration_ms == ms),
{
}

/// What the tool gave reaches the client as it is: the value of a tool that went well,
/// a failure that the caller can act on as a failed result, and any other as a protocol
/// error. What was refused reaches the client in the same way.
pub proof fn law_result_reaches_the_client(
    call: Call,
    phase: CallPhase,
    result: Result<Json, RimapError>,
    ms: u64,
    ending: CallPhase,
    concluded: CallAction,
    shown: String,
    over: CallPhase,
    action: CallAction,
)
    requires
        steps(call, phase, CallEvent::Finished(result, ms), ending, concluded) || (result matches Err(
            e,
        ) && steps(call, phase, CallEvent::Refused(e, ms), ending, concluded)),
        steps(call, ending, CallEvent::EndRecorded(shown), over, action),
    ensures
        result matches Ok(value) ==> action == CallAction::Answer(Reply::Value(value)),
        result matches Err(e) ==> match error::error_code(e) {
            ErrorCode::InvalidInput
            | ErrorCode::NoAccount
            | ErrorCode::UnknownAccount
            | ErrorCode::Config
            | ErrorCode::Internal
            | ErrorCode::Cancelled => action matches CallAction::Answer(Reply::Protocol(_)),
            _ => action matches CallAction::Answer(Reply::Failed(failed)) && failed.is_error
                == Some(true),
        },
{
}

/// A call that is over was answered, unless it was given up. One that is given up is
/// never answered.
pub proof fn law_answered_unless_given_up(limited: bool, history: Seq<Happening>)
    requires
        run(limited, history) matches Some((at, _)) && at is Over,
    ensures
        run(limited, history) matches Some((_, deeds)) && (times(deeds, Deed::Answer) == 1 <==>
            !history.contains(Happening::Dropped)),
{
    reveal_with_fuel(times, 2);
    let before = history.drop_last();
    lemma_tallies(limited, before);
    lemma_nothing_after_giving_up(limited, before);
    let (at, deeds) = run(limited, before)->0;
    let (after, what) = next(limited, at, history.last())->0;
    assert(deeds.push(what).drop_last() =~= deeds);
    assert(history[history.len() - 1] == history.last());
    if history.contains(Happening::Dropped) && !(history.last() is Dropped) {
        let k = choose|k: int| 0 <= k < history.len() && history[k] == Happening::Dropped;
        assert(before[k] == Happening::Dropped);
    }
}

proof fn lemma_nothing_after_giving_up(limited: bool, history: Seq<Happening>)
    ensures
        run(limited, history) matches Some((at, _)) ==> (history.contains(Happening::Dropped)
            ==> at is Over),
    decreases history.len(),
{
    if history.len() > 0 && history.contains(Happening::Dropped) {
        let before = history.drop_last();
        lemma_nothing_after_giving_up(limited, before);
        let k = choose|k: int| 0 <= k < history.len() && history[k] == Happening::Dropped;
        if k < before.len() {
            assert(before[k] == Happening::Dropped);
        } else {
            assert(history.last() is Dropped);
        }
    }
}

/// A call that was refused never runs its tool, and a tool without a limit is never cut
/// off.
pub proof fn law_refused_call_does_not_run(limited: bool, history: Seq<Happening>)
    ensures
        history.contains(Happening::Refused) ==> (run(limited, history) matches Some((_, deeds))
            ==> times(deeds, Deed::Dispatch) == 0),
        history.contains(Happening::CutOff) ==> run(false, history) is None,
    decreases history.len(),
{
    reveal_with_fuel(times, 2);
    if history.len() > 0 {
        let before = history.drop_last();
        law_refused_call_does_not_run(limited, before);
        lemma_tallies(limited, before);
        lemma_tallies(false, before);
        lemma_over_once_refused(limited, before);
        if let Some((at, deeds)) = run(limited, before) {
            if let Some((after, what)) = next(limited, at, history.last()) {
                assert(deeds.push(what).drop_last() =~= deeds);
            }
        }
        if history.contains(Happening::Refused) && !(history.last() is Refused) {
            let k = choose|k: int| 0 <= k < history.len() && history[k] == Happening::Refused;
            assert(before[k] == Happening::Refused);
        }
        if history.contains(Happening::CutOff) && !(history.last() is CutOff) {
            let k = choose|k: int| 0 <= k < history.len() && history[k] == Happening::CutOff;
            assert(before[k] == Happening::CutOff);
        }
    }
}

proof fn lemma_over_once_refused(limited: bool, history: Seq<Happening>)
    ensures
        history.contains(Happening::Refused) ==> (run(limited, history) matches Some((at, _))
            ==> at is Ending || at is Over),
    decreases history.len(),
{
    if history.len() > 0 {
        let before = history.drop_last();
        lemma_over_once_refused(limited, before);
        if history.contains(Happening::Refused) && !(history.last() is Refused) {
            let k = choose|k: int| 0 <= k < history.len() && history[k] == Happening::Refused;
            assert(before[k] == Happening::Refused);
        }
    }
}

/// A call that has its way is recorded, admitted, run, recorded again and answered, in
/// this order. With a limit it may be cut off in place of its end.
pub proof fn law_a_call_takes_its_course(limited: bool)
    ensures
        next(limited, Stage::Starting, Happening::StartWritten) == Some(
            (Stage::Asking, Deed::AskGuard),
        ),
        next(limited, Stage::Asking, Happening::Admitted) == Some((Stage::Running, Deed::Dispatch)),
        next(limited, Stage::Running, Happening::Finished) == Some((Stage::Ending, Deed::Conclude)),
        next(true, Stage::Running, Happening::CutOff) == Some((Stage::Ending, Deed::Conclude)),
        next(limited, Stage::Ending, Happening::EndRecorded) == Some((Stage::Over, Deed::Answer)),
        forall|what: Happening| next(limited, Stage::Over, what) is None,
        forall|at: Stage| !(at is Over) ==> next(limited, at, Happening::Dropped) is Some,
{
}

/// A call is logged under the account's name, and under none where that is the default
/// one. No two accounts are logged under the same name.
pub proof fn law_accounts_are_logged_apart(a: Seq<char>, b: Seq<char>)
    ensures
        logged_name(a) == logged_name(b) ==> a == b,
        logged_name(a) matches Some(name) ==> name == a,
        logged_name(a) is None <==> a == "default"@,
{
}

/// The end record of a tool that gave a result keeps what that tool's result says of the
/// file that it wrote, and any other end record keeps nothing.
pub proof fn law_end_record_keeps_what_was_written(
    call: Call,
    guard: AuditEnvelopeGuard,
    value: Json,
    ms: u64,
    after: CallPhase,
    action: CallAction,
)
    requires
        steps(
            call,
            CallPhase::Running { guard },
            CallEvent::Finished(Ok(value), ms),
            after,
            action,
        ),
    ensures
        action matches CallAction::Conclude { end, .. } && end.outcome.result_summary@
            == result_provenance::provenance(guard.called(), value@),
        action matches CallAction::Conclude { end, .. } && end.start_seq == guard.seq() && end.tool
            == guard.called() && text::text_view(end.account) == guard.logged_under(),
{
}

/// The end record of a call that failed, was refused, was cut off or was given up keeps
/// nothing of a result.
pub proof fn law_failed_call_keeps_nothing(
    call: Call,
    phase: CallPhase,
    event: CallEvent,
    after: CallPhase,
    action: CallAction,
)
    requires
        steps(call, phase, event, after, action),
        !(event matches CallEvent::Finished(Ok(_), _)),
    ensures
        action matches CallAction::Conclude { end, .. } ==> end.outcome.result_summary@
            == result_provenance::nothing(),
        action matches CallAction::RecordCancelled(end) ==> end.outcome.result_summary@
            == result_provenance::nothing(),
{
}

/// Each thing can happen just where a call is under way to it. A call can be given up at
/// any time before it is over.
pub proof fn law_things_happen_in_their_time(limited: bool, at: Stage)
    ensures
        next(limited, at, Happening::StartWritten) is Some <==> at is Starting,
        next(limited, at, Happening::StartFailed) is Some <==> at is Starting,
        next(limited, at, Happening::Admitted) is Some <==> at is Asking,
        next(limited, at, Happening::Refused) is Some <==> at is Asking,
        next(limited, at, Happening::Finished) is Some <==> at is Running,
        next(limited, at, Happening::CutOff) is Some <==> at is Running && limited,
        next(limited, at, Happening::EndRecorded) is Some <==> at is Ending,
        next(limited, at, Happening::Dropped) is Some <==> !(at is Over),
{
}

/// A call whose start cannot be recorded is answered as a fault of the server, with the
/// reason, and is over.
pub proof fn law_unrecorded_call_is_answered(
    call: Call,
    reason: String,
    after: CallPhase,
    action: CallAction,
)
    requires
        steps(
            call,
            CallPhase::Starting,
            CallEvent::Started(StartWrite::Refused(reason)),
            after,
            action,
        ),
    ensures
        after is Over,
        action matches CallAction::Answer(Reply::Protocol(e)) && e.code == -32603 && e.message@
            == "audit write failed: "@ + reason@,
{
}

/// What happened, and where a call stands, are told as they are held.
pub proof fn law_call_is_told_as_it_is_held(
    seq: u64,
    text: String,
    e: RimapError,
    result: Result<Json, RimapError>,
    guard: AuditEnvelopeGuard,
    ms: u64,
)
    ensures
        happening(CallEvent::Started(StartWrite::Written(seq))) is StartWritten,
        happening(CallEvent::Started(StartWrite::Refused(text))) is StartFailed,
        happening(CallEvent::Started(StartWrite::Panicked(text))) is StartFailed,
        happening(CallEvent::Admitted) is Admitted,
        happening(CallEvent::Refused(e, ms)) is Refused,
        happening(CallEvent::Finished(result, ms)) is Finished,
        happening(CallEvent::CutOff(ms)) is CutOff,
        happening(CallEvent::EndRecorded(text)) is EndRecorded,
        happening(CallEvent::Dropped(ms)) is Dropped,
        stage(CallPhase::Starting) is Starting,
        stage(CallPhase::Running { guard }) is Running,
        stage(CallPhase::Ending { result }) is Ending,
        stage(CallPhase::Over) is Over,
{
}

/// A call of an account's tool is limited and logged by that account's own settings,
/// whichever accounts there are beside it. A tool about accounts has neither.
pub proof fn law_call_goes_by_its_account(
    accounts: Seq<registry::AccountState>,
    i: int,
    account: String,
    tool: ToolName,
)
    requires
        registry::in_order(accounts),
        0 <= i < accounts.len(),
        account@ == accounts[i].id@,
    ensures
        limit_of(CallPlan::Account { account, tool }, accounts) == Some(
            accounts[i].tool_call_timeout_secs,
        ),
        posture_of(CallPlan::Account { account, tool }, accounts) == Some(
            PostureContext::Account(accounts[i].posture),
        ),
        limit_of(CallPlan::Infrastructure(tool), accounts) is None,
        posture_of(CallPlan::Infrastructure(tool), accounts) == Some(
            PostureContext::Infrastructure,
        ),
{
    registry::law_every_account_is_reachable(accounts, i);
}

} // verus!
