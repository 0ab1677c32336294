//! The assistant's conversation logic: the tool-calling loop as a state
//! machine, the confirmation gate in front of tools that change data, the
//! server-sent-event stream of a chat completion and the assembly of streamed
//! tool calls.  Sending requests, running tools and storing messages is the
//! caller's part; it feeds the outcomes back as events.
use vstd::prelude::*;

use crate::constants::AGENT_MAX_ITERATIONS;
use crate::text::{
    chars_eq_str, chars_of, dec, find_chars, find_from, lemma_find_from, lemma_split_nonempty, occurs_at,
    push_chars, push_str, push_usize, replace_all, replace_chars, slice_chars, split_all,
    split_pieces, starts_with, starts_with_str, string_from_chars, trim_start, trim_start_chars,
    views,
};

verus! {

// ---------------------------------------------------------------------------
// Stored conversation records
// ---------------------------------------------------------------------------

pub struct AgentSession {
    pub id: i64,
    pub title: String,
    pub created_at: String,
    pub updated_at: String,
}

pub struct AgentAttachment {
    pub id: i64,
    pub session_id: i64,
    pub message_id: Option<i64>,
    pub original_name: String,
    pub mime_type: Option<String>,
    pub byte_size: i64,
    pub storage_path: String,
    pub created_at: String,
}

pub struct AgentMessageRow {
    pub id: i64,
    pub session_id: i64,
    pub role: String,
    pub content: String,
    pub tool_call_json: Option<String>,
    pub tool_call_id: Option<String>,
    pub created_at: String,
    pub attachments: Vec<AgentAttachment>,
}

pub struct AgentTask {
    pub id: i64,
    pub session_id: i64,
    pub tool_name: String,
    pub status: String,
    pub input_json: Option<String>,
    pub result_json: Option<String>,
    pub error_message: Option<String>,
    pub created_at: String,
    pub updated_at: String,
    pub completed_at: Option<String>,
}

pub struct AgentArtifact {
    pub id: i64,
    pub session_id: i64,
    pub task_id: Option<i64>,
    pub artifact_type: String,
    pub title: String,
    pub file_path: Option<String>,
    pub mime_type: Option<String>,
    pub byte_size: Option<i64>,
    pub metadata_json: Option<String>,
    pub created_at: String,
}

/// A tool call requested by the model.
pub struct ToolCall {
    pub id: String,
    pub type_: String,
    pub function: ToolCallFunction,
}

pub struct ToolCallFunction {
    pub name: String,
    pub arguments: String,
}

// ---------------------------------------------------------------------------
// The tool-calling loop
// ---------------------------------------------------------------------------

/// Where the loop of one turn stands.
#[derive(PartialEq, Eq, Structural)]
pub enum LoopPhase {
    /// Nothing sent yet.
    Idle,
    /// A chat request is out.
    AwaitReply,
    /// Running the tool calls of the last reply; `next` is the one running.
    RunTools { next: usize, total: usize },
    /// The assistant answered without tool calls.
    Finished,
    /// A tool asked the user to confirm; the turn waits for the answer.
    AwaitingConfirmation,
    /// Too many chat requests.
    GaveUp,
}

#[derive(PartialEq, Eq, Structural)]
pub struct AgentLoopState {
    /// Chat requests sent in this turn.
    pub llm_calls: usize,
    pub phase: LoopPhase,
}

/// How a tool call ended.
#[derive(PartialEq, Eq, Structural)]
pub enum ToolOutcome {
    Success,
    Error,
    ConfirmationRequired,
}

/// What the caller reports to the loop.
#[derive(PartialEq, Eq, Structural)]
pub enum LoopEvent {
    /// The turn begins (after the user's message is stored).
    Start,
    /// The model replied with this many tool calls (0 when it sent none).
    Reply { tool_calls: usize },
    /// The running tool call ended.
    ToolDone { outcome: ToolOutcome },
}

/// What the caller does next.
#[derive(PartialEq, Eq, Structural)]
pub enum LoopAction {
    /// Send the conversation to the model.
    SendRequest,
    /// Store the assistant's message and run tool call `index` of it.
    ExecuteTool { index: usize },
    /// Store the tool's message, then run tool call `index`.
    RecordAndExecute { index: usize },
    /// Store the tool's message and send the conversation again.
    RecordAndSend,
    /// Store the assistant's final message; the turn is over.
    Finish,
    /// Report the pending confirmation; the turn is over.
    AskConfirmation,
    /// Store the tool's message and fail: too many iterations.
    RecordAndGiveUp,
}

pub open spec fn event_fits(s: AgentLoopState, e: LoopEvent) -> bool {
    match s.phase {
        LoopPhase::Idle => e is Start,
        LoopPhase::AwaitReply => e is Reply,
        LoopPhase::RunTools { .. } => e is ToolDone,
        _ => false,
    }
}

pub open spec fn loop_inv(s: AgentLoopState) -> bool {
    &&& s.llm_calls <= AGENT_MAX_ITERATIONS
    &&& (s.phase is Idle ==> s.llm_calls == 0)
    &&& (s.phase is AwaitReply || s.phase is RunTools || s.phase is Finished ==> s.llm_calls >= 1)
    &&& (s.phase matches LoopPhase::RunTools { next, total } ==> next < total)
}

pub open spec fn send_or_give_up(calls: usize) -> (AgentLoopState, LoopAction) {
    if calls < AGENT_MAX_ITERATIONS {
        (AgentLoopState { llm_calls: (calls + 1) as usize, phase: LoopPhase::AwaitReply }, LoopAction::RecordAndSend)
    } else {
        (AgentLoopState { llm_calls: calls, phase: LoopPhase::GaveUp }, LoopAction::RecordAndGiveUp)
    }
}

pub open spec fn loop_step_spec(s: AgentLoopState, e: LoopEvent) -> (AgentLoopState, LoopAction) {
    match (s.phase, e) {
        (LoopPhase::Idle, LoopEvent::Start) => (
            AgentLoopState { llm_calls: 1, phase: LoopPhase::AwaitReply },
            LoopAction::SendRequest,
        ),
        (LoopPhase::AwaitReply, LoopEvent::Reply { tool_calls }) => if tool_calls == 0 {
            (AgentLoopState { llm_calls: s.llm_calls, phase: LoopPhase::Finished }, LoopAction::Finish)
        } else {
            (
                AgentLoopState {
                    llm_calls: s.llm_calls,
                    phase: LoopPhase::RunTools { next: 0, total: tool_calls },
                },
                LoopAction::ExecuteTool { index: 0 },
            )
        },
        (LoopPhase::RunTools { next, total }, LoopEvent::ToolDone { outcome }) => match outcome {
            ToolOutcome::ConfirmationRequired => (
                AgentLoopState { llm_calls: s.llm_calls, phase: LoopPhase::AwaitingConfirmation },
                LoopAction::AskConfirmation,
            ),
            _ => if next + 1 < total {
                (
                    AgentLoopState {
                        llm_calls: s.llm_calls,
                        phase: LoopPhase::RunTools { next: (next + 1) as usize, total },
                    },
                    LoopAction::RecordAndExecute { index: (next + 1) as usize },
                )
            } else {
                send_or_give_up(s.llm_calls)
            },
        },
        _ => (s, LoopAction::Finish),
    }
}

/// One step of the tool-calling loop of a turn.  The model is asked at most
/// `AGENT_MAX_ITERATIONS` times; a reply without tool calls ends the turn; the tool
/// calls of a reply run in order, each result stored as a tool message; a
/// tool that needs the user's confirmation ends the turn at once (later calls
/// of the same reply are not run); after the last tool call the model is
/// asked again, or the turn fails when it has been asked `AGENT_MAX_ITERATIONS`
/// times.
pub fn agent_loop_step(s: &AgentLoopState, e: &LoopEvent) -> (r: (AgentLoopState, LoopAction))
    requires
        loop_inv(*s),
        event_fits(*s, *e),
    ensures
        r == loop_step_spec(*s, *e),
        loop_inv(r.0),
{
    match (&s.phase, e) {
        (LoopPhase::Idle, LoopEvent::Start) => (
            AgentLoopState { llm_calls: 1, phase: LoopPhase::AwaitReply },
            LoopAction::SendRequest,
        ),
        (LoopPhase::AwaitReply, LoopEvent::Reply { tool_calls }) => if *tool_calls == 0 {
            (AgentLoopState { llm_calls: s.llm_calls, phase: LoopPhase::Finished }, LoopAction::Finish)
        } else {
            (
                AgentLoopState {
                    llm_calls: s.llm_calls,
                    phase: LoopPhase::RunTools { next: 0, total: *tool_calls },
                },
                LoopAction::ExecuteTool { index: 0 },
            )
        },
        (LoopPhase::RunTools { next, total }, LoopEvent::ToolDone { outcome }) => match outcome {
            ToolOutcome::ConfirmationRequired => (
                AgentLoopState { llm_calls: s.llm_calls, phase: LoopPhase::AwaitingConfirmation },
                LoopAction::AskConfirmation,
            ),
            _ => if *next + 1 < *total {
                (
                    AgentLoopState {
                        llm_calls: s.llm_calls,
                        phase: LoopPhase::RunTools { next: *next + 1, total: *total },
                    },
                    LoopAction::RecordAndExecute { index: *next + 1 },
                )
            } else if s.llm_calls < AGENT_MAX_ITERATIONS {
                (
                    AgentLoopState { llm_calls: s.llm_calls + 1, phase: LoopPhase::AwaitReply },
                    LoopAction::RecordAndSend,
                )
            } else {
                (
                    AgentLoopState { llm_calls: s.llm_calls, phase: LoopPhase::GaveUp },
                    LoopAction::RecordAndGiveUp,
                )
            },
        },
        _ => {
            proof {
                assert(false);
            }
            (AgentLoopState { llm_calls: s.llm_calls, phase: LoopPhase::Finished }, LoopAction::Finish)
        },
    }
}

/// The initial state of a turn.
pub fn agent_loop_start() -> (s: AgentLoopState)
    ensures
        s == (AgentLoopState { llm_calls: 0, phase: LoopPhase::Idle }),
        loop_inv(s),
{
    AgentLoopState { llm_calls: 0, phase: LoopPhase::Idle }
}

/// The model is never asked more than `AGENT_MAX_ITERATIONS` times in one turn:
/// every step keeps the count within bounds, a request is sent only while the
/// count is below the bound, and each request adds exactly one to the count.
pub proof fn law_chat_requests_bounded(s: AgentLoopState, e: LoopEvent)
    requires
        loop_inv(s),
        event_fits(s, e),
    ensures
        loop_inv(loop_step_spec(s, e).0),
        (loop_step_spec(s, e).1 is SendRequest || loop_step_spec(s, e).1 is RecordAndSend) ==> s.llm_calls
            < AGENT_MAX_ITERATIONS && loop_step_spec(s, e).0.llm_calls == s.llm_calls + 1,
        !(loop_step_spec(s, e).1 is SendRequest || loop_step_spec(s, e).1 is RecordAndSend)
            ==> loop_step_spec(s, e).0.llm_calls == s.llm_calls,
{
}

/// A tool that asks for confirmation always ends the turn with the
/// confirmation pending, and the end states accept no further event.
pub proof fn law_confirmation_stops_turn(s: AgentLoopState, e: LoopEvent)
    requires
        loop_inv(s),
        event_fits(s, e),
        e == (LoopEvent::ToolDone { outcome: ToolOutcome::ConfirmationRequired }),
    ensures
        loop_step_spec(s, e).1 == LoopAction::AskConfirmation,
        loop_step_spec(s, e).0.phase == LoopPhase::AwaitingConfirmation,
        forall|e2: LoopEvent| !event_fits(loop_step_spec(s, e).0, e2),
{
}

/// The tool calls of one reply run in order, each exactly once: after tool
/// `next` the loop runs `next + 1` until the last one.
pub proof fn law_tools_run_in_order(s: AgentLoopState, outcome: ToolOutcome)
    requires
        loop_inv(s),
        s.phase is RunTools,
        outcome != ToolOutcome::ConfirmationRequired,
    ensures
        ({
            let (s2, a) = loop_step_spec(s, LoopEvent::ToolDone { outcome });
            match s.phase {
                LoopPhase::RunTools { next, total } => if next + 1 < total {
                    a == (LoopAction::RecordAndExecute { index: (next + 1) as usize })
                        && s2.phase == (LoopPhase::RunTools { next: (next + 1) as usize, total })
                } else {
                    a is RecordAndSend || a is RecordAndGiveUp
                },
                _ => true,
            }
        }),
{
}

/// The state after `m` tool calls in a row ended without asking for
/// confirmation.
pub open spec fn tools_succeed(s: AgentLoopState, m: nat) -> AgentLoopState
    decreases m,
{
    if m == 0 {
        s
    } else {
        loop_step_spec(tools_succeed(s, (m - 1) as nat), LoopEvent::ToolDone { outcome: ToolOutcome::Success }).0
    }
}

/// The state of a turn after its start and `n` replies of the model, each
/// with `k` tool calls that all succeed.
pub open spec fn busy_turn(n: nat, k: usize) -> AgentLoopState
    decreases n,
{
    if n == 0 {
        loop_step_spec(AgentLoopState { llm_calls: 0, phase: LoopPhase::Idle }, LoopEvent::Start).0
    } else {
        let s = busy_turn((n - 1) as nat, k);
        tools_succeed(loop_step_spec(s, LoopEvent::Reply { tool_calls: k }).0, k as nat)
    }
}

proof fn lemma_tools_succeed(c: usize, k: usize, m: nat)
    requires
        1 <= c <= AGENT_MAX_ITERATIONS,
        m <= k,
        k >= 1,
    ensures
        m < k ==> tools_succeed(AgentLoopState { llm_calls: c, phase: LoopPhase::RunTools { next: 0, total: k } }, m)
            == (AgentLoopState { llm_calls: c, phase: LoopPhase::RunTools { next: m as usize, total: k } }),
        m == k ==> tools_succeed(AgentLoopState { llm_calls: c, phase: LoopPhase::RunTools { next: 0, total: k } }, m)
            == send_or_give_up(c).0,
    decreases m,
{
    if m > 0 {
        lemma_tools_succeed(c, k, (m - 1) as nat);
    }
}

/// When every reply of the model asks for tools and every tool call
/// succeeds, the turn asks the model again after each reply until it has
/// been asked `AGENT_MAX_ITERATIONS` times, and then gives up: after `n`
/// replies with `n` below the limit the model has been asked `n + 1` times
/// and a reply is awaited; after the reply to the last request the turn has
/// given up, the last tool call having answered `RecordAndGiveUp`.
pub proof fn law_busy_turn_gives_up_at_limit(n: nat, k: usize)
    requires
        k >= 1,
        n <= AGENT_MAX_ITERATIONS,
    ensures
        n < AGENT_MAX_ITERATIONS ==> busy_turn(n, k) == (AgentLoopState {
            llm_calls: (n + 1) as usize,
            phase: LoopPhase::AwaitReply,
        }),
        n == AGENT_MAX_ITERATIONS ==> busy_turn(n, k) == (AgentLoopState {
            llm_calls: AGENT_MAX_ITERATIONS,
            phase: LoopPhase::GaveUp,
        }),
        n == AGENT_MAX_ITERATIONS ==> ({
            let s = loop_step_spec(busy_turn((n - 1) as nat, k), LoopEvent::Reply { tool_calls: k }).0;
            loop_step_spec(tools_succeed(s, (k - 1) as nat), LoopEvent::ToolDone { outcome: ToolOutcome::Success }).1
                == LoopAction::RecordAndGiveUp
        }),
    decreases n,
{
    if n > 0 {
        law_busy_turn_gives_up_at_limit((n - 1) as nat, k);
        let c = n as usize;
        lemma_tools_succeed(c, k, k as nat);
        lemma_tools_succeed(c, k, (k - 1) as nat);
    }
}

/// The text stored as the tool's message for a tool result inside the loop.
pub open spec fn tool_message_spec(outcome: ToolOutcome, text: Seq<char>) -> Seq<char> {
    match outcome {
        ToolOutcome::Error => "Error: "@ + text,
        _ => text,
    }
}

/// The tool message of a finished tool call: its content, or `Error: ` and
/// the error message.
pub fn tool_message_content(outcome: &ToolOutcome, text: &str) -> (r: String)
    requires
        *outcome != ToolOutcome::ConfirmationRequired,
    ensures
        r@ == tool_message_spec(*outcome, text@),
{
    let mut out: Vec<char> = Vec::new();
    match outcome {
        ToolOutcome::Error => {
            push_str(&mut out, "Error: ");
        },
        _ => {},
    }
    push_str(&mut out, text);
    string_from_chars(out.as_slice())
}

// ---------------------------------------------------------------------------
// Continuing after a confirmation
// ---------------------------------------------------------------------------

/// The note stored when the user answers a confirmation that has no pending
/// tool call any more.
pub fn confirmation_note(confirmed: bool) -> (r: &'static str)
    ensures
        confirmed ==> r@ == "已确认执行之前的操作。"@,
        !confirmed ==> r@ == "已取消之前的操作。"@,
{
    if confirmed {
        "已确认执行之前的操作。"
    } else {
        "已取消之前的操作。"
    }
}

/// The tool message stored after the user answered a confirmation: a
/// rejection is recorded as such; a confirmed call stores its content, its
/// error as `Error: …`, or a retry notice if it asked for confirmation again.
pub open spec fn confirmed_message_spec(confirmed: bool, outcome: ToolOutcome, text: Seq<char>) -> Seq<
    char,
> {
    if !confirmed {
        "用户取消了此操作。"@
    } else {
        match outcome {
            ToolOutcome::Success => text,
            ToolOutcome::Error => "Error: "@ + text,
            ToolOutcome::ConfirmationRequired => "操作需要额外确认，请重试。"@,
        }
    }
}

pub fn confirmed_tool_message(confirmed: bool, outcome: &ToolOutcome, text: &str) -> (r: String)
    ensures
        r@ == confirmed_message_spec(confirmed, *outcome, text@),
{
    let mut out: Vec<char> = Vec::new();
    if !confirmed {
        push_str(&mut out, "用户取消了此操作。");
    } else {
        match outcome {
            ToolOutcome::Success => push_str(&mut out, text),
            ToolOutcome::Error => {
                push_str(&mut out, "Error: ");
                push_str(&mut out, text);
            },
            ToolOutcome::ConfirmationRequired => push_str(&mut out, "操作需要额外确认，请重试。"),
        }
    }
    string_from_chars(out.as_slice())
}

/// The kinds of audit record of a tool call.
#[derive(Debug, PartialEq, Eq, Structural)]
pub enum AuditKind {
    Ran,
    Failed,
    Rejected,
}

pub open spec fn audit_action_spec(tool: Seq<char>, kind: AuditKind) -> Seq<char> {
    match kind {
        AuditKind::Ran => "tool:"@ + tool,
        AuditKind::Failed => "tool:"@ + tool + ":error"@,
        AuditKind::Rejected => "tool:"@ + tool + ":rejected"@,
    }
}

/// The `action` of the audit record written for a tool call.
pub fn audit_action(tool: &str, kind: &AuditKind) -> (r: String)
    ensures
        r@ == audit_action_spec(tool@, *kind),
{
    let mut out: Vec<char> = Vec::new();
    push_str(&mut out, "tool:");
    push_str(&mut out, tool);
    match kind {
        AuditKind::Ran => {},
        AuditKind::Failed => push_str(&mut out, ":error"),
        AuditKind::Rejected => push_str(&mut out, ":rejected"),
    }
    string_from_chars(out.as_slice())
}

/// What answering a confirmation leads to, before the loop goes on.
pub enum ContinueAction {
    /// No tool call is pending: a user message with this note is stored.
    AddNote { note: String },
    /// The pending call runs with `_confirmed: true` merged into its
    /// arguments, and then the extra parameters where `merge_extra` holds.
    RunTool { tool: String, merge_extra: bool },
    /// The pending call is dropped: an audit record with `audit` and a tool
    /// message with `message` are stored.
    Reject { tool: String, audit: String, message: String },
}

pub open spec fn continue_step_spec(
    pending_tool: Option<Seq<char>>,
    confirmed: bool,
    has_extra: bool,
    r: ContinueAction,
) -> bool {
    match pending_tool {
        None => r matches ContinueAction::AddNote { note } && note@ == (if confirmed {
            "已确认执行之前的操作。"@
        } else {
            "已取消之前的操作。"@
        }),
        Some(name) => if confirmed {
            r matches ContinueAction::RunTool { tool, merge_extra } && tool@ == name && merge_extra
                == has_extra
        } else {
            r matches ContinueAction::Reject { tool, audit, message } && tool@ == name && audit@
                == audit_action_spec(name, AuditKind::Rejected) && message@
                == confirmed_message_spec(false, ToolOutcome::Success, Seq::empty())
        },
    }
}

/// The first step of continuing a turn after the user answered a
/// confirmation: the pending tool call (its name, if any), the answer, and
/// whether extra parameters came with it.
pub fn continue_step(pending_tool: Option<&str>, confirmed: bool, has_extra: bool) -> (r:
    ContinueAction)
    ensures
        continue_step_spec(
            match pending_tool {
                Some(t) => Some(t@),
                None => None,
            },
            confirmed,
            has_extra,
            r,
        ),
{
    match pending_tool {
        None => {
            let mut out: Vec<char> = Vec::new();
            push_str(&mut out, confirmation_note(confirmed));
            ContinueAction::AddNote { note: string_from_chars(out.as_slice()) }
        },
        Some(name) => {
            let mut out: Vec<char> = Vec::new();
            push_str(&mut out, name);
            let tool = string_from_chars(out.as_slice());
            if confirmed {
                ContinueAction::RunTool { tool, merge_extra: has_extra }
            } else {
                let audit = audit_action(name, &AuditKind::Rejected);
                let message = confirmed_tool_message(false, &ToolOutcome::Success, "");
                ContinueAction::Reject { tool, audit, message }
            }
        },
    }
}

/// The audit record written after a confirmed call ran: none when it asked
/// for confirmation again.
pub fn audit_after_confirmed(outcome: &ToolOutcome) -> (r: Option<AuditKind>)
    ensures
        *outcome == ToolOutcome::Success ==> r == Some(AuditKind::Ran),
        *outcome == ToolOutcome::Error ==> r == Some(AuditKind::Failed),
        *outcome == ToolOutcome::ConfirmationRequired ==> r is None,
{
    match outcome {
        ToolOutcome::Success => Some(AuditKind::Ran),
        ToolOutcome::Error => Some(AuditKind::Failed),
        ToolOutcome::ConfirmationRequired => None,
    }
}

/// JSON arguments of a tool call: an object as its entries (each value as
/// JSON text), or any other JSON value as its text.
pub enum JsonArgs {
    Object(Vec<(String, String)>),
    Other(String),
}

pub enum JsonArgsView {
    Object(Seq<(Seq<char>, Seq<char>)>),
    Other(Seq<char>),
}

pub open spec fn entry_views(v: Seq<(String, String)>) -> Seq<(Seq<char>, Seq<char>)> {
    v.map_values(|e: (String, String)| (e.0@, e.1@))
}

pub open spec fn json_args_view(a: JsonArgs) -> JsonArgsView {
    match a {
        JsonArgs::Object(v) => JsonArgsView::Object(entry_views(v@)),
        JsonArgs::Other(t) => JsonArgsView::Other(t@),
    }
}

/// The object that a list of entries makes, a later entry replacing an
/// earlier one of the same key.
pub open spec fn entries_map(s: Seq<(Seq<char>, Seq<char>)>) -> Map<Seq<char>, Seq<char>>
    decreases s.len(),
{
    if s.len() == 0 {
        Map::empty()
    } else {
        entries_map(s.drop_last()).insert(s.last().0, s.last().1)
    }
}

proof fn lemma_entries_map_concat(x: Seq<(Seq<char>, Seq<char>)>, y: Seq<(Seq<char>, Seq<char>)>)
    ensures
        entries_map(x + y) == entries_map(x).union_prefer_right(entries_map(y)),
    decreases y.len(),
{
    if y.len() == 0 {
        assert(x + y =~= x);
        assert(entries_map(x).union_prefer_right(Map::empty()) =~= entries_map(x));
    } else {
        lemma_entries_map_concat(x, y.drop_last());
        assert((x + y).drop_last() =~= x + y.drop_last());
        assert(entries_map(x + y) =~= entries_map(x).union_prefer_right(entries_map(y)));
    }
}

/// The arguments of a tool call as `serde_json` reads them; none when the
/// text is not JSON.
pub uninterp spec fn json_arguments(text: Seq<char>) -> Option<JsonArgsView>;

/// `serde_json::from_str::<serde_json::Value>(text)`: an object as its
/// entries, each value written back with `to_string`, any other value as its
/// text; none when the text is not JSON.
#[verifier::external_body]
pub(crate) fn parse_json_arguments(text: &str) -> (r: Option<JsonArgs>)
    ensures
        match r {
            Some(a) => json_arguments(text@) == Some(json_args_view(a)),
            None => json_arguments(text@) is None,
        },
{
    match serde_json::from_str::<serde_json::Value>(text).ok()? {
        serde_json::Value::Object(m) => {
            let mut out = Vec::new();
            for (k, v) in m {
                out.push((k, v.to_string()));
            }
            Some(JsonArgs::Object(out))
        },
        other => Some(JsonArgs::Other(other.to_string())),
    }
}

/// The arguments a confirmed call runs with: an object gets `_confirmed`
/// set to `true`, then every entry of an extra object put over it; anything
/// else is passed on unchanged.
pub open spec fn confirmed_arguments_spec(args: JsonArgsView, extra: Option<JsonArgsView>) -> Option<
    Map<Seq<char>, Seq<char>>,
> {
    match args {
        JsonArgsView::Object(a) => Some(
            entries_map(a).insert("_confirmed"@, "true"@).union_prefer_right(
                match extra {
                    Some(JsonArgsView::Object(e)) => entries_map(e),
                    _ => Map::empty(),
                },
            ),
        ),
        JsonArgsView::Other(_) => None,
    }
}

/// Merges the confirmation flag and the extra parameters into a call's
/// arguments.
pub fn confirmed_arguments(args: JsonArgs, extra: Option<JsonArgs>) -> (r: JsonArgs)
    ensures
        match confirmed_arguments_spec(
            json_args_view(args),
            match extra {
                Some(e) => Some(json_args_view(e)),
                None => None,
            },
        ) {
            Some(m) => r matches JsonArgs::Object(v) && entries_map(entry_views(v@)) == m,
            None => r == args,
        },
{
    match args {
        JsonArgs::Object(a) => {
            let ghost av = entry_views(a@);
            let mut out = a;
            let mut key: Vec<char> = Vec::new();
            push_str(&mut key, "_confirmed");
            let mut value: Vec<char> = Vec::new();
            push_str(&mut value, "true");
            let k = string_from_chars(key.as_slice());
            let val = string_from_chars(value.as_slice());
            out.push((k, val));
            let ghost head = entry_views(out@);
            assert(head =~= av.push(("_confirmed"@, "true"@)));
            assert(head.drop_last() =~= av);
            assert(entries_map(head) == entries_map(av).insert("_confirmed"@, "true"@));
            match extra {
                Some(JsonArgs::Object(e)) => {
                    let ghost ev = entry_views(e@);
                    let mut e = e;
                    out.append(&mut e);
                    proof {
                        assert(entry_views(out@) =~= head + ev);
                        lemma_entries_map_concat(head, ev);
                    }
                },
                _ => {
                    proof {
                        assert(entries_map(head).union_prefer_right(Map::empty()) =~= entries_map(head));
                    }
                },
            }
            JsonArgs::Object(out)
        },
        JsonArgs::Other(t) => JsonArgs::Other(t),
    }
}

/// Why a confirmed call cannot run.
#[derive(Debug, PartialEq, Eq, Structural)]
pub enum ContinueError {
    /// The stored arguments of the call are not JSON.
    Serialization,
}

/// The arguments a confirmed pending call runs with, from the text stored
/// with the call and the extra parameters sent with the answer; an error,
/// and no run, when the stored text is not JSON.
pub fn confirmed_call_arguments(arguments: &str, extra: Option<JsonArgs>) -> (r: Result<
    JsonArgs,
    ContinueError,
>)
    ensures
        match json_arguments(arguments@) {
            None => r == Err::<JsonArgs, ContinueError>(ContinueError::Serialization),
            Some(a) => r matches Ok(out) && match confirmed_arguments_spec(
                a,
                match extra {
                    Some(e) => Some(json_args_view(e)),
                    None => None,
                },
            ) {
                Some(m) => out matches JsonArgs::Object(v) && entries_map(entry_views(v@)) == m,
                None => json_args_view(out) == a,
            },
        },
{
    match parse_json_arguments(arguments) {
        None => Err(ContinueError::Serialization),
        Some(a) => Ok(confirmed_arguments(a, extra)),
    }
}

/// Index of the last assistant message that carries tool calls.
pub open spec fn last_tool_call_message_spec(roles: Seq<Seq<char>>, has_calls: Seq<bool>, n: nat) -> Option<
    int,
>
    decreases n,
{
    if n == 0 {
        None
    } else if roles[n - 1] == "assistant"@ && has_calls[n - 1] {
        Some(n - 1)
    } else {
        last_tool_call_message_spec(roles, has_calls, (n - 1) as nat)
    }
}

pub open spec fn history_roles(h: Seq<AgentMessageRow>) -> Seq<Seq<char>> {
    h.map_values(|m: AgentMessageRow| m.role@)
}

pub open spec fn history_has_calls(h: Seq<AgentMessageRow>) -> Seq<bool> {
    h.map_values(|m: AgentMessageRow| m.tool_call_json is Some)
}

/// Finds the message whose tool call a confirmation answers: the most recent
/// assistant message with tool calls.
pub fn last_tool_call_message(history: &Vec<AgentMessageRow>) -> (r: Option<usize>)
    ensures
        match r {
            Some(i) => last_tool_call_message_spec(
                history_roles(history@),
                history_has_calls(history@),
                history.len() as nat,
            ) == Some(i as int),
            None => last_tool_call_message_spec(
                history_roles(history@),
                history_has_calls(history@),
                history.len() as nat,
            ) is None,
        },
{
    let ghost roles = history_roles(history@);
    let ghost calls = history_has_calls(history@);
    let mut n: usize = history.len();
    while n > 0
        invariant
            n <= history.len(),
            roles == history_roles(history@),
            calls == history_has_calls(history@),
            last_tool_call_message_spec(roles, calls, history.len() as nat)
                == last_tool_call_message_spec(roles, calls, n as nat),
        decreases n,
    {
        let m = &history[n - 1];
        assert(roles[n - 1] == m.role@);
        assert(calls[n - 1] == m.tool_call_json is Some);
        if chars_eq_str(&chars_of(m.role.as_str()), "assistant") && m.tool_call_json.is_some() {
            return Some(n - 1);
        }
        n -= 1;
    }
    None
}

// ---------------------------------------------------------------------------
// Starting a turn
// ---------------------------------------------------------------------------

/// The user message sent to the model: the visible text, followed by a blank
/// line and the attachment context when there is one.
pub open spec fn llm_user_content_spec(message: Seq<char>, context: Option<Seq<char>>) -> Seq<char> {
    match context {
        Some(c) => if c.len() > 0 {
            message + "\n\n"@ + c
        } else {
            message
        },
        None => message,
    }
}

pub fn llm_user_content(message: &str, context: Option<&str>) -> (r: String)
    ensures
        r@ == llm_user_content_spec(
            message@,
            match context {
                Some(c) => Some(c@),
                None => None,
            },
        ),
{
    let mut out = chars_of(message);
    match context {
        Some(c) => {
            let cc = chars_of(c);
            if cc.len() > 0 {
                push_str(&mut out, "\n\n");
                push_chars(&mut out, &cc);
            }
        },
        None => {},
    }
    string_from_chars(out.as_slice())
}

/// Title of a new conversation.
pub const DEFAULT_SESSION_TITLE: &'static str = "新对话";

/// The automatic title of a conversation: its first user message, cut to 30
/// characters.
pub fn session_title_from_message(first_user_message: &str) -> (r: String)
    ensures
        r@ == crate::llm::truncate_spec(first_user_message@, 30),
{
    crate::llm::truncate(first_user_message, 30)
}

/// The content of a stored message as sent to the model: empty text is sent
/// as no content.
pub fn message_content_for_model(content: &str) -> (r: Option<String>)
    ensures
        content@.len() == 0 ==> r is None,
        content@.len() > 0 ==> (r matches Some(s) && s@ == content@),
{
    let c = chars_of(content);
    if c.len() == 0 {
        None
    } else {
        Some(string_from_chars(c.as_slice()))
    }
}

// ---------------------------------------------------------------------------
// Tools and the confirmation gate
// ---------------------------------------------------------------------------

/// The tools the assistant's executor knows.
#[derive(PartialEq, Eq, Structural)]
pub enum ToolKind {
    SearchInvoices,
    GetInvoiceDetail,
    GetDashboardStats,
    GetCurrentDateContext,
    GetInvoiceFieldCatalog,
    ListMessageAttachments,
    InspectSpreadsheet,
    CreateExportPreview,
    ValidateXlsx,
    GenerateTemplatePlan,
    ExportInvoicesWithTemplate,
    ExportInvoices,
    MergeInvoices,
    ExportPdfReport,
    UpdateInvoice,
    GetBadgeConfig,
    SetBadgeConfig,
    SetInvoiceBadge,
    GetPriceConfig,
    SetPriceConfig,
    GetTheme,
    SetTheme,
    ExportLogs,
    ExportBackup,
    CleanupStorage,
    GetAppInfo,
    GetSysinfo,
    AskUser,
}

pub open spec fn tool_kind_spec(name: Seq<char>) -> Option<ToolKind> {
    if name == "search_invoices"@ {
        Some(ToolKind::SearchInvoices)
    } else if name == "get_invoice_detail"@ {
        Some(ToolKind::GetInvoiceDetail)
    } else if name == "get_dashboard_stats"@ {
        Some(ToolKind::GetDashboardStats)
    } else if name == "get_current_date_context"@ {
        Some(ToolKind::GetCurrentDateContext)
    } else if name == "get_invoice_field_catalog"@ {
        Some(ToolKind::GetInvoiceFieldCatalog)
    } else if name == "list_message_attachments"@ {
        Some(ToolKind::ListMessageAttachments)
    } else if name == "inspect_spreadsheet"@ {
        Some(ToolKind::InspectSpreadsheet)
    } else if name == "create_export_preview"@ {
        Some(ToolKind::CreateExportPreview)
    } else if name == "validate_xlsx"@ {
        Some(ToolKind::ValidateXlsx)
    } else if name == "generate_template_plan"@ {
        Some(ToolKind::GenerateTemplatePlan)
    } else if name == "export_invoices_with_template"@ {
        Some(ToolKind::ExportInvoicesWithTemplate)
    } else if name == "export_invoices"@ {
        Some(ToolKind::ExportInvoices)
    } else if name == "merge_invoices"@ {
        Some(ToolKind::MergeInvoices)
    } else if name == "export_pdf_report"@ {
        Some(ToolKind::ExportPdfReport)
    } else if name == "update_invoice"@ {
        Some(ToolKind::UpdateInvoice)
    } else if name == "get_badge_config"@ {
        Some(ToolKind::GetBadgeConfig)
    } else if name == "set_badge_config"@ {
        Some(ToolKind::SetBadgeConfig)
    } else if name == "set_invoice_badge"@ {
        Some(ToolKind::SetInvoiceBadge)
    } else if name == "get_price_config"@ {
        Some(ToolKind::GetPriceConfig)
    } else if name == "set_price_config"@ {
        Some(ToolKind::SetPriceConfig)
    } else if name == "get_theme"@ {
        Some(ToolKind::GetTheme)
    } else if name == "set_theme"@ {
        Some(ToolKind::SetTheme)
    } else if name == "export_logs"@ {
        Some(ToolKind::ExportLogs)
    } else if name == "export_backup"@ {
        Some(ToolKind::ExportBackup)
    } else if name == "cleanup_storage"@ {
        Some(ToolKind::CleanupStorage)
    } else if name == "get_app_info"@ {
        Some(ToolKind::GetAppInfo)
    } else if name == "get_sysinfo"@ {
        Some(ToolKind::GetSysinfo)
    } else if name == "ask_user"@ {
        Some(ToolKind::AskUser)
    } else {
        None
    }
}

/// The executor's tool for a name; other names are unknown tools.
pub fn tool_kind(name: &str) -> (r: Option<ToolKind>)
    ensures
        r == tool_kind_spec(name@),
{
    let n = chars_of(name);
    if chars_eq_str(&n, "search_invoices") {
        Some(ToolKind::SearchInvoices)
    } else if chars_eq_str(&n, "get_invoice_detail") {
        Some(ToolKind::GetInvoiceDetail)
    } else if chars_eq_str(&n, "get_dashboard_stats") {
        Some(ToolKind::GetDashboardStats)
    } else if chars_eq_str(&n, "get_current_date_context") {
        Some(ToolKind::GetCurrentDateContext)
    } else if chars_eq_str(&n, "get_invoice_field_catalog") {
        Some(ToolKind::GetInvoiceFieldCatalog)
    } else if chars_eq_str(&n, "list_message_attachments") {
        Some(ToolKind::ListMessageAttachments)
    } else if chars_eq_str(&n, "inspect_spreadsheet") {
        Some(ToolKind::InspectSpreadsheet)
    } else if chars_eq_str(&n, "create_export_preview") {
        Some(ToolKind::CreateExportPreview)
    } else if chars_eq_str(&n, "validate_xlsx") {
        Some(ToolKind::ValidateXlsx)
    } else if chars_eq_str(&n, "generate_template_plan") {
        Some(ToolKind::GenerateTemplatePlan)
    } else if chars_eq_str(&n, "export_invoices_with_template") {
        Some(ToolKind::ExportInvoicesWithTemplate)
    } else if chars_eq_str(&n, "export_invoices") {
        Some(ToolKind::ExportInvoices)
    } else if chars_eq_str(&n, "merge_invoices") {
        Some(ToolKind::MergeInvoices)
    } else if chars_eq_str(&n, "export_pdf_report") {
        Some(ToolKind::ExportPdfReport)
    } else if chars_eq_str(&n, "update_invoice") {
        Some(ToolKind::UpdateInvoice)
    } else if chars_eq_str(&n, "get_badge_config") {
        Some(ToolKind::GetBadgeConfig)
    } else if chars_eq_str(&n, "set_badge_config") {
        Some(ToolKind::SetBadgeConfig)
    } else if chars_eq_str(&n, "set_invoice_badge") {
        Some(ToolKind::SetInvoiceBadge)
    } else if chars_eq_str(&n, "get_price_config") {
        Some(ToolKind::GetPriceConfig)
    } else if chars_eq_str(&n, "set_price_config") {
        Some(ToolKind::SetPriceConfig)
    } else if chars_eq_str(&n, "get_theme") {
        Some(ToolKind::GetTheme)
    } else if chars_eq_str(&n, "set_theme") {
        Some(ToolKind::SetTheme)
    } else if chars_eq_str(&n, "export_logs") {
        Some(ToolKind::ExportLogs)
    } else if chars_eq_str(&n, "export_backup") {
        Some(ToolKind::ExportBackup)
    } else if chars_eq_str(&n, "cleanup_storage") {
        Some(ToolKind::CleanupStorage)
    } else if chars_eq_str(&n, "get_app_info") {
        Some(ToolKind::GetAppInfo)
    } else if chars_eq_str(&n, "get_sysinfo") {
        Some(ToolKind::GetSysinfo)
    } else if chars_eq_str(&n, "ask_user") {
        Some(ToolKind::AskUser)
    } else {
        None
    }
}

/// The tools that only run once the user confirmed them (`_confirmed`).
pub open spec fn gated_spec(k: ToolKind) -> bool {
    match k {
        ToolKind::ExportInvoicesWithTemplate => true,
        ToolKind::ExportInvoices => true,
        ToolKind::MergeInvoices => true,
        ToolKind::ExportPdfReport => true,
        ToolKind::UpdateInvoice => true,
        ToolKind::SetBadgeConfig => true,
        ToolKind::SetInvoiceBadge => true,
        ToolKind::SetPriceConfig => true,
        ToolKind::ExportLogs => true,
        ToolKind::ExportBackup => true,
        ToolKind::CleanupStorage => true,
        ToolKind::AskUser => true,
        _ => false,
    }
}

/// What the executor does with a tool call.
#[derive(PartialEq, Eq, Structural)]
pub enum ToolGate {
    /// Run the tool.
    Run,
    /// Do not run it; ask the user to confirm first.
    AskConfirmation,
    /// Refuse: `未知工具: <name>`.
    Unknown,
}

pub open spec fn tool_gate_spec(name: Seq<char>, confirmed: bool) -> ToolGate {
    match tool_kind_spec(name) {
        Some(k) => if gated_spec(k) && !confirmed {
            ToolGate::AskConfirmation
        } else {
            ToolGate::Run
        },
        None => ToolGate::Unknown,
    }
}

/// The executor's gate: tools that change data, write files or ask the user
/// run only when the call carries `_confirmed: true`; unknown tools never run.
pub fn tool_gate(name: &str, confirmed: bool) -> (r: ToolGate)
    ensures
        r == tool_gate_spec(name@, confirmed),
{
    match tool_kind(name) {
        Some(k) => {
            let gated = match k {
                ToolKind::ExportInvoicesWithTemplate => true,
                ToolKind::ExportInvoices => true,
                ToolKind::MergeInvoices => true,
                ToolKind::ExportPdfReport => true,
                ToolKind::UpdateInvoice => true,
                ToolKind::SetBadgeConfig => true,
                ToolKind::SetInvoiceBadge => true,
                ToolKind::SetPriceConfig => true,
                ToolKind::ExportLogs => true,
                ToolKind::ExportBackup => true,
                ToolKind::CleanupStorage => true,
                ToolKind::AskUser => true,
                _ => false,
            };
            if gated && !confirmed {
                ToolGate::AskConfirmation
            } else {
                ToolGate::Run
            }
        },
        None => ToolGate::Unknown,
    }
}

/// The message of an unknown tool.
pub fn unknown_tool_message(name: &str) -> (r: String)
    ensures
        r@ == "未知工具: "@ + name@,
{
    let mut out: Vec<char> = Vec::new();
    push_str(&mut out, "未知工具: ");
    push_str(&mut out, name);
    string_from_chars(out.as_slice())
}

/// Flags of a tool of the catalog offered to the model.
pub struct ToolFlags {
    pub is_read_only: bool,
    pub requires_confirmation: bool,
}

/// The catalog of tools offered to the model, with their flags.
pub open spec fn catalog_flags_spec(name: Seq<char>) -> Option<(bool, bool)> {
    if name == "search_invoices"@ || name == "get_invoice_detail"@ || name
        == "get_dashboard_stats"@ || name == "get_current_date_context"@ || name
        == "get_invoice_field_catalog"@ || name == "list_message_attachments"@ || name
        == "inspect_spreadsheet"@ || name == "create_export_preview"@ || name
        == "get_badge_config"@ || name == "get_price_config"@ || name
        == "get_recognition_status"@ || name == "get_theme"@ || name == "get_app_info"@ {
        Some((true, false))
    } else if name == "export_invoices"@ || name == "export_invoices_with_template"@ || name
        == "update_invoice"@ || name == "merge_invoices"@ || name == "export_pdf_report"@ || name
        == "set_badge_config"@ || name == "set_invoice_badge"@ || name == "set_price_config"@
        || name == "set_recognition_concurrency"@ || name == "export_logs"@ || name
        == "export_backup"@ || name == "cleanup_storage"@ {
        Some((false, true))
    } else if name == "set_theme"@ {
        Some((false, false))
    } else {
        None
    }
}

/// The tools offered to the model, in the order they are offered.
pub open spec fn catalog_names() -> Seq<Seq<char>> {
    seq![
        "search_invoices"@,
        "get_invoice_detail"@,
        "get_dashboard_stats"@,
        "get_current_date_context"@,
        "get_invoice_field_catalog"@,
        "list_message_attachments"@,
        "inspect_spreadsheet"@,
        "export_invoices"@,
        "create_export_preview"@,
        "export_invoices_with_template"@,
        "update_invoice"@,
        "merge_invoices"@,
        "export_pdf_report"@,
        "get_badge_config"@,
        "set_badge_config"@,
        "set_invoice_badge"@,
        "get_price_config"@,
        "set_price_config"@,
        "get_recognition_status"@,
        "set_recognition_concurrency"@,
        "get_theme"@,
        "set_theme"@,
        "export_logs"@,
        "export_backup"@,
        "cleanup_storage"@,
        "get_app_info"@,
    ]
}

/// The names of the tools offered to the model, in order.
pub fn catalog_tool_names() -> (r: Vec<&'static str>)
    ensures
        r@.map_values(|n: &str| n@) == catalog_names(),
{
    let v: Vec<&'static str> = vec![
        "search_invoices",
        "get_invoice_detail",
        "get_dashboard_stats",
        "get_current_date_context",
        "get_invoice_field_catalog",
        "list_message_attachments",
        "inspect_spreadsheet",
        "export_invoices",
        "create_export_preview",
        "export_invoices_with_template",
        "update_invoice",
        "merge_invoices",
        "export_pdf_report",
        "get_badge_config",
        "set_badge_config",
        "set_invoice_badge",
        "get_price_config",
        "set_price_config",
        "get_recognition_status",
        "set_recognition_concurrency",
        "get_theme",
        "set_theme",
        "export_logs",
        "export_backup",
        "cleanup_storage",
        "get_app_info",
    ];
    assert(v@.map_values(|n: &str| n@) =~= catalog_names());
    v
}

/// Every tool offered to the model has a catalog entry with its flags.
pub proof fn law_offered_tools_have_flags()
    ensures
        forall|k: int| 0 <= k < catalog_names().len() ==> (#[trigger] catalog_flags_spec(catalog_names()[k])) is Some,
{
    assert forall|k: int| 0 <= k < catalog_names().len() implies (#[trigger] catalog_flags_spec(
        catalog_names()[k],
    )) is Some by {
        if k == 0 {
            assert(catalog_names()[0] == "search_invoices"@);
        } else if k == 1 {
            assert(catalog_names()[1] == "get_invoice_detail"@);
        } else if k == 2 {
            assert(catalog_names()[2] == "get_dashboard_stats"@);
        } else if k == 3 {
            assert(catalog_names()[3] == "get_current_date_context"@);
        } else if k == 4 {
            assert(catalog_names()[4] == "get_invoice_field_catalog"@);
        } else if k == 5 {
            assert(catalog_names()[5] == "list_message_attachments"@);
        } else if k == 6 {
            assert(catalog_names()[6] == "inspect_spreadsheet"@);
        } else if k == 7 {
            assert(catalog_names()[7] == "export_invoices"@);
        } else if k == 8 {
            assert(catalog_names()[8] == "create_export_preview"@);
        } else if k == 9 {
            assert(catalog_names()[9] == "export_invoices_with_template"@);
        } else if k == 10 {
            assert(catalog_names()[10] == "update_invoice"@);
        } else if k == 11 {
            assert(catalog_names()[11] == "merge_invoices"@);
        } else if k == 12 {
            assert(catalog_names()[12] == "export_pdf_report"@);
        } else if k == 13 {
            assert(catalog_names()[13] == "get_badge_config"@);
        } else if k == 14 {
            assert(catalog_names()[14] == "set_badge_config"@);
        } else if k == 15 {
            assert(catalog_names()[15] == "set_invoice_badge"@);
        } else if k == 16 {
            assert(catalog_names()[16] == "get_price_config"@);
        } else if k == 17 {
            assert(catalog_names()[17] == "set_price_config"@);
        } else if k == 18 {
            assert(catalog_names()[18] == "get_recognition_status"@);
        } else if k == 19 {
            assert(catalog_names()[19] == "set_recognition_concurrency"@);
        } else if k == 20 {
            assert(catalog_names()[20] == "get_theme"@);
        } else if k == 21 {
            assert(catalog_names()[21] == "set_theme"@);
        } else if k == 22 {
            assert(catalog_names()[22] == "export_logs"@);
        } else if k == 23 {
            assert(catalog_names()[23] == "export_backup"@);
        } else if k == 24 {
            assert(catalog_names()[24] == "cleanup_storage"@);
        } else if k == 25 {
            assert(catalog_names()[25] == "get_app_info"@);
        }
    }
}

/// The catalog entry of a tool: whether it only reads and whether it needs
/// the user's confirmation.
pub fn catalog_flags(name: &str) -> (r: Option<ToolFlags>)
    ensures
        match catalog_flags_spec(name@) {
            Some((ro, rc)) => r matches Some(f) && f.is_read_only == ro && f.requires_confirmation == rc,
            None => r is None,
        },
{
    let n = chars_of(name);
    if chars_eq_str(&n, "search_invoices") || chars_eq_str(&n, "get_invoice_detail")
        || chars_eq_str(&n, "get_dashboard_stats") || chars_eq_str(&n, "get_current_date_context")
        || chars_eq_str(&n, "get_invoice_field_catalog") || chars_eq_str(
        &n,
        "list_message_attachments",
    ) || chars_eq_str(&n, "inspect_spreadsheet") || chars_eq_str(&n, "create_export_preview")
        || chars_eq_str(&n, "get_badge_config") || chars_eq_str(&n, "get_price_config")
        || chars_eq_str(&n, "get_recognition_status") || chars_eq_str(&n, "get_theme")
        || chars_eq_str(&n, "get_app_info") {
        Some(ToolFlags { is_read_only: true, requires_confirmation: false })
    } else if chars_eq_str(&n, "export_invoices") || chars_eq_str(
        &n,
        "export_invoices_with_template",
    ) || chars_eq_str(&n, "update_invoice") || chars_eq_str(&n, "merge_invoices")
        || chars_eq_str(&n, "export_pdf_report") || chars_eq_str(&n, "set_badge_config")
        || chars_eq_str(&n, "set_invoice_badge") || chars_eq_str(&n, "set_price_config")
        || chars_eq_str(&n, "set_recognition_concurrency") || chars_eq_str(&n, "export_logs")
        || chars_eq_str(&n, "export_backup") || chars_eq_str(&n, "cleanup_storage") {
        Some(ToolFlags { is_read_only: false, requires_confirmation: true })
    } else if chars_eq_str(&n, "set_theme") {
        Some(ToolFlags { is_read_only: false, requires_confirmation: false })
    } else {
        None
    }
}


// ---------------------------------------------------------------------------
// The event stream of a chat completion
// ---------------------------------------------------------------------------

/// Appends a received chunk (its bytes decoded, invalid UTF-8 replaced) to
/// the buffer of the stream, with `\r\n` line ends made `\n`.
pub fn sse_append(buffer: &str, chunk: &[u8]) -> (r: String)
    ensures
        r@ == replace_all(buffer@ + crate::importer::utf8_lossy(chunk@), "\r\n"@, "\n"@),
{
    let text = crate::importer::from_utf8_lossy(chunk);
    let mut all = chars_of(buffer);
    push_str(&mut all, text.as_str());
    proof {
        reveal_strlit("\r\n");
    }
    let replaced = replace_chars(&all, "\r\n", "\n");
    string_from_chars(replaced.as_slice())
}

/// The next complete event of the buffer (the text before the first blank
/// line) and the rest of the buffer after that blank line.
pub open spec fn next_event_spec(buffer: Seq<char>) -> Option<(Seq<char>, Seq<char>)> {
    match find_from(buffer, "\n\n"@, 0) {
        Some(i) => Some((buffer.take(i), buffer.skip(i + 2))),
        None => None,
    }
}

/// Reading an event from the stream buffer loses nothing and stops at the
/// first blank line: the buffer is the event, the blank line and the rest,
/// and the event itself holds no blank line; with no blank line the buffer
/// holds no complete event.
pub proof fn law_sse_split_is_exact(buffer: Seq<char>)
    ensures
        match next_event_spec(buffer) {
            Some((e, rest)) => buffer == e + "\n\n"@ + rest && forall|j: int| !occurs_at(e, "\n\n"@, j),
            None => forall|j: int| 0 <= j ==> !occurs_at(buffer, "\n\n"@, j),
        },
{
    reveal_strlit("\n\n");
    lemma_find_from(buffer, "\n\n"@, 0);
    match find_from(buffer, "\n\n"@, 0) {
        Some(i) => {
            let e = buffer.take(i);
            assert(buffer.subrange(i, i + 2) == "\n\n"@);
            assert(buffer =~= e + "\n\n"@ + buffer.skip(i + 2));
            assert forall|j: int| !occurs_at(e, "\n\n"@, j) by {
                if occurs_at(e, "\n\n"@, j) {
                    assert(e.subrange(j, j + 2) =~= buffer.subrange(j, j + 2));
                    assert(occurs_at(buffer, "\n\n"@, j));
                }
            }
        },
        None => {},
    }
}

pub fn next_sse_event(buffer: &str) -> (r: Option<(String, String)>)
    ensures
        match next_event_spec(buffer@) {
            Some((e, rest)) => r matches Some(p) && p.0@ == e && p.1@ == rest,
            None => r is None,
        },
{
    let b = chars_of(buffer);
    let sep = chars_of("\n\n");
    proof {
        reveal_strlit("\n\n");
    }
    match find_chars(&b, &sep, 0) {
        Some(i) => {
            proof {
                lemma_find_from(b@, sep@, 0);
            }
            assert(sep@.len() == 2);
            assert(i + 2 <= b.len());
            let e = slice_chars(&b, 0, i);
            let rest = slice_chars(&b, i + 2, b.len());
            assert(e@ =~= b@.take(i as int));
            assert(rest@ =~= b@.skip(i + 2));
            Some((string_from_chars(e.as_slice()), string_from_chars(rest.as_slice())))
        },
        None => None,
    }
}

/// `str::lines`: the text split at `\n`, a `\r` before a `\n` removed, no
/// empty line after a final `\n`.
pub open spec fn lines_spec(s: Seq<char>) -> Seq<Seq<char>> {
    let pieces = split_all(s, "\n"@);
    let body = pieces.drop_last().map_values(|p: Seq<char>| strip_cr(p));
    if pieces.last().len() > 0 {
        body.push(pieces.last())
    } else {
        body
    }
}

/// A line without the `\r` that ended it.
pub open spec fn strip_cr(p: Seq<char>) -> Seq<char> {
    if p.len() > 0 && p.last() == '\r' {
        p.drop_last()
    } else {
        p
    }
}

/// The payload of a `data:` line (leading whitespace allowed before and
/// after `data:`), if the line is one.
pub open spec fn data_payload(line: Seq<char>) -> Option<Seq<char>> {
    let l = trim_start(line);
    if starts_with(l, "data:"@) {
        Some(trim_start(l.skip(5)))
    } else {
        None
    }
}

/// The payloads of an event, in order, up to `[DONE]`; and whether `[DONE]`
/// was seen.  Empty payloads are skipped.
pub open spec fn event_payloads(lines: Seq<Seq<char>>) -> (Seq<Seq<char>>, bool)
    decreases lines.len(),
{
    if lines.len() == 0 {
        (Seq::empty(), false)
    } else {
        match data_payload(lines[0]) {
            Some(d) => if d.len() == 0 {
                event_payloads(lines.drop_first())
            } else if d == "[DONE]"@ {
                (Seq::empty(), true)
            } else {
                let (rest, done) = event_payloads(lines.drop_first());
                (seq![d] + rest, done)
            },
            None => event_payloads(lines.drop_first()),
        }
    }
}

/// `str::lines` of a text, as character vectors.
pub fn text_lines(event: &str) -> (r: Vec<Vec<char>>)
    ensures
        views(r@) == lines_spec(event@),
{
    let e = chars_of(event);
    let nl = chars_of("\n");
    proof {
        reveal_strlit("\n");
        lemma_split_nonempty(e@, nl@);
    }
    let pieces = split_pieces(&e, &nl);
    let ghost ps = split_all(event@, "\n"@);
    let n = pieces.len();
    let mut r: Vec<Vec<char>> = Vec::new();
    let mut k: usize = 0;
    while k + 1 < n
        invariant
            n == pieces.len(),
            n >= 1,
            k + 1 <= n,
            views(pieces@) == ps,
            ps == split_all(event@, "\n"@),
            views(r@) =~= ps.take(k as int).map_values(|p: Seq<char>| strip_cr(p)),
        decreases n - k,
    {
        assert(ps[k as int] == pieces@[k as int]@);
        let p = &pieces[k];
        let line = if p.len() > 0 && p[p.len() - 1] == '\r' {
            slice_chars(p, 0, p.len() - 1)
        } else {
            slice_chars(p, 0, p.len())
        };
        assert(line@ == strip_cr(ps[k as int]));
        let ghost before = r@;
        r.push(line);
        assert(views(r@) =~= views(before).push(line@));
        assert(ps.take(k as int + 1).map_values(|p: Seq<char>| strip_cr(p)) =~= ps.take(
            k as int,
        ).map_values(|p: Seq<char>| strip_cr(p)).push(strip_cr(ps[k as int])));
        k += 1;
    }
    assert(ps[n - 1] == pieces@[n - 1]@);
    assert(ps.take(n - 1) =~= ps.drop_last());
    let ghost body = ps.drop_last().map_values(|p: Seq<char>| strip_cr(p));
    assert(views(r@) =~= body);
    assert(ps.last() == ps[n - 1]);
    if pieces[n - 1].len() > 0 {
        let last = slice_chars(&pieces[n - 1], 0, pieces[n - 1].len());
        assert(last@ =~= ps[n - 1]);
        let ghost before = r@;
        r.push(last);
        assert(views(r@) =~= views(before).push(last@));
        assert(lines_spec(event@) == body.push(ps.last()));
    } else {
        assert(ps.last().len() == 0);
        assert(lines_spec(event@) == body);
    }
    assert(views(r@) =~= lines_spec(event@));
    r
}

/// The data payloads of an event of the stream and whether it ends the
/// stream.
pub fn sse_event_data(event: &str) -> (r: (Vec<String>, bool))
    ensures
        crate::xlsx::string_views(r.0@) == event_payloads(lines_spec(event@)).0,
        r.1 == event_payloads(lines_spec(event@)).1,
{
    let lines = text_lines(event);
    let mut out: Vec<String> = Vec::new();
    let mut i: usize = 0;
    assert(views(lines@).skip(0) =~= views(lines@));
    while i < lines.len()
        invariant
            i <= lines.len(),
            views(lines@) == lines_spec(event@),
            ({
                let (rest, done) = event_payloads(views(lines@).skip(i as int));
                event_payloads(lines_spec(event@)) == (crate::xlsx::string_views(out@) + rest, done)
            }),
        decreases lines.len() - i,
    {
        let ghost rest = views(lines@).skip(i as int);
        assert(rest[0] == lines@[i as int]@);
        assert(rest.drop_first() =~= views(lines@).skip(i as int + 1));
        proof {
            reveal_strlit("data:");
            reveal_strlit("[DONE]");
        }
        let l = &lines[i];
        let lt = trim_start_chars(l);
        if starts_with_str(&lt, "data:") {
            let d0 = slice_chars(&lt, 5, lt.len());
            assert(d0@ =~= lt@.skip(5));
            let d = trim_start_chars(&d0);
            if d.len() == 0 {
            } else if chars_eq_str(&d, "[DONE]") {
                assert(event_payloads(rest) == (Seq::<Seq<char>>::empty(), true));
                assert(crate::xlsx::string_views(out@) + Seq::<Seq<char>>::empty() =~= crate::xlsx::string_views(out@));
                return (out, true);
            } else {
                let ghost before = crate::xlsx::string_views(out@);
                out.push(string_from_chars(d.as_slice()));
                assert(crate::xlsx::string_views(out@) =~= before.push(d@));
                let ghost (r2, done2) = event_payloads(rest.drop_first());
                assert(before + (seq![d@] + r2) =~= crate::xlsx::string_views(out@) + r2);
            }
        }
        i += 1;
    }
    assert(views(lines@).skip(lines.len() as int) =~= Seq::<Seq<char>>::empty());
    assert(crate::xlsx::string_views(out@) + Seq::<Seq<char>>::empty() =~= crate::xlsx::string_views(out@));
    (out, false)
}


// ---------------------------------------------------------------------------
// Assembling streamed tool calls
// ---------------------------------------------------------------------------

/// A fragment of a tool call, as one chunk of the stream carries it.
pub struct ToolCallDelta {
    pub index: usize,
    pub id: Option<String>,
    pub type_: Option<String>,
    pub function: Option<ToolCallFunctionDelta>,
}

pub struct ToolCallFunctionDelta {
    pub name: Option<String>,
    pub arguments: Option<String>,
}

/// A tool call being assembled from fragments.
pub struct ToolCallAccumulator {
    pub id: Option<String>,
    pub type_: Option<String>,
    pub name: String,
    pub arguments: String,
}

#[verifier::ext_equal]
pub struct AccView {
    pub id: Option<Seq<char>>,
    pub type_: Option<Seq<char>>,
    pub name: Seq<char>,
    pub arguments: Seq<char>,
}

pub open spec fn acc_view(a: ToolCallAccumulator) -> AccView {
    AccView {
        id: crate::search::ostr(a.id),
        type_: crate::search::ostr(a.type_),
        name: a.name@,
        arguments: a.arguments@,
    }
}

pub open spec fn accs_view(v: Seq<ToolCallAccumulator>) -> Seq<AccView> {
    v.map_values(|a: ToolCallAccumulator| acc_view(a))
}

pub open spec fn empty_acc() -> AccView {
    AccView { id: None, type_: None, name: Seq::empty(), arguments: Seq::empty() }
}

/// The fragment's content: its index, id, type, name and arguments.
pub struct DeltaView {
    pub index: nat,
    pub id: Option<Seq<char>>,
    pub type_: Option<Seq<char>>,
    pub name: Option<Seq<char>>,
    pub arguments: Option<Seq<char>>,
}

pub open spec fn delta_view(d: ToolCallDelta) -> DeltaView {
    DeltaView {
        index: d.index as nat,
        id: crate::search::ostr(d.id),
        type_: crate::search::ostr(d.type_),
        name: match d.function {
            Some(f) => crate::search::ostr(f.name),
            None => None,
        },
        arguments: match d.function {
            Some(f) => crate::search::ostr(f.arguments),
            None => None,
        },
    }
}

/// A fragment sets the id and the type it carries, and appends its name
/// (when not empty) and its arguments.
pub open spec fn step_acc(a: AccView, d: DeltaView) -> AccView {
    AccView {
        id: match d.id {
            Some(i) => Some(i),
            None => a.id,
        },
        type_: match d.type_ {
            Some(t) => Some(t),
            None => a.type_,
        },
        name: match d.name {
            Some(n) => if n.len() > 0 {
                a.name + n
            } else {
                a.name
            },
            None => a.name,
        },
        arguments: match d.arguments {
            Some(x) => a.arguments + x,
            None => a.arguments,
        },
    }
}

/// The calls after a fragment: as many as its index needs, the indexed one
/// stepped.
pub open spec fn apply_delta_spec(accs: Seq<AccView>, d: DeltaView) -> Seq<AccView> {
    let padded = if accs.len() <= d.index {
        accs + Seq::new((d.index + 1 - accs.len()) as nat, |i: int| empty_acc())
    } else {
        accs
    };
    padded.update(d.index as int, step_acc(padded[d.index as int], d))
}

/// Applies a fragment to the calls being assembled; gives the name of the
/// call so far when the fragment added to it (the moment a tool-call event
/// is reported).
pub fn apply_tool_call_delta(calls: &mut Vec<ToolCallAccumulator>, delta: &ToolCallDelta) -> (r:
    Option<String>)
    requires
        delta.index < usize::MAX,
    ensures
        accs_view(final(calls)@) == apply_delta_spec(accs_view(old(calls)@), delta_view(*delta)),
        match delta_view(*delta).name {
            Some(n) => if n.len() > 0 {
                r matches Some(s) && s@ == accs_view(final(calls)@)[delta.index as int].name
            } else {
                r is None
            },
            None => r is None,
        },
{
    let ghost old_v = accs_view(calls@);
    while calls.len() <= delta.index
        invariant
            delta.index < usize::MAX,
            old_v.len() <= delta.index ==> accs_view(calls@) =~= old_v + Seq::new(
                (calls.len() - old_v.len()) as nat,
                |i: int| empty_acc(),
            ),
            old_v.len() > delta.index ==> accs_view(calls@) == old_v,
            calls.len() >= old_v.len(),
            calls.len() <= delta.index + 1 || old_v.len() > delta.index,
        decreases delta.index + 1 - calls.len(),
    {
        let ghost before = accs_view(calls@);
        calls.push(ToolCallAccumulator { id: None, type_: None, name: String::new(), arguments: String::new() });
        assert(accs_view(calls@) =~= before.push(empty_acc()));
    }
    let ghost padded = accs_view(calls@);
    assert(padded == if old_v.len() <= delta.index {
        old_v + Seq::new((delta.index + 1 - old_v.len()) as nat, |i: int| empty_acc())
    } else {
        old_v
    });
    let i = delta.index;
    let mut call = ToolCallAccumulator { id: None, type_: None, name: String::new(), arguments: String::new() };
    std::mem::swap(&mut call, &mut calls[i]);
    assert(acc_view(call) == padded[i as int]);
    match &delta.id {
        Some(id) => call.id = Some(id.clone()),
        None => {},
    }
    match &delta.type_ {
        Some(t) => call.type_ = Some(t.clone()),
        None => {},
    }
    let mut event: Option<String> = None;
    match &delta.function {
        Some(f) => {
            match &f.name {
                Some(n) => {
                    let nc = chars_of(n.as_str());
                    if nc.len() > 0 {
                        let mut all = chars_of(call.name.as_str());
                        push_chars(&mut all, &nc);
                        call.name = string_from_chars(all.as_slice());
                        event = Some(call.name.clone());
                    }
                },
                None => {},
            }
            match &f.arguments {
                Some(a) => {
                    let mut all = chars_of(call.arguments.as_str());
                    push_str(&mut all, a.as_str());
                    call.arguments = string_from_chars(all.as_slice());
                },
                None => {},
            }
        },
        None => {},
    }
    assert(acc_view(call) =~= step_acc(padded[i as int], delta_view(*delta)));
    let ghost stepped = acc_view(call);
    calls.set(i, call);
    assert(accs_view(calls@) =~= padded.update(i as int, stepped));
    event
}

/// Assembles a stream of fragments from nothing.
pub open spec fn assemble(ds: Seq<DeltaView>) -> Seq<AccView>
    decreases ds.len(),
{
    if ds.len() == 0 {
        Seq::empty()
    } else {
        apply_delta_spec(assemble(ds.drop_last()), ds.last())
    }
}

/// The argument fragments of call `k`, in stream order.
pub open spec fn argument_fragments(ds: Seq<DeltaView>, k: nat) -> Seq<char>
    decreases ds.len(),
{
    if ds.len() == 0 {
        Seq::empty()
    } else {
        argument_fragments(ds.drop_last(), k) + if ds.last().index == k {
            match ds.last().arguments {
                Some(x) => x,
                None => Seq::empty(),
            }
        } else {
            Seq::empty()
        }
    }
}

/// Streamed arguments are reassembled exactly: the arguments of each call
/// are its argument fragments concatenated in the order they arrived, and
/// a call index never seen has no fragment.
pub proof fn law_arguments_concatenate(ds: Seq<DeltaView>)
    ensures
        forall|k: nat| k < assemble(ds).len() ==> #[trigger] assemble(ds)[k as int].arguments
            == argument_fragments(ds, k),
        forall|k: nat| k >= assemble(ds).len() ==> #[trigger] argument_fragments(ds, k).len()
            == 0,
    decreases ds.len(),
{
    if ds.len() > 0 {
        law_arguments_concatenate(ds.drop_last());
        let prev = assemble(ds.drop_last());
        let d = ds.last();
        let padded = if prev.len() <= d.index {
            prev + Seq::new((d.index + 1 - prev.len()) as nat, |i: int| empty_acc())
        } else {
            prev
        };
        assert forall|k: nat| k < assemble(ds).len() implies #[trigger] assemble(ds)[k as int].arguments
            == argument_fragments(ds, k) by {
            if k < prev.len() {
                assert(padded[k as int] == prev[k as int]);
            } else {
                assert(padded[k as int] == empty_acc());
                assert(argument_fragments(ds.drop_last(), k).len() == 0);
            }
        }
        assert forall|k: nat| k >= assemble(ds).len() implies #[trigger] argument_fragments(
            ds,
            k,
        ).len() == 0 by {
            assert(argument_fragments(ds.drop_last(), k).len() == 0);
        }
    }
}

/// A finished tool call.
pub open spec fn tool_call_view(c: ToolCall) -> (Seq<char>, Seq<char>, Seq<char>, Seq<char>) {
    (c.id@, c.type_@, c.function.name@, c.function.arguments@)
}

/// The tool calls of an assembled reply: those with a name, in order; a
/// call without id is `call_<index>`, one without type a `function`.
pub open spec fn finished_calls(accs: Seq<AccView>) -> Seq<(Seq<char>, Seq<char>, Seq<char>, Seq<char>)>
    decreases accs.len(),
{
    if accs.len() == 0 {
        Seq::empty()
    } else {
        let prev = finished_calls(accs.drop_last());
        let a = accs.last();
        if a.name.len() == 0 {
            prev
        } else {
            prev.push(
                (
                    match a.id {
                        Some(i) => i,
                        None => "call_"@ + dec((accs.len() - 1) as nat),
                    },
                    match a.type_ {
                        Some(t) => t,
                        None => "function"@,
                    },
                    a.name,
                    a.arguments,
                ),
            )
        }
    }
}

pub fn finish_tool_calls(calls: Vec<ToolCallAccumulator>) -> (r: Vec<ToolCall>)
    ensures
        r@.map_values(|c: ToolCall| tool_call_view(c)) == finished_calls(accs_view(calls@)),
{
    let mut r: Vec<ToolCall> = Vec::new();
    let mut i: usize = 0;
    while i < calls.len()
        invariant
            i <= calls.len(),
            r@.map_values(|c: ToolCall| tool_call_view(c)) == finished_calls(
                accs_view(calls@).take(i as int),
            ),
        decreases calls.len() - i,
    {
        let ghost t = accs_view(calls@).take(i as int + 1);
        assert(t.drop_last() =~= accs_view(calls@).take(i as int));
        assert(t.last() == acc_view(calls@[i as int]));
        let c = &calls[i];
        let nc = chars_of(c.name.as_str());
        if nc.len() > 0 {
            let id = match &c.id {
                Some(id) => id.clone(),
                None => {
                    let mut v: Vec<char> = Vec::new();
                    push_str(&mut v, "call_");
                    push_usize(&mut v, i);
                    string_from_chars(v.as_slice())
                },
            };
            let type_ = match &c.type_ {
                Some(t) => t.clone(),
                None => "function".to_owned(),
            };
            let call = ToolCall {
                id,
                type_,
                function: ToolCallFunction { name: c.name.clone(), arguments: c.arguments.clone() },
            };
            let ghost before = r@;
            let ghost cv = tool_call_view(call);
            r.push(call);
            assert(r@.map_values(|c: ToolCall| tool_call_view(c)) =~= before.map_values(
                |c: ToolCall| tool_call_view(c),
            ).push(cv));
        }
        i += 1;
    }
    assert(accs_view(calls@).take(calls.len() as int) =~= accs_view(calls@));
    r
}

/// The assistant's text of a streamed reply: absent when empty.
pub fn streamed_content(content: String) -> (r: Option<String>)
    ensures
        content@.len() == 0 ==> r is None,
        content@.len() > 0 ==> (r matches Some(s) && s@ == content@),
{
    let c = chars_of(content.as_str());
    if c.len() == 0 {
        None
    } else {
        Some(content)
    }
}


// ---------------------------------------------------------------------------
// Events reported to the window while a turn runs
// ---------------------------------------------------------------------------

/// Declares the JSON value type so that a pending confirmation can carry
/// the arguments of its tool call.
#[verifier::external_type_specification]
#[verifier::external_body]
pub struct ExJsonValue(serde_json::Value);

/// A tool call waiting for the user's confirmation.
pub struct PendingConfirmation {
    pub tool_name: String,
    pub arguments: serde_json::Value,
    pub message: String,
}

/// What the window is told while a turn runs.
pub enum AgentStreamEvent {
    Started,
    AssistantDelta { delta: String },
    ToolCall { tool_name: String },
    ToolResult { tool_name: String },
    PendingConfirmation { pending_confirmation: PendingConfirmation },
    Finished,
    Error { message: String },
}

/// An event of a stream, addressed to the stream and its conversation.
pub struct AgentStreamPayload {
    pub stream_id: String,
    pub session_id: i64,
    pub event: AgentStreamEvent,
}

/// The event reported for a piece of assistant text: none for an empty
/// piece.
pub fn content_delta_event(delta: String) -> (r: Option<AgentStreamEvent>)
    ensures
        delta@.len() == 0 ==> r is None,
        delta@.len() > 0 ==> (r matches Some(AgentStreamEvent::AssistantDelta { delta: d }) && d@
            == delta@),
{
    let c = chars_of(delta.as_str());
    if c.len() == 0 {
        None
    } else {
        Some(AgentStreamEvent::AssistantDelta { delta })
    }
}

} // verus!
