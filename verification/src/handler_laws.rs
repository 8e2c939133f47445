//! What each handler does, said of its inputs and of what comes of them.

use crate::actor::{
    exit_outcome, initialize_request, message_step, parsed_view, request_step, stdout_step,
    ActorRequestView,
};
use crate::json::{is_null_json, object_is_one_line, quoted, quoted_is_one_line, value_text};
use crate::laws::reminder_is_known;
use crate::message::{
    initialized_notification_text, optional_entry, InitState, McpActorRequest, RequestView,
    ResponseView,
};
use crate::message_laws::{
    bytes_read_back, is_optional_value, is_valid_response, line_reads_back, notification_reads_back,
    opening_reads_back, read_line, reads_as_notification, reads_as_opening, reads_as_response,
    reads_as_tool_call, request_reads_back, response_reads_back, tool_call_reads_back,
};
use crate::process::{OutputMode, ProcessConfig};
use crate::reading::{
    has_keys, is_number_text, is_value_text, key_if, member, number_reads_back, string_member,
};
use crate::state::{
    after_reminder, reminder_bytes, reply_view, AppState, Delivery, DeliveryView, Effect,
    EffectView, StateView,
};
use crate::text::{decimal, line_bytes, line_bytes_are_one_line, signed_decimal};
use crate::turn::{
    optional_bytes, Origin, OriginView, Outcome, OutcomeView, Phase, Step, StepView, TurnView,
};
use vstd::prelude::*;
use vstd::utf8::{decode_utf8, valid_utf8};

verus! {

/// Whether an effect writes one line to this process that is read as a request with this id and
/// method and with parameters of this text, or with none.
pub open spec fn writes_request(
    effect: EffectView,
    process: Option<u64>,
    id: Seq<char>,
    method: Seq<char>,
    params: Option<Seq<char>>,
) -> bool {
    &&& effect matches EffectView::WriteStdin { pid, data }
    &&& process == Some(pid)
    &&& read_line(data) matches Some(text)
    &&& string_member(text, "jsonrpc"@) == Some("2.0"@)
    &&& string_member(text, "id"@) == Some(id)
    &&& string_member(text, "method"@) == Some(method)
    &&& member(text, "params"@) == params
    &&& has_keys(text, seq!["jsonrpc"@, "id"@, "method"@] + key_if(params is Some, "params"@))
}

/// Whether an effect writes one line to this process that is read as a request that waited.
pub open spec fn writes_waiting(
    effect: EffectView,
    process: Option<u64>,
    request: RequestView,
) -> bool {
    &&& effect matches EffectView::WriteStdin { pid, data }
    &&& process == Some(pid)
    &&& read_line(data) matches Some(text)
    &&& string_member(text, "jsonrpc"@) == Some(request.jsonrpc)
    &&& string_member(text, "id"@) == Some(request.id)
    &&& string_member(text, "method"@) == Some(request.method)
    &&& member(text, "params"@) == request.params
    &&& has_keys(text, seq!["jsonrpc"@, "id"@, "method"@] + key_if(request.params is Some, "params"@))
}

/// Whether an effect writes one line to this process that is read as the notification that the
/// connection is open.
pub open spec fn writes_notification(effect: EffectView, process: Option<u64>) -> bool {
    &&& effect matches EffectView::WriteStdin { pid, data }
    &&& process == Some(pid)
    &&& read_line(data) matches Some(text)
    &&& reads_as_notification(text)
}

/// Whether an effect sends this actor the word `null`.
pub open spec fn sends_null(effect: EffectView, actor: Seq<char>) -> bool {
    &&& effect matches EffectView::Send { actor_id, data }
    &&& actor_id == actor
    &&& valid_utf8(data)
    &&& decode_utf8(data) == "null"@
    &&& is_null_json(data)
}

/// Whether an effect answers the request with this id, and the answer is read as this response.
pub open spec fn answers(effect: EffectView, id: Seq<char>, response: ResponseView) -> bool {
    &&& effect matches EffectView::Respond { request_id, data }
    &&& request_id == id
    &&& valid_utf8(data)
    &&& reads_as_response(decode_utf8(data), response)
}

/// Whether a turn that has just asked to write a request goes on as it should. If nothing else
/// waits it ends well; else it sends itself the word `null` first. If the host fails, it ends in
/// one of these failures.
pub open spec fn goes_on_after_write(
    turn: TurnView,
    actor: Seq<char>,
    others_wait: bool,
    success: OutcomeView,
    message: Seq<char>,
    write_failure: OutcomeView,
    send_failure: OutcomeView,
) -> bool {
    &&& turn.resume(Err(message)) == StepView::Finish(write_failure)
    &&& if others_wait {
        &&& turn.resume(Ok(())) matches StepView::Perform { effect, turn: next }
        &&& sends_null(effect, actor)
        &&& next.resume(Ok(())) == StepView::Finish(success)
        &&& next.resume(Err(message)) == StepView::Finish(send_failure)
    } else {
        turn.resume(Ok(())) == StepView::Finish(success)
    }
}

proof fn reminder_reads_back()
    ensures
        valid_utf8(reminder_bytes()),
        decode_utf8(reminder_bytes()) == "null"@,
        is_null_json(reminder_bytes()),
{
    bytes_read_back("null"@);
    reminder_is_known();
}

/// A write goes to the process of the server, as a line that is read as the text.
pub proof fn write_reaches_the_server(state: StateView, text: Seq<char>)
    requires
        state.server_pid is Some,
    ensures
        state.write(text) matches EffectView::WriteStdin { pid, data } && Some(pid)
            == state.server_pid && read_line(data) == Some(text),
{
    line_reads_back(text);
}

/// Once the connection is open, a request for the list of tools is written to the server; what
/// waited before waits on, and the state is as it was.
pub proof fn open_list(
    stored: Seq<u8>,
    state: StateView,
    request_id: Seq<char>,
    message: Seq<char>,
)
    requires
        stored.len() > 0,
        state.server_initialized,
        state.server_pid is Some,
    ensures
        request_step(Some(stored), Ok(state), request_id, Some(ActorRequestView::ToolsList)) matches
        StepView::Perform { effect, turn } && writes_request(
            effect,
            state.server_pid,
            request_id,
            "tools/list"@,
            None,
        ) && goes_on_after_write(
            turn,
            state.id,
            state.unsent.len() > 0,
            OutcomeView::Answered { state, reply: None },
            message,
            OutcomeView::Failed("Failed to write to stdin: "@ + message),
            OutcomeView::Failed("Failed to send message: "@ + message),
        ),
{
    let request = ActorRequestView::ToolsList.translated(request_id);
    request_reads_back(request);
    line_reads_back(request.text());
    reminder_reads_back();
    assert(state.queued(request).unsent.drop_last() =~= state.unsent);
    assert(state.queued(request).popped() == state);
}

/// Whether an effect writes one line to this process that is read as a tool call: a request with
/// this id for this tool with these arguments.
pub open spec fn writes_tool_call(
    effect: EffectView,
    process: Option<u64>,
    id: Seq<char>,
    name: Seq<char>,
    args: Seq<char>,
) -> bool {
    exists|params: Seq<char>| #[trigger]
        reads_as_tool_call(params, name, args) && writes_request(
            effect,
            process,
            id,
            "tools/call"@,
            Some(params),
        )
}

/// Once the connection is open, a tool call is written to the server, with the tool and the
/// arguments that were given; what waited before waits on, and the state is as it was.
pub proof fn open_call(
    stored: Seq<u8>,
    state: StateView,
    request_id: Seq<char>,
    name: Seq<char>,
    args: Seq<char>,
    message: Seq<char>,
)
    requires
        stored.len() > 0,
        state.server_initialized,
        state.server_pid is Some,
        is_value_text(args),
    ensures
        request_step(
            Some(stored),
            Ok(state),
            request_id,
            Some(ActorRequestView::ToolsCall { name, args }),
        ) matches StepView::Perform { effect, turn } && writes_tool_call(
            effect,
            state.server_pid,
            request_id,
            name,
            args,
        ) && goes_on_after_write(
            turn,
            state.id,
            state.unsent.len() > 0,
            OutcomeView::Answered { state, reply: None },
            message,
            OutcomeView::Failed("Failed to write to stdin: "@ + message),
            OutcomeView::Failed("Failed to send message: "@ + message),
        ),
{
    tool_call_reads_back(name, args);
    let asked = ActorRequestView::ToolsCall { name, args };
    let request = asked.translated(request_id);
    request_reads_back(request);
    line_reads_back(request.text());
    reminder_reads_back();
    assert(state.queued(request).unsent.drop_last() =~= state.unsent);
    assert(state.queued(request).popped() == state);
    assert(reads_as_tool_call(request.params->0, name, args));
}

/// Before the connection is open, a request for the list of tools waits: the list of waiting
/// requests is one longer, every request that waited stands where it stood, the new one stands
/// behind them, and nothing else in the state is changed.
pub proof fn early_list(stored: Seq<u8>, state: StateView, request_id: Seq<char>)
    requires
        stored.len() > 0,
        !state.server_initialized,
    ensures
        request_step(Some(stored), Ok(state), request_id, Some(ActorRequestView::ToolsList)) matches
        StepView::Finish(OutcomeView::Answered { state: next, reply }) && {
            &&& reply is None
            &&& next.unsent.len() == state.unsent.len() + 1
            &&& forall|i: int|
                0 <= i < state.unsent.len() ==> #[trigger] next.unsent[i] == state.unsent[i]
            &&& next.unsent[state.unsent.len() as int].jsonrpc == "2.0"@
            &&& next.unsent[state.unsent.len() as int].id == request_id
            &&& next.unsent[state.unsent.len() as int].method == "tools/list"@
            &&& next.unsent[state.unsent.len() as int].params is None
            &&& next.id == state.id
            &&& next.server_pid == state.server_pid
            &&& next.server_initialized == state.server_initialized
            &&& next.pending == state.pending
            &&& next.capabilities == state.capabilities
        },
{
}

/// A request that cannot be read fails, whatever the state holds.
pub proof fn unknown_request(stored: Seq<u8>, state: StateView, request_id: Seq<char>)
    requires
        stored.len() > 0,
    ensures
        request_step(Some(stored), Ok(state), request_id, None) == StepView::Finish(
            OutcomeView::Failed("Unknown request format"@),
        ),
{
}

/// A message other than the word `null` fails, whatever the state holds.
pub proof fn unknown_message(stored: Seq<u8>, state: StateView, data: Seq<u8>)
    requires
        stored.len() > 0,
        !is_null_json(data),
    ensures
        message_step(Some(stored), Ok(state), data) == StepView::Finish(
            OutcomeView::Failed("Unknown request format"@),
        ),
{
}

/// The word `null` changes nothing where no request waits.
pub proof fn idle_message(stored: Seq<u8>, state: StateView, data: Seq<u8>)
    requires
        stored.len() > 0,
        is_null_json(data),
        state.unsent.len() == 0,
    ensures
        message_step(Some(stored), Ok(state), data) == StepView::Finish(
            OutcomeView::Updated(state),
        ),
{
}

/// The state without its last waiting request, and with every other thing as it is.
pub open spec fn lost_only_the_last(before: StateView, after: StateView) -> bool {
    &&& after.unsent.len() == before.unsent.len() - 1
    &&& forall|i: int| 0 <= i < after.unsent.len() ==> #[trigger] after.unsent[i] == before.unsent[i]
    &&& after.id == before.id
    &&& after.server_pid == before.server_pid
    &&& after.server_initialized == before.server_initialized
    &&& after.pending == before.pending
    &&& after.capabilities == before.capabilities
}

/// The word `null` makes the actor write the last waiting request to the server, and leaves the
/// others waiting; if there are others, the actor sends itself the word again.
pub proof fn busy_message(
    stored: Seq<u8>,
    state: StateView,
    data: Seq<u8>,
    message: Seq<char>,
) -> (next: StateView)
    requires
        stored.len() > 0,
        is_null_json(data),
        state.unsent.len() > 0,
        state.server_pid is Some,
        is_optional_value(state.unsent[state.unsent.len() - 1].params),
    ensures
        lost_only_the_last(state, next),
        message_step(Some(stored), Ok(state), data) matches StepView::Perform { effect, turn }
            && writes_waiting(effect, state.server_pid, state.unsent[state.unsent.len() - 1])
            && goes_on_after_write(
            turn,
            state.id,
            state.unsent.len() > 1,
            OutcomeView::Updated(next),
            message,
            OutcomeView::Failed("Failed to send next unsent request"@),
            OutcomeView::Failed("Failed to send next unsent request"@),
        ),
{
    request_reads_back(state.unsent.last());
    line_reads_back(state.unsent.last().text());
    reminder_reads_back();
    state.popped()
}

/// The response that opens the connection, where the server reports no error, makes the actor
/// notify the server, and then write the last waiting request to it, if any waits, and send itself
/// the word `null` if others wait. The stored bytes come back as they are.
pub proof fn opening(
    stored: Seq<u8>,
    state: StateView,
    response: ResponseView,
    message: Seq<char>,
)
    requires
        stored.len() > 0,
        state.server_pid is Some,
        response.id == "initialize"@,
        response.error is None,
        state.unsent.len() > 0 ==> is_optional_value(state.unsent[state.unsent.len() - 1].params),
    ensures
        stdout_step(Some(stored), Ok(state), Some(response)) matches StepView::Perform {
            effect,
            turn,
        } && {
            &&& writes_notification(effect, state.server_pid)
            &&& turn.state.server_initialized
            &&& turn.resume(Err(message)) == StepView::Finish(
                OutcomeView::Failed("Failed to send notification: "@ + message),
            )
            &&& if state.unsent.len() == 0 {
                turn.resume(Ok(())) == StepView::Finish(OutcomeView::Unchanged(Some(stored)))
            } else {
                turn.resume(Ok(())) matches StepView::Perform { effect: write, turn: next }
                    && writes_waiting(
                    write,
                    state.server_pid,
                    state.unsent[state.unsent.len() - 1],
                ) && goes_on_after_write(
                    next,
                    state.id,
                    state.unsent.len() > 1,
                    OutcomeView::Unchanged(Some(stored)),
                    message,
                    OutcomeView::Failed("Failed to write to stdin: "@ + message),
                    OutcomeView::Failed("Failed to send message: "@ + message),
                )
            }
        },
{
    notification_reads_back();
    line_reads_back(initialized_notification_text());
    reminder_reads_back();
    if state.unsent.len() > 0 {
        request_reads_back(state.unsent.last());
        line_reads_back(state.unsent.last().text());
    }
}

/// A response with any other id is handed, whole, to whoever waits under that id, and the stored
/// bytes come back as they are.
pub proof fn relay(stored: Seq<u8>, state: StateView, response: ResponseView, message: Seq<char>)
    requires
        stored.len() > 0,
        response.id != "initialize"@,
        is_valid_response(response),
    ensures
        stdout_step(Some(stored), Ok(state), Some(response)) matches StepView::Perform {
            effect,
            turn,
        } && {
            &&& answers(effect, response.id, response)
            &&& turn.resume(Ok(())) == StepView::Finish(OutcomeView::Unchanged(Some(stored)))
            &&& turn.resume(Err(message)) == StepView::Finish(
                OutcomeView::Failed("Failed to respond to request: "@ + message),
            )
        },
{
    response_reads_back(response);
    bytes_read_back(response.text());
}

/// Where the server refuses the connection, nothing is asked of the host and the stored bytes come
/// back as they are.
pub proof fn refused_opening(stored: Seq<u8>, state: StateView, response: ResponseView)
    requires
        stored.len() > 0,
        response.id == "initialize"@,
        response.error is Some,
    ensures
        stdout_step(Some(stored), Ok(state), Some(response)) == StepView::Finish(
            OutcomeView::Unchanged(Some(stored)),
        ),
{
}

/// Output that is no response asks nothing of the host and leaves the state as it is.
pub proof fn other_output(stored: Seq<u8>, state: StateView)
    requires
        stored.len() > 0,
    ensures
        stdout_step(Some(stored), Ok(state), None) == StepView::Finish(OutcomeView::Updated(state)),
{
}

/// Whether a message reports that the process with this number ended with this exit code.
pub open spec fn reports_crash(message: Seq<char>, pid: u64, exit_code: i32) -> bool {
    exists|p: Seq<char>, c: Seq<char>|
        #![trigger is_number_text(p, pid as int), is_number_text(c, exit_code as int)]
        {
            &&& message == "MCP server process "@ + p
                + " terminated unexpectedly with exit code "@ + c
            &&& is_number_text(p, pid as int)
            &&& is_number_text(c, exit_code as int)
        }
}

/// The end of a process fails the actor if and only if it was the server that ended, with an exit
/// code other than zero, whatever else the state holds. In all other cases the stored bytes come
/// back as they are.
pub proof fn exits(stored: Option<Seq<u8>>, state: StateView, pid: u64, exit_code: i32)
    ensures
        exit_outcome(stored, Ok(state), pid, exit_code) is Failed <==> (state.server_pid == Some(pid)
            && exit_code != 0),
        exit_outcome(stored, Ok(state), pid, exit_code) matches OutcomeView::Failed(message)
            ==> reports_crash(message, pid, exit_code),
        !(state.server_pid == Some(pid) && exit_code != 0) ==> exit_outcome(
            stored,
            Ok(state),
            pid,
            exit_code,
        ) == OutcomeView::Unchanged(stored),
{
    let p = decimal(pid as nat);
    let c = signed_decimal(exit_code as int);
    number_reads_back(pid as int);
    number_reads_back(exit_code as int);
    assert(is_number_text(p, pid as int) && is_number_text(c, exit_code as int));
}

/// Where the state cannot be read, the end of a process fails the actor, and says why.
pub proof fn exit_with_unreadable_state(
    stored: Option<Seq<u8>>,
    error: Seq<char>,
    pid: u64,
    exit_code: i32,
)
    ensures
        exit_outcome(stored, Err(error), pid, exit_code) == OutcomeView::Failed(
            "Failed to deserialize state: "@ + error,
        ),
{
}

/// What a turn asks of a host that gives these replies.
pub open spec fn effects_with(step: StepView, replies: Seq<Result<(), Seq<char>>>) -> Seq<EffectView>
    decreases replies.len(),
{
    match step {
        StepView::Finish(_) => seq![],
        StepView::Perform { effect, turn } => if replies.len() == 0 {
            seq![effect]
        } else {
            seq![effect] + effects_with(turn.resume(replies[0]), replies.drop_first())
        },
    }
}

/// Whether all that is written goes to this process.
pub open spec fn writes_only_to(effects: Seq<EffectView>, process: Option<u64>) -> bool {
    forall|i: int|
        0 <= i < effects.len() ==> (#[trigger] effects[i] matches EffectView::WriteStdin { pid, .. }
            ==> process == Some(pid))
}

/// Whether all that is sent to an actor is sent to this one.
pub open spec fn sends_only_to(effects: Seq<EffectView>, actor: Seq<char>) -> bool {
    forall|i: int|
        0 <= i < effects.len() ==> (#[trigger] effects[i] matches EffectView::Send { actor_id, .. }
            ==> actor_id == actor)
}

proof fn resumed_turn_keeps_to_its_server(turn: TurnView, replies: Seq<Result<(), Seq<char>>>)
    requires
        turn.state.server_pid is Some,
    ensures
        forall|reply: Result<(), Seq<char>>|
            writes_only_to(
                #[trigger] effects_with(turn.resume(reply), replies),
                turn.state.server_pid,
            ) && sends_only_to(effects_with(turn.resume(reply), replies), turn.state.id),
    decreases replies.len(),
{
    assert forall|reply: Result<(), Seq<char>>|
        writes_only_to(
            #[trigger] effects_with(turn.resume(reply), replies),
            turn.state.server_pid,
        ) && sends_only_to(effects_with(turn.resume(reply), replies), turn.state.id) by {
        let step = turn.resume(reply);
        if step is Perform && replies.len() > 0 {
            let next = step->turn;
            assert(next.state.server_pid == turn.state.server_pid && next.state.id
                == turn.state.id);
            resumed_turn_keeps_to_its_server(next, replies.drop_first());
            let rest = effects_with(next.resume(replies[0]), replies.drop_first());
            let all = effects_with(step, replies);
            assert(all =~= seq![step->effect] + rest);
            assert forall|i: int| 1 <= i < all.len() implies #[trigger] all[i] == rest[i - 1] by {}
        }
    }
}

proof fn step_keeps_to_its_server(
    step: StepView,
    state: StateView,
    replies: Seq<Result<(), Seq<char>>>,
)
    requires
        state.server_pid is Some,
        step matches StepView::Perform { effect, turn } ==> {
            &&& effect matches EffectView::WriteStdin { pid, .. } ==> Some(pid) == state.server_pid
            &&& effect matches EffectView::Send { actor_id, .. } ==> actor_id == state.id
            &&& turn.state.server_pid == state.server_pid
            &&& turn.state.id == state.id
        },
    ensures
        writes_only_to(effects_with(step, replies), state.server_pid),
        sends_only_to(effects_with(step, replies), state.id),
{
    if step is Perform && replies.len() > 0 {
        let turn = step->turn;
        resumed_turn_keeps_to_its_server(turn, replies.drop_first());
        let rest = effects_with(turn.resume(replies[0]), replies.drop_first());
        let all = effects_with(step, replies);
        assert(all =~= seq![step->effect] + rest);
        assert forall|i: int| 1 <= i < all.len() implies #[trigger] all[i] == rest[i - 1] by {}
    }
}

/// Whatever comes in and whatever the host replies, everything that a turn writes goes to the
/// process of the server, and every message that it sends goes to the actor itself.
pub proof fn turns_keep_to_their_server(
    stored: Option<Seq<u8>>,
    state: StateView,
    request_id: Seq<char>,
    asked: Option<ActorRequestView>,
    data: Seq<u8>,
    response: Option<ResponseView>,
    replies: Seq<Result<(), Seq<char>>>,
)
    requires
        state.server_pid is Some,
    ensures
        ({
            let effects = effects_with(request_step(stored, Ok(state), request_id, asked), replies);
            writes_only_to(effects, state.server_pid) && sends_only_to(effects, state.id)
        }),
        ({
            let effects = effects_with(message_step(stored, Ok(state), data), replies);
            writes_only_to(effects, state.server_pid) && sends_only_to(effects, state.id)
        }),
        ({
            let effects = effects_with(stdout_step(stored, Ok(state), response), replies);
            writes_only_to(effects, state.server_pid) && sends_only_to(effects, state.id)
        }),
{
    step_keeps_to_its_server(request_step(stored, Ok(state), request_id, asked), state, replies);
    step_keeps_to_its_server(message_step(stored, Ok(state), data), state, replies);
    step_keeps_to_its_server(stdout_step(stored, Ok(state), response), state, replies);
}

/// Without a stored state, or with an empty one, messages and requests fail and output of the
/// server comes to nothing.
pub proof fn no_state(
    stored: Option<Seq<u8>>,
    parsed: Result<StateView, Seq<char>>,
    data: Seq<u8>,
    request_id: Seq<char>,
    asked: Option<ActorRequestView>,
    response: Option<ResponseView>,
)
    requires
        stored matches Some(bytes) ==> bytes.len() == 0,
    ensures
        message_step(stored, parsed, data) == StepView::Finish(
            OutcomeView::Failed("Invalid state"@),
        ),
        request_step(stored, parsed, request_id, asked) == StepView::Finish(
            OutcomeView::Failed("Invalid state"@),
        ),
        stdout_step(stored, parsed, response) == StepView::Finish(OutcomeView::Unchanged(None)),
{
}

/// How a turn that went well is to end: output of the server leaves the stored bytes as they
/// are, a message leaves the state of the turn, and so does a request, with no answer yet.
pub open spec fn is_good_end(outcome: OutcomeView, turn: TurnView) -> bool {
    match turn.origin {
        OriginView::Stdout(stored) => outcome == OutcomeView::Unchanged(Some(stored)),
        OriginView::Message => outcome == OutcomeView::Updated(turn.state),
        OriginView::Request => outcome == OutcomeView::Answered { state: turn.state, reply: None },
    }
}

/// How any turn goes on, whatever it does and whatever started it.
pub proof fn resumed(turn: TurnView, message: Seq<char>)
    ensures
        turn.phase == Phase::Reminding || turn.phase == Phase::Responding || (turn.phase
            == Phase::Writing && turn.state.unsent.len() == 0) || (turn.phase == Phase::Notifying
            && turn.state.unsent.len() == 0) ==> (turn.resume(Ok(())) matches StepView::Finish(
            outcome,
        ) && is_good_end(outcome, turn)),
        turn.phase == Phase::Writing && turn.state.unsent.len() > 0 ==> (turn.resume(
            Ok(()),
        ) matches StepView::Perform { effect, turn: next } && sends_null(effect, turn.state.id)
            && next.phase == Phase::Reminding && next.origin == turn.origin && next.state
            == turn.state),
        turn.phase == Phase::Notifying && turn.state.unsent.len() > 0 && turn.state.server_pid is Some
            && is_optional_value(turn.state.unsent[turn.state.unsent.len() - 1].params) ==> (
        turn.resume(Ok(())) matches StepView::Perform { effect, turn: next } && writes_waiting(
            effect,
            turn.state.server_pid,
            turn.state.unsent[turn.state.unsent.len() - 1],
        ) && next.phase == Phase::Writing && next.origin == turn.origin && lost_only_the_last(
            turn.state,
            next.state,
        )),
        turn.phase == Phase::Notifying ==> turn.resume(Err(message)) == StepView::Finish(
            OutcomeView::Failed("Failed to send notification: "@ + message),
        ),
        turn.phase == Phase::Responding ==> turn.resume(Err(message)) == StepView::Finish(
            OutcomeView::Failed("Failed to respond to request: "@ + message),
        ),
        (turn.phase == Phase::Writing || turn.phase == Phase::Reminding) && turn.origin is Message
            ==> turn.resume(Err(message)) == StepView::Finish(
            OutcomeView::Failed("Failed to send next unsent request"@),
        ),
        turn.phase == Phase::Writing && !(turn.origin is Message) ==> turn.resume(Err(message))
            == StepView::Finish(OutcomeView::Failed("Failed to write to stdin: "@ + message)),
        turn.phase == Phase::Reminding && !(turn.origin is Message) ==> turn.resume(Err(message))
            == StepView::Finish(OutcomeView::Failed("Failed to send message: "@ + message)),
{
    reminder_reads_back();
    if turn.state.unsent.len() > 0 && is_optional_value(turn.state.unsent.last().params) {
        request_reads_back(turn.state.unsent.last());
        line_reads_back(turn.state.unsent.last().text());
    }
}

/// A request whose parameters hold no line feed stands on one line: among its bytes the line feed
/// is the last, and no other.
pub proof fn requests_stand_on_one_line(request: RequestView)
    requires
        request.params matches Some(params) ==> forall|i: int|
            0 <= i < params.len() ==> #[trigger] params[i] != '\n',
    ensures
        ({
            let bytes = line_bytes(request.text());
            &&& bytes.len() > 0
            &&& forall|i: int|
                0 <= i < bytes.len() ==> (#[trigger] bytes[i] == 10 <==> i == bytes.len() - 1)
        }),
{
    quoted_is_one_line(request.jsonrpc);
    quoted_is_one_line(request.id);
    quoted_is_one_line(request.method);
    let entries = seq![
        ("jsonrpc"@, quoted(request.jsonrpc)),
        ("id"@, quoted(request.id)),
        ("method"@, quoted(request.method)),
    ] + optional_entry("params"@, request.params);
    object_is_one_line(entries);
    line_bytes_are_one_line(request.text());
}

/// The state of an actor whose server has just been started: it knows itself and the server, the
/// connection is not open, and nothing waits.
pub proof fn started_state(id: Seq<char>, pid: u64)
    ensures
        ({
            let state = StateView::started(id, pid);
            &&& state.id == id
            &&& state.server_pid == Some(pid)
            &&& !state.server_initialized
            &&& state.unsent.len() == 0
            &&& state.pending.dom() =~= Set::empty()
            &&& state.capabilities is None
        }),
{
}

/// What the actor writes first goes to the server that was started, and is read as the request
/// that opens the connection.
pub proof fn first_write(id: Seq<char>, pid: u64)
    ensures
        StateView::started(id, pid).write(initialize_request().text()) matches
        EffectView::WriteStdin { pid: process, data } && {
            &&& process == pid
            &&& read_line(data) matches Some(text)
            &&& string_member(text, "jsonrpc"@) == Some("2.0"@)
            &&& string_member(text, "id"@) == Some("initialize"@)
            &&& string_member(text, "method"@) == Some("initialize"@)
            &&& member(text, "params"@) matches Some(params)
            &&& reads_as_opening(params)
            &&& has_keys(text, seq!["jsonrpc"@, "id"@, "method"@, "params"@])
        },
{
    opening_reads_back();
    request_reads_back(initialize_request());
    line_reads_back(initialize_request().text());
}

/// The server is started with the command and all the arguments that were given, and with nothing
/// else.
pub proof fn server_as_wanted(config: ProcessConfig, server: InitState)
    requires
        config.starts(server),
    ensures
        config.program@ == server.command@,
        config.args@.len() == server.args@.len(),
        forall|i: int| 0 <= i < server.args@.len() ==> #[trigger] config.args@[i] == server.args@[i],
        config.env@.len() == 0,
        config.cwd is None,
        config.buffer_size == 1073741824,
        config.chunk_size is None,
        config.stdout_mode == OutputMode::Raw,
        config.stderr_mode == OutputMode::Raw,
{
}

/// How the sending of one request goes on: the failure of the host is passed on with its message;
/// if others wait, the actor sends itself the word `null`.
pub proof fn delivery_goes_on(state: StateView, message: Seq<char>)
    ensures
        state.after_write(Err(message)) == DeliveryView::Done(
            Err("Failed to write to stdin: "@ + message),
        ),
        state.unsent.len() == 0 ==> state.after_write(Ok(())) == DeliveryView::Done(Ok(())),
        state.unsent.len() > 0 ==> (state.after_write(Ok(())) matches DeliveryView::Perform(effect)
            && sends_null(effect, state.id)),
        after_reminder(Err(message)) == Err::<(), Seq<char>>(
            "Failed to send message: "@ + message,
        ),
        after_reminder(Ok(())) == Ok::<(), Seq<char>>(()),
        state.unsent.len() == 0 ==> state.delivery() == DeliveryView::Done(Ok(())),
        state.unsent.len() > 0 && state.server_pid is Some && is_optional_value(
            state.unsent[state.unsent.len() - 1].params,
        ) ==> (state.delivery() matches DeliveryView::Perform(effect) && writes_waiting(
            effect,
            state.server_pid,
            state.unsent[state.unsent.len() - 1],
        )),
        state.unsent.len() > 0 ==> lost_only_the_last(state, state.popped()),
{
    reminder_reads_back();
    if state.unsent.len() > 0 && is_optional_value(state.unsent.last().params) {
        request_reads_back(state.unsent.last());
        line_reads_back(state.unsent.last().text());
    }
}

/// What is made of a state shows all of it.
pub proof fn state_view_is_whole(state: AppState)
    ensures
        state@.id == state.id@,
        state@.server_pid == state.server_pid,
        state@.server_initialized == state.server_initialized,
        state@.unsent.len() == state.unsent_requests@.len(),
        forall|i: int|
            0 <= i < state.unsent_requests@.len() ==> #[trigger] state@.unsent[i]
                == state.unsent_requests@[i]@,
        state@.pending == state.pending_requests@,
        state@.capabilities is Some <==> state.server_capabilities is Some,
        state.server_capabilities is Some ==> state@.capabilities->0 == value_text(
            state.server_capabilities->0,
        ),
{
}

/// What is made of a request of another actor shows all of it.
pub proof fn actor_request_view_is_whole(asked: McpActorRequest)
    ensures
        asked@ is ToolsList <==> asked is ToolsList,
        asked matches McpActorRequest::ToolsCall { name, args } ==> asked@
            == (ActorRequestView::ToolsCall { name: name@, args: value_text(args) }),
{
}

/// What is made of an effect shows all of it.
pub proof fn effect_view_is_whole(effect: Effect)
    ensures
        effect matches Effect::WriteStdin { pid, data } ==> effect@ == (EffectView::WriteStdin {
            pid,
            data: data@,
        }),
        effect matches Effect::Send { actor_id, data } ==> effect@ == (EffectView::Send {
            actor_id: actor_id@,
            data: data@,
        }),
        effect matches Effect::Respond { request_id, data } ==> effect@ == (EffectView::Respond {
            request_id: request_id@,
            data: data@,
        }),
{
}

/// What is made of an outcome shows all of it.
pub proof fn outcome_view_is_whole(outcome: Outcome)
    ensures
        outcome matches Outcome::Unchanged(Some(bytes)) ==> outcome@ == OutcomeView::Unchanged(
            Some(bytes@),
        ),
        outcome matches Outcome::Unchanged(None) ==> outcome@ == OutcomeView::Unchanged(None),
        outcome matches Outcome::Updated(state) ==> outcome@ == OutcomeView::Updated(state@),
        outcome matches Outcome::Answered { state, reply } ==> {
            &&& outcome@ matches OutcomeView::Answered { state: shown, reply: shown_reply }
            &&& shown == state@
            &&& shown_reply is Some <==> reply is Some
            &&& reply is Some ==> shown_reply->0 == reply->0@
        },
        outcome matches Outcome::Failed(message) ==> outcome@ == OutcomeView::Failed(message@),
{
}

/// What is made of a step and of the turn in it shows all of them.
pub proof fn step_view_is_whole(step: Step)
    ensures
        step matches Step::Finish(outcome) ==> step@ == StepView::Finish(outcome@),
        step matches Step::Perform { effect, turn } ==> {
            &&& step@ matches StepView::Perform { effect: shown, turn: shown_turn }
            &&& shown == effect@
            &&& shown_turn.phase == turn.phase
            &&& shown_turn.origin == turn.origin@
            &&& shown_turn.state == turn.state@
        },
{
}

/// What is made of the origin of a turn shows all of it.
pub proof fn origin_view_is_whole(origin: Origin)
    ensures
        origin matches Origin::Stdout(stored) ==> origin@ == OriginView::Stdout(stored@),
        origin is Message ==> origin@ is Message,
        origin is Request ==> origin@ is Request,
{
}

/// What is made of replies, of what was read and of bytes shows all of them.
pub proof fn input_views_are_whole(
    reply: Result<(), String>,
    parsed: Result<AppState, String>,
    bytes: Option<Vec<u8>>,
)
    ensures
        reply is Ok ==> reply_view(reply) is Ok,
        reply is Err ==> reply_view(reply) == Err::<(), Seq<char>>(reply->Err_0@),
        parsed is Ok ==> parsed_view(parsed) == Ok::<StateView, Seq<char>>(parsed->Ok_0@),
        parsed is Err ==> parsed_view(parsed) == Err::<StateView, Seq<char>>(parsed->Err_0@),
        bytes is Some ==> optional_bytes(bytes) == Some(bytes->0@),
        bytes is None ==> optional_bytes(bytes) is None,
{
}

/// What is made of a delivery shows all of it.
pub proof fn delivery_view_is_whole(delivery: Delivery)
    ensures
        delivery matches Delivery::Perform(effect) ==> delivery@ == DeliveryView::Perform(effect@),
        delivery matches Delivery::Done(Ok(_)) ==> delivery@ == DeliveryView::Done(Ok(())),
        delivery matches Delivery::Done(Err(message)) ==> delivery@ == DeliveryView::Done(
            Err(message@),
        ),
{
}

} // verus!
