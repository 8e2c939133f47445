//! What holds of the turns of the actor as a whole.

use crate::actor::{
    exit_outcome, initialize_request, is_stored, message_step, opens_connection, request_step,
    stdout_step, ActorRequestView,
};
use crate::json::{is_null_json, skip_blank};
use crate::message::{initialized_notification_text, ResponseView};
use crate::state::{reminder_bytes, EffectView, StateView};
use crate::turn::{OutcomeView, Phase, StepView, TurnView};
use vstd::prelude::*;
use vstd::utf8::encode_utf8;

verus! {

/// How many effects may be left, at most, while the host does something.
pub open spec fn effects_left(step: StepView) -> nat {
    match step {
        StepView::Finish(_) => 0,
        StepView::Perform { turn, .. } => match turn.phase {
            Phase::Notifying => 3,
            Phase::Writing => 2,
            Phase::Reminding => 1,
            Phase::Responding => 1,
        },
    }
}

/// What a turn asks of a host that does all of it.
pub open spec fn performed(step: StepView) -> Seq<EffectView>
    decreases effects_left(step),
{
    match step {
        StepView::Finish(_) => seq![],
        StepView::Perform { effect, turn } => seq![effect] + performed(turn.resume(Ok(()))),
    }
}

/// How a turn ends with a host that does all that it asks.
pub open spec fn ending(step: StepView) -> OutcomeView
    decreases effects_left(step),
{
    match step {
        StepView::Finish(outcome) => outcome,
        StepView::Perform { turn, .. } => ending(turn.resume(Ok(()))),
    }
}

/// How a turn ends with a host that gives these replies, if it gives enough.
pub open spec fn ending_with(step: StepView, replies: Seq<Result<(), Seq<char>>>) -> Option<
    OutcomeView,
>
    decreases replies.len(),
{
    match step {
        StepView::Finish(outcome) => Some(outcome),
        StepView::Perform { turn, .. } => if replies.len() == 0 {
            None
        } else {
            ending_with(turn.resume(replies[0]), replies.drop_first())
        },
    }
}

/// Whatever the host replies, a turn that goes on comes nearer to its end.
pub proof fn turns_end(effect: EffectView, turn: TurnView, reply: Result<(), Seq<char>>)
    ensures
        effects_left(turn.resume(reply)) < effects_left(StepView::Perform { effect, turn }),
        effects_left(StepView::Perform { effect, turn }) <= 3,
{
}

/// An effect that the host could not do ends the turn, and the turn fails.
pub proof fn refusal_ends_the_turn(turn: TurnView, message: Seq<char>)
    ensures
        turn.resume(Err(message)) matches StepView::Finish(outcome) && outcome is Failed,
{
}

/// Without a stored state no handler asks anything of the host: messages and requests are
/// refused, and output of the server is passed over.
pub proof fn nothing_happens_without_state(
    stored: Option<Seq<u8>>,
    parsed: Result<StateView, Seq<char>>,
    message: Seq<u8>,
    request_id: Seq<char>,
    asked: Option<ActorRequestView>,
    response: Option<ResponseView>,
)
    requires
        !is_stored(stored),
    ensures
        message_step(stored, parsed, message) == StepView::Finish(
            OutcomeView::Failed("Invalid state"@),
        ),
        request_step(stored, parsed, request_id, asked) == StepView::Finish(
            OutcomeView::Failed("Invalid state"@),
        ),
        stdout_step(stored, parsed, response) == StepView::Finish(OutcomeView::Unchanged(None)),
{
}

/// With a stored state that cannot be read every handler fails, with the same message, and asks
/// nothing of the host.
pub proof fn unreadable_state_fails(
    stored: Seq<u8>,
    error: Seq<char>,
    message: Seq<u8>,
    request_id: Seq<char>,
    asked: Option<ActorRequestView>,
    response: Option<ResponseView>,
    pid: u64,
    exit_code: i32,
)
    requires
        stored.len() > 0,
    ensures
        ({
            let failed = OutcomeView::Failed("Failed to deserialize state: "@ + error);
            &&& message_step(Some(stored), Err(error), message) == StepView::Finish(failed)
            &&& request_step(Some(stored), Err(error), request_id, asked) == StepView::Finish(failed)
            &&& stdout_step(Some(stored), Err(error), response) == StepView::Finish(failed)
            &&& exit_outcome(Some(stored), Err(error), pid, exit_code) == failed
        }),
{
}

/// Once the connection is open, a request of another actor is written to the server at
/// once, translated, with the id under which it came; requests that waited before it
/// wait on, and the actor reminds itself of them.
pub proof fn request_reaches_server(
    stored: Seq<u8>,
    state: StateView,
    request_id: Seq<char>,
    asked: ActorRequestView,
)
    requires
        stored.len() > 0,
        state.server_initialized,
    ensures
        ({
            let step = request_step(Some(stored), Ok(state), request_id, Some(asked));
            &&& performed(step) == seq![state.write(asked.translated(request_id).text())] + (
            if state.unsent.len() > 0 {
                seq![state.reminder()]
            } else {
                seq![]
            })
            &&& ending(step) == OutcomeView::Answered { state, reply: None }
        }),
{
    reveal_with_fuel(performed, 3);
    reveal_with_fuel(ending, 3);
    let request = asked.translated(request_id);
    assert(state.queued(request).unsent.drop_last() =~= state.unsent);
    assert(state.queued(request).popped() == state);
}

/// Before the connection is open, asking for the list of tools asks nothing of the host:
/// the request waits, as the next one to be sent.
pub proof fn early_list_waits(stored: Seq<u8>, state: StateView, request_id: Seq<char>)
    requires
        stored.len() > 0,
        !state.server_initialized,
    ensures
        ({
            let asked = ActorRequestView::ToolsList;
            request_step(Some(stored), Ok(state), request_id, Some(asked)) == StepView::Finish(
                OutcomeView::Answered {
                    state: state.queued(asked.translated(request_id)),
                    reply: None,
                },
            )
        }),
{
}

/// Before the connection is open, a tool call is refused and asks nothing of the host.
pub proof fn early_call_is_refused(
    stored: Seq<u8>,
    state: StateView,
    request_id: Seq<char>,
    name: Seq<char>,
    args: Seq<char>,
)
    requires
        stored.len() > 0,
        !state.server_initialized,
    ensures
        request_step(
            Some(stored),
            Ok(state),
            request_id,
            Some(ActorRequestView::ToolsCall { name, args }),
        ) == StepView::Finish(OutcomeView::Failed("MCP server not initialized"@)),
{
}

/// The answer to the request that opens the connection, unless it is an error, makes the
/// actor notify the server and then send the request that came last, if any waits; the
/// stored state stays as it is.
pub proof fn opening_sends_what_waits(stored: Seq<u8>, state: StateView, response: ResponseView)
    requires
        stored.len() > 0,
        response.id == initialize_request().id,
        response.error is None,
    ensures
        ({
            let step = stdout_step(Some(stored), Ok(state), Some(response));
            &&& performed(step) == seq![state.write(initialized_notification_text())] + (
            if state.unsent.len() > 0 {
                seq![state.write(state.unsent.last().text())]
            } else {
                seq![]
            }) + (if state.unsent.len() > 1 {
                seq![state.reminder()]
            } else {
                seq![]
            })
            &&& ending(step) == OutcomeView::Unchanged(Some(stored))
        }),
{
    reveal_with_fuel(performed, 4);
    reveal_with_fuel(ending, 4);
}

/// A request for the list of tools that had to wait is what the actor sends first, behind
/// the notification, when the connection opens on the state that holds it.
pub proof fn early_list_is_sent_on_opening(
    stored: Seq<u8>,
    state: StateView,
    request_id: Seq<char>,
    later: Seq<u8>,
    response: ResponseView,
)
    requires
        stored.len() > 0,
        !state.server_initialized,
        later.len() > 0,
        opens_connection(response),
    ensures
        ({
            let asked = ActorRequestView::ToolsList;
            let waiting = ending(request_step(Some(stored), Ok(state), request_id, Some(asked)));
            let effects = performed(
                stdout_step(Some(later), Ok(waiting->Answered_state), Some(response)),
            );
            &&& waiting is Answered
            &&& effects.len() >= 2
            &&& effects[1] == state.write(asked.translated(request_id).text())
        }),
{
    let asked = ActorRequestView::ToolsList;
    early_list_waits(stored, state, request_id);
    let queued = state.queued(asked.translated(request_id));
    opening_sends_what_waits(later, queued, response);
}

/// Any other response is handed to whoever waits under its id, and to nobody else; the
/// stored state stays as it is.
pub proof fn response_is_relayed(stored: Seq<u8>, state: StateView, response: ResponseView)
    requires
        stored.len() > 0,
        response.id != "initialize"@,
    ensures
        ({
            let step = stdout_step(Some(stored), Ok(state), Some(response));
            &&& performed(step) == seq![
                EffectView::Respond {
                    request_id: response.id,
                    data: encode_utf8(response.text()),
                },
            ]
            &&& ending(step) == OutcomeView::Unchanged(Some(stored))
        }),
{
    reveal_with_fuel(performed, 2);
    reveal_with_fuel(ending, 2);
}

/// A response that carries the id of a translated request is handed to the actor that made
/// it, unless that actor chose the id of the request that opens the connection.
pub proof fn answer_finds_its_request(
    stored: Seq<u8>,
    state: StateView,
    request_id: Seq<char>,
    asked: ActorRequestView,
    response: ResponseView,
)
    requires
        stored.len() > 0,
        response.id == asked.translated(request_id).id,
        request_id != "initialize"@,
    ensures
        performed(stdout_step(Some(stored), Ok(state), Some(response))) == seq![
            EffectView::Respond { request_id, data: encode_utf8(response.text()) },
        ],
{
    response_is_relayed(stored, state, response);
}

/// Whatever the host replies, a response of the server leaves the stored state as it is, or
/// the turn fails.
pub proof fn response_leaves_stored_state(
    stored: Seq<u8>,
    state: StateView,
    response: ResponseView,
    replies: Seq<Result<(), Seq<char>>>,
)
    requires
        stored.len() > 0,
    ensures
        ending_with(stdout_step(Some(stored), Ok(state), Some(response)), replies) matches Some(
            outcome,
        ) ==> outcome is Failed || outcome == OutcomeView::Unchanged(Some(stored)),
{
    reveal_with_fuel(ending_with, 4);
}

/// The actor knows its own reminder: what it sends itself is what it waits for.
pub proof fn reminder_is_known()
    ensures
        is_null_json(reminder_bytes()),
{
    reveal_strlit("null");
    let s = "null"@;
    assert(s =~= seq!['n', 'u', 'l', 'l']);
    assert(s.drop_first() =~= seq!['u', 'l', 'l']);
    assert(s.drop_first().drop_first() =~= seq!['l', 'l']);
    assert(s.drop_first().drop_first().drop_first() =~= seq!['l']);
    assert(s.drop_first().drop_first().drop_first().drop_first() =~= seq![]);
    reveal_with_fuel(encode_utf8, 5);
    assert(110u32 & 0x7F == 110 && 117u32 & 0x7F == 117 && 108u32 & 0x7F == 108) by (bit_vector);
    let bytes = reminder_bytes();
    assert(bytes =~= seq![110u8, 117u8, 108u8, 108u8]);
    assert(skip_blank(bytes) == bytes);
    assert(bytes.take(4) =~= bytes);
}

/// What an actor asks of a host that does all of it, and brings back each reminder and the
/// state as the turn before left it, from the first reminder on.
pub open spec fn drained(stored: Seq<u8>, state: StateView) -> Seq<EffectView>
    decreases state.unsent.len(),
{
    let step = message_step(Some(stored), Ok(state), reminder_bytes());
    match ending(step) {
        OutcomeView::Updated(next) => if next.unsent.len() < state.unsent.len() {
            performed(step) + drained(stored, next)
        } else {
            performed(step)
        },
        _ => performed(step),
    }
}

/// One reminder makes the actor write the request that came last, and remind itself again if
/// others wait; the state that it leaves is without that request.
pub proof fn reminder_sends_one(stored: Seq<u8>, state: StateView)
    requires
        stored.len() > 0,
        state.unsent.len() > 0,
    ensures
        ({
            let step = message_step(Some(stored), Ok(state), reminder_bytes());
            &&& performed(step) == seq![state.write(state.unsent.last().text())] + (
            if state.unsent.len() > 1 {
                seq![state.reminder()]
            } else {
                seq![]
            })
            &&& ending(step) == OutcomeView::Updated(state.popped())
        }),
{
    reminder_is_known();
    reveal_with_fuel(performed, 3);
    reveal_with_fuel(ending, 3);
}

/// A reminder that finds no request waiting asks nothing of the host and leaves the state as it
/// is.
pub proof fn reminder_without_requests(stored: Seq<u8>, state: StateView)
    requires
        stored.len() > 0,
        state.unsent.len() == 0,
    ensures
        message_step(Some(stored), Ok(state), reminder_bytes()) == StepView::Finish(
            OutcomeView::Updated(state),
        ),
        drained(stored, state) == Seq::<EffectView>::empty(),
{
    reminder_is_known();
}

/// Whatever the host replies, a message changes nothing in the state but the list of requests
/// that wait, from which at most the last is taken.
pub proof fn message_takes_at_most_one(
    stored: Option<Seq<u8>>,
    state: StateView,
    message: Seq<u8>,
    replies: Seq<Result<(), Seq<char>>>,
)
    ensures
        ending_with(message_step(stored, Ok(state), message), replies) matches Some(outcome)
            ==> outcome is Failed || outcome == OutcomeView::Updated(state) || (state.unsent.len()
            > 0 && outcome == OutcomeView::Updated(state.popped())),
{
    reveal_with_fuel(ending_with, 3);
}

/// Whatever the host replies, a request changes nothing in the state but the list of requests
/// that wait, to which at most the translated one is added.
pub proof fn request_adds_at_most_one(
    stored: Option<Seq<u8>>,
    state: StateView,
    request_id: Seq<char>,
    asked: Option<ActorRequestView>,
    replies: Seq<Result<(), Seq<char>>>,
)
    ensures
        ending_with(request_step(stored, Ok(state), request_id, asked), replies) matches Some(
            outcome,
        ) ==> outcome is Failed || outcome == (OutcomeView::Answered { state, reply: None }) || (
        asked is Some && outcome == OutcomeView::Answered {
            state: state.queued(asked->0.translated(request_id)),
            reply: None,
        }),
{
    reveal_with_fuel(ending_with, 3);
    if asked is Some {
        let queued = state.queued(asked->0.translated(request_id));
        assert(queued.popped().unsent =~= state.unsent);
        assert(queued.popped() == state);
    }
}

/// All requests that wait, each written once, the latest first, with a reminder between one
/// and the next.
pub open spec fn all_sent(state: StateView) -> Seq<EffectView> {
    let n = state.unsent.len();
    Seq::new(
        (2 * n - 1) as nat,
        |i: int|
            if i % 2 == 0 {
                state.write(state.unsent[n - 1 - i / 2].text())
            } else {
                state.reminder()
            },
    )
}

/// Where several requests wait, the latest is sent, and then the others.
proof fn all_sent_from_the_latest(state: StateView)
    requires
        state.unsent.len() > 1,
    ensures
        all_sent(state) == seq![
            state.write(state.unsent.last().text()),
            state.reminder(),
        ] + all_sent(state.popped()),
{
    let n = state.unsent.len() as int;
    let rest = state.popped();
    let front = seq![state.write(state.unsent.last().text()), state.reminder()];
    assert forall|i: int| 0 <= i < 2 * n - 1 implies #[trigger] all_sent(state)[i] == (front
        + all_sent(rest))[i] by {
        if i >= 2 {
            assert((front + all_sent(rest))[i] == all_sent(rest)[i - 2]);
            assert((i - 2) % 2 == i % 2);
            assert((i - 2) / 2 == i / 2 - 1);
            if i % 2 == 0 {
                assert(rest.unsent[n - 2 - (i - 2) / 2] == state.unsent[n - 1 - i / 2]);
            }
        }
    }
    assert(all_sent(state) =~= front + all_sent(rest));
}

/// Reminders send all requests that wait, each once, the latest first, and end when none is
/// left.
pub proof fn reminders_send_all(stored: Seq<u8>, state: StateView)
    requires
        stored.len() > 0,
        state.unsent.len() > 0,
    ensures
        drained(stored, state) == all_sent(state),
    decreases state.unsent.len(),
{
    reminder_sends_one(stored, state);
    let last = state.write(state.unsent.last().text());
    if state.unsent.len() == 1 {
        reminder_without_requests(stored, state.popped());
        assert(drained(stored, state) =~= seq![last]);
        assert(all_sent(state) =~= seq![last]);
    } else {
        reminders_send_all(stored, state.popped());
        all_sent_from_the_latest(state);
        assert(drained(stored, state) =~= seq![last, state.reminder()] + all_sent(state.popped()));
    }
}

} // verus!
