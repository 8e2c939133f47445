//! The handlers of the actor.
//!
//! A handler gets the stored state as bytes and as what was read from them. It
//! decides what is to be done; the host does it.

use crate::json::{is_null, is_null_json, value_text};
use crate::message::{
    initialize_params, initialize_params_text, initialized_notification,
    initialized_notification_text, tools_call_params, tools_call_params_text, InitState,
    McpActorRequest, McpRequest, McpResponse, RequestView, ResponseView, INITIALIZE_REQUEST_ID,
    JSONRPC_VERSION,
};
use crate::process::ProcessConfig;
use crate::state::{AppState, Effect, EffectView, StateView};
use crate::text::{
    decimal, prefixed, signed_decimal, string_from_utf8, utf8_bytes, write_signed, write_u64,
};
use crate::turn::{
    optional_bytes, Origin, OriginView, Outcome, OutcomeView, Phase, Step, StepView, Turn, TurnView,
};
use std::collections::HashMap;
use vstd::prelude::*;
use vstd::utf8::{decode_utf8, encode_utf8, valid_utf8};

verus! {

/// What was read from the stored state, or why it could not be read.
pub open spec fn parsed_view(parsed: Result<AppState, String>) -> Result<StateView, Seq<char>> {
    match parsed {
        Ok(state) => Ok(state@),
        Err(message) => Err(message@),
    }
}

/// Whether there is a stored state at all.
pub open spec fn is_stored(stored: Option<Seq<u8>>) -> bool {
    stored matches Some(bytes) && bytes.len() > 0
}

/// The state that a handler works on, or why there is none.
pub open spec fn loaded(
    stored: Option<Seq<u8>>,
    parsed: Result<StateView, Seq<char>>,
) -> Result<StateView, Seq<char>> {
    if !is_stored(stored) {
        Err("Invalid state"@)
    } else {
        match parsed {
            Ok(state) => Ok(state),
            Err(message) => Err("Failed to deserialize state: "@ + message),
        }
    }
}

/// The request that opens the connection.
pub open spec fn initialize_request() -> RequestView {
    RequestView {
        jsonrpc: "2.0"@,
        id: "initialize"@,
        method: "initialize"@,
        params: Some(initialize_params_text()),
    }
}

/// What another actor asks for.
pub enum ActorRequestView {
    ToolsList,
    ToolsCall { name: Seq<char>, args: Seq<char> },
}

impl View for McpActorRequest {
    type V = ActorRequestView;

    open spec fn view(&self) -> ActorRequestView {
        match self {
            McpActorRequest::ToolsList {  } => ActorRequestView::ToolsList,
            McpActorRequest::ToolsCall { name, args } => ActorRequestView::ToolsCall {
                name: name@,
                args: value_text(*args),
            },
        }
    }
}

impl ActorRequestView {
    /// The request to the server that stands for this one. It carries the id under
    /// which the answer is expected.
    pub open spec fn translated(self, request_id: Seq<char>) -> RequestView {
        match self {
            ActorRequestView::ToolsList => RequestView {
                jsonrpc: "2.0"@,
                id: request_id,
                method: "tools/list"@,
                params: None,
            },
            ActorRequestView::ToolsCall { name, args } => RequestView {
                jsonrpc: "2.0"@,
                id: request_id,
                method: "tools/call"@,
                params: Some(tools_call_params_text(name, args)),
            },
        }
    }
}

/// How a request of another actor is handled.
pub open spec fn request_step(
    stored: Option<Seq<u8>>,
    parsed: Result<StateView, Seq<char>>,
    request_id: Seq<char>,
    request: Option<ActorRequestView>,
) -> StepView {
    match (loaded(stored, parsed), request) {
        (Err(message), _) => StepView::Finish(OutcomeView::Failed(message)),
        (Ok(_), None) => StepView::Finish(OutcomeView::Failed("Unknown request format"@)),
        (Ok(state), Some(asked)) => if asked is ToolsCall && !state.server_initialized {
            StepView::Finish(OutcomeView::Failed("MCP server not initialized"@))
        } else if state.server_initialized {
            OriginView::Request.deliver(state.queued(asked.translated(request_id)))
        } else {
            StepView::Finish(
                OutcomeView::Answered {
                    state: state.queued(asked.translated(request_id)),
                    reply: None,
                },
            )
        },
    }
}

/// How a message is handled.
pub open spec fn message_step(
    stored: Option<Seq<u8>>,
    parsed: Result<StateView, Seq<char>>,
    message: Seq<u8>,
) -> StepView {
    match loaded(stored, parsed) {
        Err(error) => StepView::Finish(OutcomeView::Failed(error)),
        Ok(state) => if is_null_json(message) {
            OriginView::Message.deliver(state)
        } else {
            StepView::Finish(OutcomeView::Failed("Unknown request format"@))
        },
    }
}

/// Whether a response says that the connection is open.
pub open spec fn opens_connection(response: ResponseView) -> bool {
    response.id == "initialize"@ && response.error is None
}

/// How output of the server is handled.
pub open spec fn stdout_step(
    stored: Option<Seq<u8>>,
    parsed: Result<StateView, Seq<char>>,
    response: Option<ResponseView>,
) -> StepView {
    if !is_stored(stored) {
        StepView::Finish(OutcomeView::Unchanged(None))
    } else {
        match (loaded(stored, parsed), response) {
            (Err(message), _) => StepView::Finish(OutcomeView::Failed(message)),
            (Ok(state), None) => StepView::Finish(OutcomeView::Updated(state)),
            (Ok(state), Some(response)) => if opens_connection(response) {
                StepView::Perform {
                    effect: state.write(initialized_notification_text()),
                    turn: TurnView {
                        phase: Phase::Notifying,
                        origin: OriginView::Stdout(stored->0),
                        state: state.initialized(),
                    },
                }
            } else if response.id == "initialize"@ {
                StepView::Finish(OutcomeView::Unchanged(stored))
            } else {
                StepView::Perform {
                    effect: EffectView::Respond {
                        request_id: response.id,
                        data: encode_utf8(response.text()),
                    },
                    turn: TurnView {
                        phase: Phase::Responding,
                        origin: OriginView::Stdout(stored->0),
                        state,
                    },
                }
            },
        }
    }
}

/// How the end of a process is handled.
pub open spec fn exit_outcome(
    stored: Option<Seq<u8>>,
    parsed: Result<StateView, Seq<char>>,
    pid: u64,
    exit_code: i32,
) -> OutcomeView {
    match parsed {
        Err(message) => OutcomeView::Failed("Failed to deserialize state: "@ + message),
        Ok(state) => if state.server_pid == Some(pid) && exit_code != 0 {
            OutcomeView::Failed(
                "MCP server process "@ + decimal(pid as nat)
                    + " terminated unexpectedly with exit code "@ + signed_decimal(
                    exit_code as int,
                ),
            )
        } else {
            OutcomeView::Unchanged(stored)
        },
    }
}

/// An actor whose server is being started.
#[derive(Debug)]
pub struct Launch {
    /// The id of the actor itself.
    pub id: String,
    /// How the server is to be started.
    pub config: ProcessConfig,
}

impl Launch {
    /// Goes on once the host has tried to start the server: opens the connection.
    pub fn spawned(self, reply: Result<u64, String>) -> (r: Result<(AppState, Effect), String>)
        ensures
            match reply {
                Ok(pid) => {
                    &&& r matches Ok((state, effect))
                    &&& state@ == StateView::started(self.id@, pid)
                    &&& effect@ == state@.write(initialize_request().text())
                    &&& effect@.is_framed()
                    &&& state.server_pid == Some(pid)
                    &&& effect matches Effect::WriteStdin { pid: process, .. }
                    &&& process == pid
                },
                Err(message) => r == Err::<(AppState, Effect), String>(message),
            },
    {
        match reply {
            Ok(pid) => {
                let state = AppState {
                    id: self.id,
                    server_pid: Some(pid),
                    server_initialized: false,
                    unsent_requests: Vec::new(),
                    pending_requests: HashMap::new(),
                    server_capabilities: None,
                };
                assert(state@ == StateView::started(self.id@, pid)) by {
                    assert(state@.unsent =~= seq![]);
                }
                let effect = state.send_message(
                    INITIALIZE_REQUEST_ID,
                    "initialize",
                    Some(initialize_params()),
                );
                Ok((state, effect))
            },
            Err(message) => Err(message),
        }
    }
}

/// What the output of a process turns out to be.
#[derive(Debug)]
pub enum Output {
    /// Text, to be handled with the stored state.
    Text { state: Option<Vec<u8>>, text: String },
    /// Nothing that can be handled.
    Done(Outcome),
}

/// The answer to an actor that opens a channel.
#[derive(Debug)]
pub struct ChannelAccept {
    pub accepted: bool,
    pub message: Option<Vec<u8>>,
}

/// The actor.
pub struct Actor;

impl Actor {
    /// Starts the actor with its initial state, or with the reason why that could not
    /// be read.
    pub fn init(init_state: Result<InitState, String>, self_id: String) -> (r: Result<
        Launch,
        String,
    >)
        ensures
            match init_state {
                Ok(server) => r matches Ok(launch) && launch.id == self_id
                    && launch.config.starts(server),
                Err(message) => r matches Err(error) && error@
                    == "Failed to deserialize init state: "@ + message@,
            },
    {
        match init_state {
            Ok(server) => Ok(Launch { id: self_id, config: ProcessConfig::for_server(server) }),
            Err(message) => Err(prefixed("Failed to deserialize init state: ", message)),
        }
    }

    /// Handles the end of a process. Where the server has failed, the actor fails too,
    /// so that it is started anew.
    pub fn handle_exit(
        state: Option<Vec<u8>>,
        parsed: Result<AppState, String>,
        params: (u64, i32),
    ) -> (r: Outcome)
        requires
            state is Some,
        ensures
            r@ == exit_outcome(optional_bytes(state), parsed_view(parsed), params.0, params.1),
    {
        let (pid, exit_code) = params;
        let app_state: AppState = match parsed {
            Ok(app_state) => app_state,
            Err(message) => {
                return Outcome::Failed(prefixed("Failed to deserialize state: ", message));
            },
        };
        let is_server: bool = match app_state.server_pid {
            Some(server_pid) => server_pid == pid,
            None => false,
        };
        if is_server && exit_code != 0 {
            let mut message: String = prefixed("MCP server process ", write_u64(pid));
            message.append(" terminated unexpectedly with exit code ");
            message.append(write_signed(exit_code).as_str());
            return Outcome::Failed(message);
        }
        Outcome::Unchanged(state)
    }

    /// Looks at the output of a process: text is to be handled, anything else is passed
    /// over.
    pub fn handle_stdout(state: Option<Vec<u8>>, params: (u64, Vec<u8>)) -> (r: Output)
        ensures
            match r {
                Output::Text { state: same, text } => valid_utf8(params.1@) && same == state
                    && text@ == decode_utf8(params.1@),
                Output::Done(outcome) => !valid_utf8(params.1@) && outcome == Outcome::Unchanged(
                    state,
                ),
            },
    {
        match string_from_utf8(params.1) {
            Some(text) => Output::Text { state, text },
            None => Output::Done(Outcome::Unchanged(state)),
        }
    }

    /// Handles output on the error stream of a process, which leaves the state as it is.
    pub fn handle_stderr(state: Option<Vec<u8>>, _params: (u64, Vec<u8>)) -> (r: Outcome)
        ensures
            r == Outcome::Unchanged(state),
    {
        Outcome::Unchanged(state)
    }

    /// The state that a handler works on, or why there is none.
    fn load(state: &Option<Vec<u8>>, parsed: Result<AppState, String>) -> (r: Result<
        AppState,
        String,
    >)
        ensures
            parsed_view(r) == loaded(optional_bytes(*state), parsed_view(parsed)),
    {
        match state {
            Some(bytes) => {
                if bytes.is_empty() {
                    return Err("Invalid state".to_string());
                }
            },
            None => {
                return Err("Invalid state".to_string());
            },
        }
        match parsed {
            Ok(app_state) => Ok(app_state),
            Err(message) => Err(prefixed("Failed to deserialize state: ", message)),
        }
    }

    /// Whether a message is the reminder that requests are left.
    pub fn is_reminder(message: &[u8]) -> (r: bool)
        ensures
            r == is_null_json(message@),
    {
        is_null(message)
    }

    /// Handles a message: the reminder makes the actor send the next request.
    pub fn handle_send(
        state: Option<Vec<u8>>,
        parsed: Result<AppState, String>,
        params: (Vec<u8>,),
    ) -> (r: Step)
        requires
            is_null_json(params.0@) ==> (loaded(
                optional_bytes(state),
                parsed_view(parsed),
            ) matches Ok(app_state) ==> app_state.can_send()),
        ensures
            r@ == message_step(optional_bytes(state), parsed_view(parsed), params.0@),
            r@.wf(),
    {
        match Self::load(&state, parsed) {
            Err(error) => Step::Finish(Outcome::Failed(error)),
            Ok(app_state) => {
                if Self::is_reminder(params.0.as_slice()) {
                    Origin::Message.deliver(app_state)
                } else {
                    Step::Finish(Outcome::Failed("Unknown request format".to_string()))
                }
            },
        }
    }

    /// Handles a request of another actor, where it could be read: it is translated for
    /// the server and queued, and sent if the connection is open.
    pub fn handle_request(
        state: Option<Vec<u8>>,
        parsed: Result<AppState, String>,
        params: (String, Option<McpActorRequest>),
    ) -> (r: Step)
        requires
            params.1 is Some ==> (loaded(optional_bytes(state), parsed_view(parsed)) matches Ok(
                app_state,
            ) ==> app_state.server_initialized ==> app_state.server_pid is Some),
        ensures
            r@ == request_step(
                optional_bytes(state),
                parsed_view(parsed),
                params.0@,
                match params.1 {
                    Some(asked) => Some(asked@),
                    None => None,
                },
            ),
            r@.wf(),
    {
        let (request_id, request) = params;
        let mut app_state: AppState = match Self::load(&state, parsed) {
            Ok(app_state) => app_state,
            Err(error) => {
                return Step::Finish(Outcome::Failed(error));
            },
        };
        let ghost before = app_state@;
        let asked: McpActorRequest = match request {
            Some(asked) => asked,
            None => {
                return Step::Finish(Outcome::Failed("Unknown request format".to_string()));
            },
        };
        let ghost translated = asked@.translated(request_id@);
        let mcp_request: McpRequest = match asked {
            McpActorRequest::ToolsList {  } => McpRequest {
                jsonrpc: JSONRPC_VERSION.to_string(),
                id: request_id,
                method: "tools/list".to_string(),
                params: None,
            },
            McpActorRequest::ToolsCall { name, args } => {
                if !app_state.server_initialized {
                    return Step::Finish(Outcome::Failed("MCP server not initialized".to_string()));
                }
                McpRequest {
                    jsonrpc: JSONRPC_VERSION.to_string(),
                    id: request_id,
                    method: "tools/call".to_string(),
                    params: Some(tools_call_params(name, args)),
                }
            },
        };
        assert(mcp_request@ == translated);
        app_state.unsent_requests.push(mcp_request);
        assert(app_state@.unsent =~= before.unsent.push(translated));
        if app_state.server_initialized {
            Origin::Request.deliver(app_state)
        } else {
            Step::Finish(Outcome::Answered { state: app_state, reply: None })
        }
    }

    /// Handles text that the server has written, as the response that it is, if it is
    /// one.
    pub fn handle_process_stdout(
        state: Option<Vec<u8>>,
        parsed: Result<AppState, String>,
        response: Option<McpResponse>,
    ) -> (r: Step)
        requires
            response matches Some(response) ==> opens_connection(response@) ==> (loaded(
                optional_bytes(state),
                parsed_view(parsed),
            ) matches Ok(app_state) ==> app_state.server_pid is Some),
        ensures
            r@ == stdout_step(
                optional_bytes(state),
                parsed_view(parsed),
                match response {
                    Some(response) => Some(response@),
                    None => None,
                },
            ),
            r@.wf(),
    {
        let stored: Vec<u8> = match state {
            Some(stored) => stored,
            None => {
                return Step::Finish(Outcome::Unchanged(None));
            },
        };
        if stored.is_empty() {
            return Step::Finish(Outcome::Unchanged(None));
        }
        let mut app_state: AppState = match parsed {
            Ok(app_state) => app_state,
            Err(message) => {
                return Step::Finish(
                    Outcome::Failed(prefixed("Failed to deserialize state: ", message)),
                );
            },
        };
        let response: McpResponse = match response {
            Some(response) => response,
            None => {
                return Step::Finish(Outcome::Updated(app_state));
            },
        };
        if response.id == INITIALIZE_REQUEST_ID.to_string() {
            if response.error.is_none() {
                app_state.server_initialized = true;
                let effect: Effect = app_state.write_text(initialized_notification());
                Step::Perform {
                    effect,
                    turn: Turn {
                        phase: Phase::Notifying,
                        origin: Origin::Stdout(stored),
                        state: app_state,
                    },
                }
            } else {
                Step::Finish(Outcome::Unchanged(Some(stored)))
            }
        } else {
            let data: Vec<u8> = utf8_bytes(&response.to_json());
            Step::Perform {
                effect: Effect::Respond { request_id: response.id, data },
                turn: Turn {
                    phase: Phase::Responding,
                    origin: Origin::Stdout(stored),
                    state: app_state,
                },
            }
        }
    }

    /// Accepts a channel and leaves the state as it is.
    pub fn handle_channel_open(state: Option<Vec<u8>>, _params: (Vec<u8>,)) -> (r: (
        Outcome,
        ChannelAccept,
    ))
        ensures
            r.0 == Outcome::Unchanged(state),
            r.1.accepted,
            r.1.message is None,
    {
        (Outcome::Unchanged(state), ChannelAccept { accepted: true, message: None })
    }

    /// Takes note that a channel is closed and leaves the state as it is.
    pub fn handle_channel_close(state: Option<Vec<u8>>, _params: (String,)) -> (r: Outcome)
        ensures
            r == Outcome::Unchanged(state),
    {
        Outcome::Unchanged(state)
    }

    /// Takes note of a message on a channel and leaves the state as it is.
    pub fn handle_channel_message(state: Option<Vec<u8>>, _params: (String, Vec<u8>)) -> (r:
        Outcome)
        ensures
            r == Outcome::Unchanged(state),
    {
        Outcome::Unchanged(state)
    }
}

} // verus!
