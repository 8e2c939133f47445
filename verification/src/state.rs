//! The state of the actor and the messages that it sends from it.

use crate::json::write_null;
use crate::message::{optional_text, McpRequest, RequestView, JSONRPC_VERSION};
use crate::text::{
    is_line, line_bytes, line_bytes_are_one_line, one_line, prefixed, utf8_bytes, utf8_line,
};
use serde_json::Value;
use std::collections::HashMap;
use vstd::prelude::*;
use vstd::utf8::encode_utf8;

verus! {

/// Something that the actor asks its host to do.
#[derive(Debug)]
pub enum Effect {
    /// Write to the standard input of a process.
    WriteStdin { pid: u64, data: Vec<u8> },
    /// Send a message to an actor.
    Send { actor_id: String, data: Vec<u8> },
    /// Answer a request.
    Respond { request_id: String, data: Vec<u8> },
}

/// What an effect is.
pub enum EffectView {
    WriteStdin { pid: u64, data: Seq<u8> },
    Send { actor_id: Seq<char>, data: Seq<u8> },
    Respond { request_id: Seq<char>, data: Seq<u8> },
}

impl View for Effect {
    type V = EffectView;

    open spec fn view(&self) -> EffectView {
        match self {
            Effect::WriteStdin { pid, data } => EffectView::WriteStdin { pid: *pid, data: data@ },
            Effect::Send { actor_id, data } => EffectView::Send {
                actor_id: actor_id@,
                data: data@,
            },
            Effect::Respond { request_id, data } => EffectView::Respond {
                request_id: request_id@,
                data: data@,
            },
        }
    }
}

impl EffectView {
    /// Whether the effect keeps to the framing of the server's input: whatever is
    /// written to it is one line.
    pub open spec fn is_framed(self) -> bool {
        self matches EffectView::WriteStdin { data, .. } ==> is_line(data)
    }
}

/// What the host says of an effect: done, or why not.
pub open spec fn reply_view(reply: Result<(), String>) -> Result<(), Seq<char>> {
    match reply {
        Ok(_) => Ok(()),
        Err(message) => Err(message@),
    }
}

/// The bytes of the message by which the actor reminds itself of the requests that are left.
pub open spec fn reminder_bytes() -> Seq<u8> {
    encode_utf8("null"@)
}

/// How far the sending of one request has come.
#[derive(Debug)]
pub enum Delivery {
    /// The host has something to do.
    Perform(Effect),
    /// There is nothing more to do.
    Done(Result<(), String>),
}

/// What a delivery is.
pub enum DeliveryView {
    Perform(EffectView),
    Done(Result<(), Seq<char>>),
}

impl View for Delivery {
    type V = DeliveryView;

    open spec fn view(&self) -> DeliveryView {
        match self {
            Delivery::Perform(effect) => DeliveryView::Perform(effect@),
            Delivery::Done(result) => DeliveryView::Done(reply_view(*result)),
        }
    }
}

/// The state of the actor.
#[derive(Debug)]
pub struct AppState {
    /// The id of the actor itself.
    pub id: String,
    /// The process of the MCP server, once it runs.
    pub server_pid: Option<u64>,
    /// Whether the server has answered the request that opens the connection.
    pub server_initialized: bool,
    /// The requests that wait to be sent, the next one last.
    pub unsent_requests: Vec<McpRequest>,
    /// The requests that wait for a response.
    pub pending_requests: HashMap<String, McpRequest>,
    /// What the server has said that it can do.
    pub server_capabilities: Option<Value>,
}

/// What the state says: values are given by their compact text.
pub struct StateView {
    pub id: Seq<char>,
    pub server_pid: Option<u64>,
    pub server_initialized: bool,
    pub unsent: Seq<RequestView>,
    pub pending: Map<String, McpRequest>,
    pub capabilities: Option<Seq<char>>,
}

impl View for AppState {
    type V = StateView;

    open spec fn view(&self) -> StateView {
        StateView {
            id: self.id@,
            server_pid: self.server_pid,
            server_initialized: self.server_initialized,
            unsent: self.unsent_requests@.map_values(|r: McpRequest| r@),
            pending: self.pending_requests@,
            capabilities: optional_text(self.server_capabilities),
        }
    }
}

impl StateView {
    /// The state of an actor whose server has just been started.
    pub open spec fn started(id: Seq<char>, pid: u64) -> StateView {
        StateView {
            id,
            server_pid: Some(pid),
            server_initialized: false,
            unsent: seq![],
            pending: Map::empty(),
            capabilities: None,
        }
    }

    /// The state with one more request to send.
    pub open spec fn queued(self, request: RequestView) -> StateView {
        StateView { unsent: self.unsent.push(request), ..self }
    }

    /// The state without the request that is to be sent next.
    pub open spec fn popped(self) -> StateView {
        StateView { unsent: self.unsent.drop_last(), ..self }
    }

    /// The state with an open connection.
    pub open spec fn initialized(self) -> StateView {
        StateView { server_initialized: true, ..self }
    }

    /// Whether a request can be sent, should there be one.
    pub open spec fn can_send(self) -> bool {
        self.unsent.len() > 0 ==> self.server_pid is Some
    }

    /// Writing a text to the server, on a line of its own.
    pub open spec fn write(self, text: Seq<char>) -> EffectView {
        EffectView::WriteStdin { pid: self.server_pid->0, data: line_bytes(text) }
    }

    /// The message by which the actor reminds itself of the requests that are left.
    pub open spec fn reminder(self) -> EffectView {
        EffectView::Send { actor_id: self.id, data: reminder_bytes() }
    }

    /// The first part of sending the next request: it is written to the server.
    pub open spec fn delivery(self) -> DeliveryView {
        if self.unsent.len() == 0 {
            DeliveryView::Done(Ok(()))
        } else {
            DeliveryView::Perform(self.write(self.unsent.last().text()))
        }
    }

    /// The second part, where the state is that after the first: if requests are
    /// left, the actor sends itself a reminder.
    pub open spec fn after_write(self, reply: Result<(), Seq<char>>) -> DeliveryView {
        match reply {
            Err(message) => DeliveryView::Done(Err("Failed to write to stdin: "@ + message)),
            Ok(_) => if self.unsent.len() > 0 {
                DeliveryView::Perform(self.reminder())
            } else {
                DeliveryView::Done(Ok(()))
            },
        }
    }
}

/// How the sending of a request ends, once the reminder is on its way.
pub open spec fn after_reminder(reply: Result<(), Seq<char>>) -> Result<(), Seq<char>> {
    match reply {
        Err(message) => Err("Failed to send message: "@ + message),
        Ok(_) => Ok(()),
    }
}

impl AppState {
    /// Sends a message to the server.
    pub fn send_message(&self, request_id: &str, method: &str, params: Option<Value>) -> (r: Effect)
        requires
            self.server_pid is Some,
        ensures
            r@ == self@.write(
                (RequestView {
                    jsonrpc: "2.0"@,
                    id: request_id@,
                    method: method@,
                    params: optional_text(params),
                }).text(),
            ),
            r@.is_framed(),
            r matches Effect::WriteStdin { pid, .. } && self.server_pid == Some(pid),
    {
        let request = McpRequest {
            jsonrpc: JSONRPC_VERSION.to_string(),
            id: request_id.to_string(),
            method: method.to_string(),
            params,
        };
        self.write_text(request.to_json())
    }

    /// Writes a text to the server, on a line of its own.
    pub fn write_text(&self, text: String) -> (r: Effect)
        requires
            self.server_pid is Some,
        ensures
            r@ == self@.write(text@),
            one_line(text@) ==> r@.is_framed(),
            r matches Effect::WriteStdin { pid, .. } && self.server_pid == Some(pid),
    {
        proof {
            if one_line(text@) {
                line_bytes_are_one_line(text@);
            }
        }
        Effect::WriteStdin { pid: self.server_pid.unwrap(), data: utf8_line(text) }
    }

    /// Sends the next request that waits: the first part, which takes it from the
    /// list and writes it to the server.
    pub fn send_next_unsent(&mut self) -> (r: Delivery)
        requires
            old(self)@.can_send(),
        ensures
            r@ == old(self)@.delivery(),
            final(self)@ == (if old(self)@.unsent.len() == 0 {
                old(self)@
            } else {
                old(self)@.popped()
            }),
            r@ matches DeliveryView::Perform(effect) ==> effect.is_framed(),
    {
        match self.unsent_requests.pop() {
            Some(request) => {
                assert(self@.unsent =~= old(self)@.unsent.drop_last());
                Delivery::Perform(self.write_text(request.to_json()))
            },
            None => {
                assert(self@.unsent =~= old(self)@.unsent);
                Delivery::Done(Ok(()))
            },
        }
    }

    /// The second part of sending a request, once the host has tried to write it: if
    /// more requests wait, the actor reminds itself of them.
    pub fn unsent_written(&self, reply: Result<(), String>) -> (r: Delivery)
        ensures
            r@ == self@.after_write(reply_view(reply)),
            r@ matches DeliveryView::Perform(effect) ==> effect.is_framed(),
    {
        match reply {
            Err(message) => Delivery::Done(Err(prefixed("Failed to write to stdin: ", message))),
            Ok(_) => {
                if self.unsent_requests.is_empty() {
                    Delivery::Done(Ok(()))
                } else {
                    Delivery::Perform(
                        Effect::Send {
                            actor_id: self.id.clone(),
                            data: utf8_bytes(&write_null()),
                        },
                    )
                }
            },
        }
    }

    /// The end of sending a request, once the host has tried to send the reminder.
    pub fn reminder_sent(reply: Result<(), String>) -> (r: Result<(), String>)
        ensures
            reply_view(r) == after_reminder(reply_view(reply)),
    {
        match reply {
            Err(message) => Err(prefixed("Failed to send message: ", message)),
            Ok(_) => Ok(()),
        }
    }
}

} // verus!
