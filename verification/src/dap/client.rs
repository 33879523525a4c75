//! The client: its identity, the request counter, the adapter's capabilities
//! and what is known about each thread of the debuggee.
//!
//! A command is issued in two steps. The method named after the command
//! takes the next sequence number and returns the request to send. When the
//! reply handle has resolved, the matching `finish` function turns the
//! outcome, a response or the news that the transport closed, into the
//! command's result.
use vstd::prelude::*;
use std::collections::HashMap;
use serde_json::Value;
use dap_types::{
    Capabilities, ContinueResponse, Scope, SetBreakpointsResponse, SourceBreakpoint, StackFrame,
    Variable,
};
use crate::json::{json_of, opt_json_of, or_null, or_null_value, Json};
use crate::dap::commands::{
    breakpoints_value, continue_arguments, continue_arguments_value, disconnect_arguments,
    disconnect_arguments_value, initialize_arguments, initialize_arguments_value,
    launch_arguments, launch_arguments_value, optional_breakpoints_json, pause_arguments,
    pause_arguments_value, set_breakpoints_arguments, set_breakpoints_arguments_value,
    source_json, source_value, step_arguments, step_arguments_value, step_in_arguments,
    step_in_arguments_value,
};
use crate::dap::config::{DebugAdapterConfig, DebugRequestType};
use crate::dap::launcher::{LaunchAction, Launcher};
use crate::dap::payload::{Event, Payload, Request, RequestView, Response, ResponseView};
use crate::dap::transport::{Transport, TransportView};
use crate::dap::types::{
    capabilities_of_json, continue_response_of_json, default_capabilities, no_capabilities,
    parse_capabilities, parse_continue_response, parse_set_breakpoints_response, parse_unit,
    set_breakpoints_response_of_json,
};

verus! {

broadcast use vstd::std_specs::hash::group_hash_axioms;

/// What a thread of the debuggee is doing.
#[derive(Copy, Clone, Debug, PartialEq, Eq, PartialOrd, Ord, Hash, Structural)]
pub enum ThreadStatus {
    Running,
    Stopped,
    Exited,
    Ended,
}

impl Default for ThreadStatus {
    fn default() -> (r: Self)
        ensures
            r == ThreadStatus::Running,
    {
        ThreadStatus::Running
    }
}

/// Identifies one client among those that the host manages. It is never sent
/// to the adapter.
#[derive(Copy, Clone, Debug, PartialEq, Eq, PartialOrd, Ord, Hash, Structural)]
pub struct DebugAdapterClientId(pub usize);

/// The last known state of one thread.
#[derive(Debug, Clone)]
pub struct ThreadState {
    pub status: ThreadStatus,
    /// Innermost frame first, as the adapter last reported them.
    pub stack_frames: Vec<StackFrame>,
    /// The scopes of each stack frame, by the frame's id.
    pub scopes: HashMap<u64, Vec<Scope>>,
    /// The variables of each scope, by the scope's variables reference.
    pub variables: HashMap<u64, Vec<Variable>>,
    /// The frame that is selected, if any.
    pub current_stack_frame_id: Option<u64>,
}

impl ThreadState {
    /// This state with another status and everything else as it is.
    pub open spec fn with_status(self, status: ThreadStatus) -> ThreadState {
        ThreadState {
            status,
            stack_frames: self.stack_frames,
            scopes: self.scopes,
            variables: self.variables,
            current_stack_frame_id: self.current_stack_frame_id,
        }
    }
}

impl Default for ThreadState {
    /// A running thread of which nothing else is known.
    fn default() -> (r: Self)
        ensures
            r.status == ThreadStatus::Running,
            r.stack_frames@.len() == 0,
            r.scopes@.len() == 0,
            r.variables@.len() == 0,
            r.current_stack_frame_id is None,
    {
        ThreadState {
            status: ThreadStatus::Running,
            stack_frames: Vec::new(),
            scopes: HashMap::new(),
            variables: HashMap::new(),
            current_stack_frame_id: None,
        }
    }
}

/// Why a command has no result.
#[derive(Clone, Copy, Debug, PartialEq, Eq, Structural)]
pub enum RequestError {
    /// The arguments have no JSON form. Nothing was sent.
    Serialize,
    /// The transport closed before a response arrived.
    TransportClosed,
    /// The adapter reported failure, or its answer does not have the shape
    /// that the command's answer has.
    CommandFailed,
}

/// The sequence number that follows `seq`: one more, and 0 after the
/// largest.
pub open spec fn next_after(seq: u64) -> u64 {
    if seq == u64::MAX {
        0
    } else {
        (seq + 1) as u64
    }
}

/// The sequence number of the request that is issued after `n` others, where
/// the first of them got `first`.
pub open spec fn seq_after(first: u64, n: nat) -> u64
    decreases n,
{
    if n == 0 {
        first
    } else {
        next_after(seq_after(first, (n - 1) as nat))
    }
}

/// One client's state.
pub struct DebugAdapterClient {
    id: DebugAdapterClientId,
    config: DebugAdapterConfig,
    request_count: u64,
    capabilities: Option<Capabilities>,
    thread_states: HashMap<u64, ThreadState>,
}

/// What a [`DebugAdapterClient`] holds.
pub struct ClientView {
    pub id: DebugAdapterClientId,
    pub config: DebugAdapterConfig,
    /// The sequence number that the next request will carry.
    pub next_seq: u64,
    /// What the adapter reported when the session was initialised.
    pub capabilities: Option<Capabilities>,
    /// The state of each thread, by thread id.
    pub threads: Map<u64, ThreadState>,
}

impl ClientView {
    /// A client that has sent nothing and knows nothing yet.
    pub open spec fn fresh(id: DebugAdapterClientId, config: DebugAdapterConfig) -> ClientView {
        ClientView { id, config, next_seq: 1, capabilities: None, threads: Map::empty() }
    }

    /// The client after it issued one request.
    pub open spec fn issue(self) -> ClientView {
        ClientView {
            id: self.id,
            config: self.config,
            next_seq: next_after(self.next_seq),
            capabilities: self.capabilities,
            threads: self.threads,
        }
    }

    /// The client with another thread table.
    pub open spec fn with_threads(self, threads: Map<u64, ThreadState>) -> ClientView {
        ClientView {
            id: self.id,
            config: self.config,
            next_seq: self.next_seq,
            capabilities: self.capabilities,
            threads,
        }
    }

    /// The client with these capabilities.
    pub open spec fn with_capabilities(self, capabilities: Capabilities) -> ClientView {
        ClientView {
            id: self.id,
            config: self.config,
            next_seq: self.next_seq,
            capabilities: Some(capabilities),
            threads: self.threads,
        }
    }

    /// The client after the status of a thread was reported: the entry of a
    /// known thread gets the status, and nothing else changes.
    pub open spec fn update_status(self, thread_id: u64, status: ThreadStatus) -> ClientView {
        if self.threads.contains_key(thread_id) {
            self.with_threads(
                self.threads.insert(thread_id, self.threads[thread_id].with_status(status)),
            )
        } else {
            self
        }
    }

    /// What the cache knows of a thread: its state, or nothing where the
    /// thread was never seen.
    pub open spec fn thread_state(self, thread_id: u64) -> Option<ThreadState> {
        if self.threads.contains_key(thread_id) {
            Some(self.threads[thread_id])
        } else {
            None
        }
    }

    /// The request that the client issues next for a command.
    pub open spec fn next_request(self, command: Seq<char>, arguments: Option<Json>) -> RequestView {
        RequestView { seq: self.next_seq, command, arguments }
    }

    /// The client after a request was asked for whose arguments were to be
    /// put into JSON first, and the request. `None` stands for arguments
    /// that have no JSON form: no request is issued then, and the client
    /// stays as it is, its next sequence number included.
    pub open spec fn request_serialized(self, command: Seq<char>, arguments: Option<Json>) -> (
        ClientView,
        Result<RequestView, RequestError>,
    ) {
        match arguments {
            Some(a) => (self.issue(), Ok(self.next_request(command, Some(a)))),
            None => (self, Err(RequestError::Serialize)),
        }
    }

    /// The client after `setBreakpoints` was asked for the file at `path`,
    /// and the request. The source is the path and nothing else. `None`
    /// stands for breakpoints that have no JSON form.
    pub open spec fn set_breakpoints(self, path: Seq<char>, breakpoints: Option<Json>) -> (
        ClientView,
        Result<RequestView, RequestError>,
    ) {
        self.request_serialized(
            "setBreakpoints"@,
            match breakpoints {
                Some(list) => Some(set_breakpoints_arguments(source_json(path), list)),
                None => None,
            },
        )
    }

    /// The adapter-specific arguments from the configuration, if any.
    pub open spec fn adapter_arguments(self) -> Option<Json> {
        match self.config.request_args {
            Some(a) => Some(json_of(a.args)),
            None => None,
        }
    }
}

/// The view of a request that was issued, or the reason why none was.
pub open spec fn request_view(r: Result<Request, RequestError>) -> Result<
    RequestView,
    RequestError,
> {
    match r {
        Ok(request) => Ok(request@),
        Err(e) => Err(e),
    }
}

/// The tree of arguments that were put into JSON, where that succeeded.
pub open spec fn serialized_json(arguments: Result<Value, serde_json::Error>) -> Option<Json> {
    match arguments {
        Ok(v) => Some(json_of(v)),
        Err(_) => None,
    }
}

/// The view of an optional response.
pub open spec fn outcome_view(outcome: Option<Response>) -> Option<ResponseView> {
    match outcome {
        Some(r) => Some(r@),
        None => None,
    }
}

/// The body that an outcome carries: the body of a successful response, or
/// `null` where it has none. A transport that closed and a response that
/// reports failure carry none.
pub open spec fn spec_response_body(outcome: Option<ResponseView>) -> Result<Json, RequestError> {
    match outcome {
        None => Err(RequestError::TransportClosed),
        Some(r) => if r.success {
            Ok(or_null(r.body))
        } else {
            Err(RequestError::CommandFailed)
        },
    }
}

/// The result of a command whose answer has the shape that `shape` reads.
pub open spec fn spec_finish<A>(
    outcome: Option<ResponseView>,
    shape: spec_fn(Json) -> Option<A>,
) -> Result<A, RequestError> {
    match spec_response_body(outcome) {
        Ok(body) => match shape(body) {
            Some(a) => Ok(a),
            None => Err(RequestError::CommandFailed),
        },
        Err(e) => Err(e),
    }
}

/// The shape of an answer without content: `null`.
pub open spec fn unit_of_json(body: Json) -> Option<()> {
    if body is Null {
        Some(())
    } else {
        None
    }
}

impl View for DebugAdapterClient {
    type V = ClientView;

    closed spec fn view(&self) -> ClientView {
        ClientView {
            id: self.id,
            config: self.config,
            next_seq: self.request_count,
            capabilities: self.capabilities,
            threads: self.thread_states@,
        }
    }
}

impl DebugAdapterClient {
    /// A client for the adapter that `config` describes, together with the
    /// first step of starting that adapter. The client has sent nothing yet:
    /// its first request will carry the sequence number 1.
    pub fn new(id: DebugAdapterClientId, config: DebugAdapterConfig) -> (r: (
        DebugAdapterClient,
        Launcher,
        LaunchAction,
    ))
        ensures
            r.0@ == ClientView::fresh(id, config),
            (r.1, r.2) == Launcher::spec_start(config.connection),
    {
        let (launcher, action) = Launcher::start(&config.connection);
        let client = DebugAdapterClient {
            id,
            config,
            request_count: 1,
            capabilities: None,
            thread_states: HashMap::new(),
        };
        (client, launcher, action)
    }

    /// A client and a transport for an adapter whose streams are open
    /// already. Nothing waits on the transport, and the client's first
    /// request will carry the sequence number 1.
    pub fn handle_transport<T>(id: DebugAdapterClientId, config: DebugAdapterConfig) -> (r: (
        DebugAdapterClient,
        Transport<T>,
    ))
        ensures
            r.0@ == ClientView::fresh(id, config),
            r.1@ == TransportView::<T>::fresh(),
    {
        let client = DebugAdapterClient {
            id,
            config,
            request_count: 1,
            capabilities: None,
            thread_states: HashMap::new(),
        };
        (client, Transport::new())
    }

    /// What the dispatch loop does with a message that was passed on to it:
    /// an event goes to the event handler; anything else is only logged.
    pub fn handle_events(payload: Payload) -> (r: Option<Event>)
        ensures
            r == match payload {
                Payload::Event(e) => Some(e),
                _ => None,
            },
    {
        match payload {
            Payload::Event(e) => Some(e),
            _ => None,
        }
    }

    /// What the forwarding loop passes on: the event or request as it came.
    /// The transport never passes a response on, so none may be given here.
    pub fn handle_recv(payload: Payload) -> (r: Payload)
        requires
            !(payload is Response),
        ensures
            r == payload,
            !(r is Response),
    {
        payload
    }

    /// Issues a request for `command` with `arguments`: the request carries
    /// the next sequence number.
    pub fn request(&mut self, command: &str, arguments: Option<Value>) -> (r: Request)
        ensures
            r@ == old(self)@.next_request(command@, opt_json_of(arguments)),
            final(self)@ == old(self)@.issue(),
    {
        let seq = self.next_request_id();
        Request { seq, command: command.to_owned(), arguments }
    }

    /// Issues a request for `command` with the outcome of putting its
    /// arguments into JSON. Where that failed, the failure is reported at
    /// once: no request is issued and no sequence number is taken, so the
    /// next request carries the number that this one would have carried.
    pub fn request_serialized(
        &mut self,
        command: &str,
        arguments: Result<Value, serde_json::Error>,
    ) -> (r: Result<Request, RequestError>)
        ensures
            (final(self)@, request_view(r)) == old(self)@.request_serialized(
                command@,
                serialized_json(arguments),
            ),
    {
        match arguments {
            Ok(value) => Ok(self.request(command, Some(value))),
            Err(_) => Err(RequestError::Serialize),
        }
    }

    /// The host's identifier of this client.
    pub fn id(&self) -> (r: DebugAdapterClientId)
        ensures
            r == self@.id,
    {
        self.id
    }

    /// The configuration that the client was made with.
    pub fn config(&self) -> (r: &DebugAdapterConfig)
        ensures
            *r == self@.config,
    {
        &self.config
    }

    /// Whether the debuggee is launched or attached to.
    pub fn request_type(&self) -> (r: DebugRequestType)
        ensures
            r == self@.config.request,
    {
        self.config.request
    }

    /// What the adapter supports: what it reported when the session was
    /// initialised, and before that the capabilities of an adapter that has
    /// reported none.
    pub fn capabilities(&self) -> (r: Capabilities)
        ensures
            match self@.capabilities {
                Some(c) => r == c,
                None => no_capabilities(r),
            },
    {
        match &self.capabilities {
            Some(c) => c.clone(),
            None => default_capabilities(),
        }
    }

    /// Hands out the next sequence number. Numbers start at 1 and go up by
    /// one with every request; after the largest they start again at 0.
    pub fn next_request_id(&mut self) -> (r: u64)
        ensures
            r == old(self)@.next_seq,
            final(self)@ == old(self)@.issue(),
    {
        let r = self.request_count;
        self.request_count = r.wrapping_add(1);
        r
    }

    /// Records the status of a thread. A thread that the cache does not know
    /// is left unknown: the call changes nothing then.
    pub fn update_thread_state_status(&mut self, thread_id: u64, status: ThreadStatus)
        ensures
            final(self)@ == old(self)@.update_status(thread_id, status),
    {
        match self.thread_states.remove(&thread_id) {
            Some(state) => {
                let ThreadState { status: _, stack_frames, scopes, variables, current_stack_frame_id } =
                    state;
                let updated = ThreadState {
                    status,
                    stack_frames,
                    scopes,
                    variables,
                    current_stack_frame_id,
                };
                let _ = self.thread_states.insert(thread_id, updated);
                assert(self.thread_states@ =~= old(self).thread_states@.insert(
                    thread_id,
                    old(self).thread_states@[thread_id].with_status(status),
                ));
            },
            None => {
                assert(self.thread_states@ =~= old(self).thread_states@);
            },
        }
    }

    /// Exclusive access to the whole cache, for batch updates. Whatever the
    /// caller leaves in the table is the cache afterwards; nothing else
    /// changes.
    pub fn thread_states(&mut self) -> (r: &mut HashMap<u64, ThreadState>)
        ensures
            r@ == old(self)@.threads,
            final(self)@ == old(self)@.with_threads(final(r)@),
    {
        &mut self.thread_states
    }

    /// Whether the cache knows the thread.
    pub fn has_thread(&self, thread_id: u64) -> (r: bool)
        ensures
            r == self@.threads.contains_key(thread_id),
    {
        self.thread_states.contains_key(&thread_id)
    }

    /// What the cache knows of a thread. For a thread that was never seen
    /// there is nothing: no state is made up for it, and the cache stays as
    /// it is.
    pub fn find_thread_state(&self, thread_id: u64) -> (r: Option<&ThreadState>)
        ensures
            match r {
                Some(state) => self@.thread_state(thread_id) == Some(*state),
                None => self@.thread_state(thread_id) is None,
            },
    {
        self.thread_states.get(&thread_id)
    }

    /// The state of a thread that the cache knows. To ask for a thread that
    /// was never seen is a fault of the caller.
    pub fn thread_state_by_id(&self, thread_id: u64) -> (r: &ThreadState)
        requires
            self@.threads.contains_key(thread_id),
        ensures
            *r == self@.threads[thread_id],
    {
        self.thread_states.get(&thread_id).unwrap()
    }

    /// The adapter-specific arguments from the configuration, if any.
    fn adapter_arguments(&self) -> (r: Option<Value>)
        ensures
            opt_json_of(r) == self@.adapter_arguments(),
    {
        match &self.config.request_args {
            Some(a) => Some(a.args.clone()),
            None => None,
        }
    }

    /// Issues `initialize`, which tells the adapter who the client is and
    /// what it supports.
    pub fn initialize(&mut self) -> (r: Request)
        ensures
            r@ == old(self)@.next_request(
                "initialize"@,
                Some(initialize_arguments(old(self)@.config.id@)),
            ),
            final(self)@ == old(self)@.issue(),
    {
        let arguments = initialize_arguments_value(self.config.id.as_str());
        self.request("initialize", Some(arguments))
    }

    /// Issues `launch` with the adapter's own arguments as they are, or with
    /// an empty object where there are none.
    pub fn launch(&mut self, args: Option<Value>) -> (r: Request)
        ensures
            r@ == old(self)@.next_request(
                "launch"@,
                Some(launch_arguments(opt_json_of(args))),
            ),
            final(self)@ == old(self)@.issue(),
    {
        let arguments = launch_arguments_value(args);
        self.request("launch", Some(arguments))
    }

    /// Issues `attach` with the adapter's own arguments as they are, or with
    /// an empty object where there are none.
    pub fn attach(&mut self, args: Option<Value>) -> (r: Request)
        ensures
            r@ == old(self)@.next_request(
                "attach"@,
                Some(launch_arguments(opt_json_of(args))),
            ),
            final(self)@ == old(self)@.issue(),
    {
        let arguments = launch_arguments_value(args);
        self.request("attach", Some(arguments))
    }

    /// Issues `continue` for one thread.
    pub fn resume(&mut self, thread_id: u64) -> (r: Request)
        ensures
            r@ == old(self)@.next_request("continue"@, Some(continue_arguments(thread_id))),
            final(self)@ == old(self)@.issue(),
    {
        let arguments = continue_arguments_value(thread_id);
        self.request("continue", Some(arguments))
    }

    /// Issues `next`: one thread steps over one statement.
    pub fn step_over(&mut self, thread_id: u64) -> (r: Request)
        ensures
            r@ == old(self)@.next_request("next"@, Some(step_arguments(thread_id))),
            final(self)@ == old(self)@.issue(),
    {
        let arguments = step_arguments_value(thread_id);
        self.request("next", Some(arguments))
    }

    /// Issues `stepIn`: one thread steps into one statement.
    pub fn step_in(&mut self, thread_id: u64) -> (r: Request)
        ensures
            r@ == old(self)@.next_request("stepIn"@, Some(step_in_arguments(thread_id))),
            final(self)@ == old(self)@.issue(),
    {
        let arguments = step_in_arguments_value(thread_id);
        self.request("stepIn", Some(arguments))
    }

    /// Issues `stepOut`: one thread steps out by one statement.
    pub fn step_out(&mut self, thread_id: u64) -> (r: Request)
        ensures
            r@ == old(self)@.next_request("stepOut"@, Some(step_arguments(thread_id))),
            final(self)@ == old(self)@.issue(),
    {
        let arguments = step_arguments_value(thread_id);
        self.request("stepOut", Some(arguments))
    }

    /// Issues `stepBack`: one thread steps back by one statement.
    pub fn step_back(&mut self, thread_id: u64) -> (r: Request)
        ensures
            r@ == old(self)@.next_request("stepBack"@, Some(step_arguments(thread_id))),
            final(self)@ == old(self)@.issue(),
    {
        let arguments = step_arguments_value(thread_id);
        self.request("stepBack", Some(arguments))
    }

    /// Issues `restart` with the arguments that the session was started
    /// with.
    pub fn restart(&mut self) -> (r: Request)
        ensures
            r@ == old(self)@.next_request(
                "restart"@,
                Some(launch_arguments(old(self)@.adapter_arguments())),
            ),
            final(self)@ == old(self)@.issue(),
    {
        let arguments = launch_arguments_value(self.adapter_arguments());
        self.request("restart", Some(arguments))
    }

    /// Issues `pause` for one thread.
    pub fn pause(&mut self, thread_id: u64) -> (r: Request)
        ensures
            r@ == old(self)@.next_request("pause"@, Some(pause_arguments(thread_id))),
            final(self)@ == old(self)@.issue(),
    {
        let arguments = pause_arguments_value(thread_id);
        self.request("pause", Some(arguments))
    }

    /// Issues `disconnect`: the session ends without a restart, and the
    /// debuggee is not terminated by force.
    pub fn stop(&mut self) -> (r: Request)
        ensures
            r@ == old(self)@.next_request("disconnect"@, Some(disconnect_arguments())),
            final(self)@ == old(self)@.issue(),
    {
        let arguments = disconnect_arguments_value();
        self.request("disconnect", Some(arguments))
    }

    /// Issues `setBreakpoints` for the file at `path`. The source is given
    /// by its path alone; the breakpoints replace those that the file had.
    ///
    /// Where a breakpoint has no JSON form the call fails before anything is
    /// issued: no sequence number is taken.
    pub fn set_breakpoints(&mut self, path: &str, breakpoints: Option<Vec<SourceBreakpoint>>) -> (r:
        Result<Request, RequestError>)
        ensures
            (final(self)@, request_view(r)) == old(self)@.set_breakpoints(
                path@,
                optional_breakpoints_json(
                    match breakpoints {
                        Some(list) => Some(list@),
                        None => None,
                    },
                ),
            ),
    {
        let list = breakpoints_value(&breakpoints);
        self.set_breakpoints_json(path, list)
    }

    /// Issues `setBreakpoints` with breakpoints that are in their JSON form
    /// already: an array, or `null` for no list. `None` stands for
    /// breakpoints that have no JSON form: nothing is issued then, and no
    /// sequence number is taken.
    pub fn set_breakpoints_json(&mut self, path: &str, breakpoints: Option<Value>) -> (r: Result<
        Request,
        RequestError,
    >)
        ensures
            (final(self)@, request_view(r)) == old(self)@.set_breakpoints(
                path@,
                opt_json_of(breakpoints),
            ),
    {
        let list = match breakpoints {
            Some(list) => list,
            None => {
                return Err(RequestError::Serialize);
            },
        };
        let source = source_value(path);
        let arguments = set_breakpoints_arguments_value(source, list);
        Ok(self.request("setBreakpoints", Some(arguments)))
    }

    /// Issues `configurationDone`, which has no arguments.
    pub fn configuration_done(&mut self) -> (r: Request)
        ensures
            r@ == old(self)@.next_request("configurationDone"@, None),
            final(self)@ == old(self)@.issue(),
    {
        self.request("configurationDone", None)
    }

    /// The body that the outcome of a request carries.
    ///
    /// `None` stands for a reply handle that was dropped: the transport
    /// closed. A response that reports failure is a failed command. A
    /// successful response carries its body, or `null` where it has none.
    pub fn response_body(outcome: Option<Response>) -> (r: Result<Value, RequestError>)
        ensures
            match r {
                Ok(v) => spec_response_body(outcome_view(outcome)) == Ok::<Json, RequestError>(
                    json_of(v),
                ),
                Err(e) => spec_response_body(outcome_view(outcome)) == Err::<Json, RequestError>(
                    e,
                ),
            },
    {
        match outcome {
            None => Err(RequestError::TransportClosed),
            Some(response) => if response.success {
                Ok(or_null_value(response.body))
            } else {
                Err(RequestError::CommandFailed)
            },
        }
    }

    /// The result of a command whose answer has no content: `launch`,
    /// `attach`, the steps, `restart`, `pause`, `disconnect` and
    /// `configurationDone`. It succeeds where the response reports success
    /// and has no body.
    pub fn finish(outcome: Option<Response>) -> (r: Result<(), RequestError>)
        ensures
            r == spec_finish(outcome_view(outcome), |body: Json| unit_of_json(body)),
    {
        match Self::response_body(outcome) {
            Ok(body) => match parse_unit(body) {
                Ok(_) => Ok(()),
                Err(_) => Err(RequestError::CommandFailed),
            },
            Err(e) => Err(e),
        }
    }

    /// The result of `continue`: which threads the adapter has resumed.
    pub fn finish_resume(outcome: Option<Response>) -> (r: Result<ContinueResponse, RequestError>)
        ensures
            r == spec_finish(
                outcome_view(outcome),
                |body: Json| continue_response_of_json(body),
            ),
    {
        match Self::response_body(outcome) {
            Ok(body) => match parse_continue_response(body) {
                Ok(answer) => Ok(answer),
                Err(_) => Err(RequestError::CommandFailed),
            },
            Err(e) => Err(e),
        }
    }

    /// The result of `setBreakpoints`: what became of each breakpoint, which
    /// the adapter may have moved or refused.
    pub fn finish_set_breakpoints(outcome: Option<Response>) -> (r: Result<
        SetBreakpointsResponse,
        RequestError,
    >)
        ensures
            r == spec_finish(
                outcome_view(outcome),
                |body: Json| set_breakpoints_response_of_json(body),
            ),
    {
        match Self::response_body(outcome) {
            Ok(body) => match parse_set_breakpoints_response(body) {
                Ok(answer) => Ok(answer),
                Err(_) => Err(RequestError::CommandFailed),
            },
            Err(e) => Err(e),
        }
    }

    /// The result of `initialize`: the adapter's capabilities, which the
    /// client keeps from then on. Where the command failed the client keeps
    /// what it had.
    pub fn finish_initialize(&mut self, outcome: Option<Response>) -> (r: Result<
        Capabilities,
        RequestError,
    >)
        ensures
            r == spec_finish(outcome_view(outcome), |body: Json| capabilities_of_json(body)),
            final(self)@ == match r {
                Ok(c) => old(self)@.with_capabilities(c),
                Err(_) => old(self)@,
            },
    {
        match Self::response_body(outcome) {
            Ok(body) => match parse_capabilities(body) {
                Ok(capabilities) => {
                    self.capabilities = Some(capabilities.clone());
                    Ok(capabilities)
                },
                Err(_) => Err(RequestError::CommandFailed),
            },
            Err(e) => Err(e),
        }
    }
}

/// Without a wrap of the counter, the request that is issued after `n`
/// others carries a sequence number that is larger by `n`.
pub proof fn lemma_seq_after(first: u64, n: nat)
    requires
        first + n <= u64::MAX,
    ensures
        seq_after(first, n) == first + n,
    decreases n,
{
    if n > 0 {
        lemma_seq_after(first, (n - 1) as nat);
    }
}

/// Sequence numbers are unique and strictly increasing: of two requests
/// that a client issues, the later one carries the larger number. This
/// holds until the counter has run through all 64-bit numbers.
pub proof fn lemma_sequence_numbers_increase(first: u64, i: nat, j: nat)
    requires
        i < j,
        first + j <= u64::MAX,
    ensures
        seq_after(first, i) < seq_after(first, j),
{
    lemma_seq_after(first, i);
    lemma_seq_after(first, j);
}

/// Where the counter wraps, it goes on from 0: the request that is issued
/// after `n` others carries `first + n`, less 2^64 where that does not fit.
pub proof fn lemma_seq_after_wraps(first: u64, n: nat)
    requires
        n <= u64::MAX,
    ensures
        seq_after(first, n) == (if first + n <= u64::MAX {
            first + n
        } else {
            first + n - u64::MAX - 1
        }),
    decreases n,
{
    if n > 0 {
        lemma_seq_after_wraps(first, (n - 1) as nat);
    }
}

/// No two of 2^64 requests in a row carry the same sequence number, whether
/// or not the counter wraps in between.
pub proof fn lemma_sequence_numbers_are_unique(first: u64, i: nat, j: nat)
    requires
        i < j <= u64::MAX,
    ensures
        seq_after(first, i) != seq_after(first, j),
{
    lemma_seq_after_wraps(first, i);
    lemma_seq_after_wraps(first, j);
}

/// Issuing `n` requests moves the counter to the number of the request that
/// comes after them, and touches nothing else.
pub open spec fn issue_many(c: ClientView, n: nat) -> ClientView
    decreases n,
{
    if n == 0 {
        c
    } else {
        issue_many(c, (n - 1) as nat).issue()
    }
}

/// The request that follows `n` others carries the sequence number
/// `seq_after(c.next_seq, n)`; a fresh client starts at 1.
pub proof fn lemma_issue_many(c: ClientView, n: nat)
    ensures
        issue_many(c, n).next_seq == seq_after(c.next_seq, n),
        issue_many(c, n).threads == c.threads,
        issue_many(c, n).capabilities == c.capabilities,
        ClientView::fresh(c.id, c.config).next_seq == 1,
    decreases n,
{
    if n > 0 {
        lemma_issue_many(c, (n - 1) as nat);
    }
}

/// A status that is reported for a thread that the cache does not know
/// changes nothing at all.
pub proof fn lemma_status_of_unknown_thread_changes_nothing(
    c: ClientView,
    thread_id: u64,
    status: ThreadStatus,
)
    requires
        !c.threads.contains_key(thread_id),
    ensures
        c.update_status(thread_id, status) == c,
{
}

/// A status that is reported for a known thread becomes that thread's
/// status. The thread keeps its frames, scopes, variables and selected
/// frame, every other thread stays as it is, and no thread appears or
/// disappears.
pub proof fn lemma_status_of_known_thread(c: ClientView, thread_id: u64, status: ThreadStatus)
    requires
        c.threads.contains_key(thread_id),
    ensures
        ({
            let after = c.update_status(thread_id, status);
            &&& after.threads.dom() == c.threads.dom()
            &&& after.threads[thread_id].status == status
            &&& after.threads[thread_id].stack_frames == c.threads[thread_id].stack_frames
            &&& after.threads[thread_id].scopes == c.threads[thread_id].scopes
            &&& after.threads[thread_id].variables == c.threads[thread_id].variables
            &&& after.threads[thread_id].current_stack_frame_id
                == c.threads[thread_id].current_stack_frame_id
            &&& forall|other: u64|
                other != thread_id && c.threads.contains_key(other) ==> after.threads[other]
                    == c.threads[other]
            &&& after.next_seq == c.next_seq
            &&& after.capabilities == c.capabilities
        }),
{
    let after = c.update_status(thread_id, status);
}

/// A thread that was never seen has no state. A new client has seen no
/// thread; issuing requests and reporting the status of other threads, known
/// or not, does not make one seen.
pub proof fn lemma_unseen_thread_has_no_state(
    c: ClientView,
    thread_id: u64,
    other: u64,
    status: ThreadStatus,
)
    requires
        !c.threads.contains_key(thread_id),
    ensures
        c.thread_state(thread_id) is None,
        ClientView::fresh(c.id, c.config).thread_state(thread_id) is None,
        c.issue().thread_state(thread_id) is None,
        c.update_status(other, status).thread_state(thread_id) is None,
{
}

} // verus!
