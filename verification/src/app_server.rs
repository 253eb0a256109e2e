//! The session controller's side of the app-server protocol: the decisions of a request
//! exchange, its failures, and what a mutation may have done.
use vstd::prelude::*;

pub mod endpoint;
pub mod endpoint_policy;
pub mod protocol;

use crate::error::{category_message, DispatchState, NativeErrorSummary, ToolErrorCategory, ToolErrorData};
use endpoint_policy::{extract_codex_version, first_version_from, is_absolute_text};

verus! {

/// The version of this product that an app-server sees in `initialize`.
pub const PRODUCT_VERSION: &'static str = "0.1.0";

/// The Codex version that this product was validated against.
pub const TESTED_CODEX_VERSION: &'static str = "0.150.0-alpha.12.2";

/// How far a mutation got.
#[derive(Clone, Copy, Debug, PartialEq, Eq, Structural)]
pub enum MutationDispatch {
    NotDispatched,
    MayHaveBeenDispatched,
    CorrelatedResultReceived,
}

/// Where a client finds its app-server.
#[derive(Clone, Debug)]
pub enum EndpointSource {
    /// The Desktop socket, resolved afresh for each connection.
    Desktop,
    /// A fixed socket path.
    Fixed(Vec<u8>),
}

/// A client of the app-server.
#[derive(Clone, Debug)]
pub struct AppServerClient {
    pub endpoint_source: EndpointSource,
    pub product_version: String,
    pub tested_codex_version: String,
}

impl AppServerClient {
    pub fn new(endpoint_source: EndpointSource, product_version: &str, tested_codex_version: &str) -> (client: Self)
        ensures
            client.endpoint_source == endpoint_source,
            client.product_version@ == product_version@,
            client.tested_codex_version@ == tested_codex_version@,
    {
        AppServerClient {
            endpoint_source,
            product_version: product_version.to_owned(),
            tested_codex_version: tested_codex_version.to_owned(),
        }
    }

    /// The client of the Desktop app-server.
    pub fn desktop() -> (client: Self)
        ensures
            client.endpoint_source is Desktop,
            client.product_version@ == PRODUCT_VERSION@,
            client.tested_codex_version@ == TESTED_CODEX_VERSION@,
    {
        Self::new(EndpointSource::Desktop, PRODUCT_VERSION, TESTED_CODEX_VERSION)
    }

    /// A client of the app-server at a fixed socket.
    pub fn for_test(socket_path: Vec<u8>, tested_codex_version: &str) -> (client: Self)
        ensures
            client.endpoint_source == EndpointSource::Fixed(socket_path),
            client.product_version@ == PRODUCT_VERSION@,
            client.tested_codex_version@ == tested_codex_version@,
    {
        Self::new(EndpointSource::Fixed(socket_path), PRODUCT_VERSION, tested_codex_version)
    }
}

pub open spec fn optional_view(value: Option<&str>) -> Option<Seq<char>> {
    match value {
        Some(v) => Some(v@),
        None => None,
    }
}

pub open spec fn optional_string_view(value: Option<String>) -> Option<Seq<char>> {
    match value {
        Some(v) => Some(v@),
        None => None,
    }
}

fn optional_owned(value: Option<&str>) -> (owned: Option<String>)
    ensures
        optional_string_view(owned) == optional_view(value),
{
    match value {
        Some(v) => Some(v.to_owned()),
        None => None,
    }
}

/// An error of the given category, tool and stage about the given thread and turn, with no
/// native error, dispatch state, observation or reconciliation error yet.
pub open spec fn is_request_error(
    error: ToolErrorData,
    category: ToolErrorCategory,
    tool: Seq<char>,
    stage: Seq<char>,
    thread_id: Option<Seq<char>>,
    turn_id: Option<Seq<char>>,
) -> bool {
    &&& error.category == category
    &&& error.message@ == category_message(category)
    &&& error.tool@ == tool
    &&& error.stage@ == stage
    &&& optional_string_view(error.thread_id) == thread_id
    &&& optional_string_view(error.turn_id) == turn_id
    &&& error.observation is None
    &&& error.reconciliation_error is None
}

/// A request that could not be serialized.
pub fn invalid_request(tool: &str, stage: &str, thread_id: Option<&str>, turn_id: Option<&str>) -> (error: ToolErrorData)
    ensures
        is_request_error(error, ToolErrorCategory::InvalidRequest, tool@, stage@, optional_view(thread_id), optional_view(turn_id)),
        error.native is None,
        error.dispatch is None,
{
    let mut error = ToolErrorData::fixed(ToolErrorCategory::InvalidRequest, tool, stage);
    error.thread_id = optional_owned(thread_id);
    error.turn_id = optional_owned(turn_id);
    error
}

/// A transport failure outside any request.
pub fn transport_error(stage: &str) -> (error: ToolErrorData)
    ensures
        error.is_fixed(ToolErrorCategory::AuthorityTransportFailure, "native_transport"@, stage@),
{
    ToolErrorData::fixed(ToolErrorCategory::AuthorityTransportFailure, "native_transport", stage)
}

/// The category of a transport failure during a request: the outcome is unknown exactly
/// when a mutation may have been dispatched and no correlated result arrived.
pub open spec fn transport_category(mutation: bool, dispatch: MutationDispatch) -> ToolErrorCategory {
    if mutation && dispatch == MutationDispatch::MayHaveBeenDispatched {
        ToolErrorCategory::OutcomeUnknown
    } else {
        ToolErrorCategory::AuthorityTransportFailure
    }
}

/// The dispatch state that a mutation's error reports.
pub open spec fn reported_dispatch(dispatch: MutationDispatch) -> DispatchState {
    match dispatch {
        MutationDispatch::NotDispatched => DispatchState::NotDispatched,
        _ => DispatchState::MayHaveBeenDispatched,
    }
}

/// A transport failure during a request.
pub fn request_transport_error(
    tool: &str,
    stage: &str,
    mutation: bool,
    dispatch: MutationDispatch,
    thread_id: Option<&str>,
    turn_id: Option<&str>,
) -> (error: ToolErrorData)
    ensures
        is_request_error(error, transport_category(mutation, dispatch), tool@, stage@, optional_view(thread_id), optional_view(turn_id)),
        error.native is None,
        error.dispatch == (if mutation { Some(reported_dispatch(dispatch)) } else { None }),
{
    let category = if mutation && dispatch == MutationDispatch::MayHaveBeenDispatched {
        ToolErrorCategory::OutcomeUnknown
    } else {
        ToolErrorCategory::AuthorityTransportFailure
    };
    let mut error = ToolErrorData::fixed(category, tool, stage);
    error.thread_id = optional_owned(thread_id);
    error.turn_id = optional_owned(turn_id);
    if mutation {
        error.dispatch = Some(match dispatch {
            MutationDispatch::NotDispatched => DispatchState::NotDispatched,
            MutationDispatch::MayHaveBeenDispatched | MutationDispatch::CorrelatedResultReceived => DispatchState::MayHaveBeenDispatched,
        });
    }
    error
}

/// The message of a native error that carries none.
pub const NATIVE_FALLBACK_MESSAGE: &'static str = "native app-server request failed";

/// The error for a native error response: its category is what the native error classifier
/// gave for its code, or `native_error` where it has no code; the summary keeps the code and
/// the message.
pub fn native_error(
    tool: &str,
    method: &str,
    code: Option<i64>,
    message: Option<&str>,
    classified: ToolErrorCategory,
    mutation: bool,
    thread_id: Option<&str>,
    turn_id: Option<&str>,
) -> (error: ToolErrorData)
    ensures
        is_request_error(
            error,
            if code is Some { classified } else { ToolErrorCategory::NativeError },
            tool@,
            method@,
            optional_view(thread_id),
            optional_view(turn_id),
        ),
        error.native is Some,
        error.native->0.code == code,
        error.native->0.message@ == (match message { Some(m) => m@, None => NATIVE_FALLBACK_MESSAGE@ }),
        error.dispatch == (if mutation { Some(DispatchState::MayHaveBeenDispatched) } else { None }),
{
    let category = match code {
        Some(_) => classified,
        None => ToolErrorCategory::NativeError,
    };
    let text = match message {
        Some(m) => m,
        None => NATIVE_FALLBACK_MESSAGE,
    };
    let mut error = ToolErrorData::fixed(category, tool, method);
    error.native = Some(NativeErrorSummary { code, message: text.to_owned() });
    error.thread_id = optional_owned(thread_id);
    error.turn_id = optional_owned(turn_id);
    if mutation {
        error.dispatch = Some(DispatchState::MayHaveBeenDispatched);
    }
    error
}

/// The warning that an initialized app-server of an untested Codex version receives.
pub open spec fn compatibility_warning_text(reported: Seq<char>, tested: Seq<char>) -> Seq<char> {
    "WARNING: Target Codex "@ + reported + " is untested. Codex session control was validated against Codex "@
        + tested + ". Report this warning to the operator. The accompanying structured data remains authoritative."@
}

/// The version an initialized app-server reports: the one in its user agent, or `unknown`.
pub open spec fn reported_version(user_agent: Option<Seq<char>>) -> Seq<char> {
    match user_agent {
        Some(agent) => match first_version_from(agent, 0) {
            Some(v) => v,
            None => "unknown"@,
        },
        None => "unknown"@,
    }
}

/// What `initialize` decides from the app-server's answer: it refuses an answer whose Codex
/// home is not a non-empty absolute path, and warns where the reported version is not the
/// tested one.
pub open spec fn initialize_decision(codex_home: Option<Seq<char>>, user_agent: Option<Seq<char>>, tested: Seq<char>) -> Option<Option<Seq<char>>> {
    let valid_home = match codex_home {
        Some(home) => is_absolute_text(home),
        None => false,
    };
    if !valid_home {
        None
    } else if reported_version(user_agent) != tested {
        Some(Some(compatibility_warning_text(reported_version(user_agent), tested)))
    } else {
        Some(None)
    }
}

pub fn initialize_outcome(codex_home: Option<&str>, user_agent: Option<&str>, tested: &str) -> (outcome: Result<Option<String>, ToolErrorData>)
    ensures
        match outcome {
            Ok(warning) => initialize_decision(optional_view(codex_home), optional_view(user_agent), tested@)
                == Some(optional_string_view(warning)),
            Err(error) => initialize_decision(optional_view(codex_home), optional_view(user_agent), tested@) is None
                && error.is_fixed(ToolErrorCategory::TargetUnavailable, "initialize"@, "initialize"@),
        },
{
    let valid_home = match codex_home {
        Some(home) => {
            let characters = crate::text::chars_of(home);
            characters.len() > 0 && characters[0] == '/'
        },
        None => false,
    };
    if !valid_home {
        return Err(ToolErrorData::fixed(ToolErrorCategory::TargetUnavailable, "initialize", "initialize"));
    }
    let reported = match user_agent {
        Some(agent) => match extract_codex_version(agent) {
            Some(v) => v,
            None => String::from_str("unknown"),
        },
        None => String::from_str("unknown"),
    };
    if reported == tested.to_owned() {
        return Ok(None);
    }
    let mut warning = String::from_str("WARNING: Target Codex ");
    warning.append(reported.as_str());
    warning.append(" is untested. Codex session control was validated against Codex ");
    warning.append(tested);
    warning.append(". Report this warning to the operator. The accompanying structured data remains authoritative.");
    Ok(Some(warning))
}

/// The request that an exchange is about.
#[derive(Debug)]
pub struct RequestContext {
    pub tool: String,
    pub method: String,
    pub mutation: bool,
    pub thread_id: Option<String>,
    pub turn_id: Option<String>,
    pub request_id: u64,
}

/// A native error response, with the category that the native error classifier gave it.
#[derive(Debug)]
pub struct NativeErrorReply {
    pub code: Option<i64>,
    pub message: Option<String>,
    pub classified: ToolErrorCategory,
}

/// What the next frame of the connection was.
#[derive(Debug)]
pub enum IncomingFrame {
    /// The connection was closed, ended or failed.
    Closed,
    /// A frame that is neither text nor a close.
    Other,
    /// Text that is not JSON.
    Unparseable,
    /// A JSON message.
    Message { has_method: bool, id: Option<u64>, error: Option<NativeErrorReply>, has_result: bool },
}

/// What the exchange does after a frame.
#[derive(Debug)]
pub enum FrameStep {
    /// Read the next frame.
    Continue,
    /// End the request with this error.
    Fail(ToolErrorData),
    /// The correlated result arrived; decode it.
    Deliver,
}

/// The connection state that outlives one request.
#[derive(Debug)]
pub struct ConnectionState {
    pub next_request_id: u64,
    pub dispatch: MutationDispatch,
    pub compatibility_warning: Option<String>,
}

impl ConnectionState {
    /// A fresh connection: the first request id is 1 and nothing was dispatched.
    pub fn new() -> (state: Self)
        ensures
            state.next_request_id == 1,
            state.dispatch == MutationDispatch::NotDispatched,
            state.compatibility_warning is None,
    {
        ConnectionState { next_request_id: 1, dispatch: MutationDispatch::NotDispatched, compatibility_warning: None }
    }

    /// Takes the next request id; a mutation may be dispatched from here on.
    pub fn begin_request(&mut self, mutation: bool) -> (id: u64)
        requires
            old(self).next_request_id < u64::MAX,
        ensures
            id == old(self).next_request_id,
            *final(self) == begun(*old(self), mutation),
            final(self).next_request_id == id + 1,
            final(self).dispatch == (if mutation { MutationDispatch::MayHaveBeenDispatched } else { old(self).dispatch }),
            final(self).compatibility_warning == old(self).compatibility_warning,
    {
        let id = self.next_request_id;
        self.next_request_id = id + 1;
        if mutation {
            self.dispatch = MutationDispatch::MayHaveBeenDispatched;
        }
        id
    }

    /// Starts a request whose params did or did not serialize: one whose params did not is
    /// refused as an invalid request, takes no id and leaves the state as it is; one whose
    /// params did takes the next id.
    pub fn start_request(
        &mut self,
        params_serialized: bool,
        tool: &str,
        method: &str,
        mutation: bool,
        thread_id: Option<&str>,
        turn_id: Option<&str>,
    ) -> (started: Result<u64, ToolErrorData>)
        requires
            old(self).next_request_id < u64::MAX,
        ensures
            match started {
                Ok(id) => params_serialized && id == old(self).next_request_id && *final(self) == begun(*old(self), mutation),
                Err(error) => !params_serialized && *final(self) == *old(self) && is_request_error(
                    error,
                    ToolErrorCategory::InvalidRequest,
                    tool@,
                    method@,
                    optional_view(thread_id),
                    optional_view(turn_id),
                ) && error.native is None && error.dispatch is None,
            },
    {
        if !params_serialized {
            return Err(invalid_request(tool, method, thread_id, turn_id));
        }
        Ok(self.begin_request(mutation))
    }

    /// The error for a failed send, an ended stream or an undecodable result.
    pub fn transport_failure(&self, context: &RequestContext) -> (error: ToolErrorData)
        ensures
            is_request_error(error, transport_category(context.mutation, self.dispatch), context.tool@, context.method@,
                optional_string_view(context.thread_id), optional_string_view(context.turn_id)),
            error.native is None,
            error.dispatch == (if context.mutation { Some(reported_dispatch(self.dispatch)) } else { None }),
    {
        request_transport_error(
            context.tool.as_str(),
            context.method.as_str(),
            context.mutation,
            self.dispatch,
            as_optional_str(&context.thread_id),
            as_optional_str(&context.turn_id),
        )
    }

    /// Decides what a frame means for the request: notifications, other requests' replies
    /// and frames that are not text are skipped; the correlated reply marks a mutation's
    /// result as received and ends the request.
    pub fn on_frame(&mut self, context: &RequestContext, frame: IncomingFrame) -> (step: FrameStep)
        ensures
            final(self).next_request_id == old(self).next_request_id,
            final(self).compatibility_warning == old(self).compatibility_warning,
            match frame {
                IncomingFrame::Message { has_method, id, error, has_result } => if !has_method && id == Some(context.request_id) {
                    &&& final(self).dispatch == (if context.mutation { MutationDispatch::CorrelatedResultReceived } else { old(self).dispatch })
                    &&& match error {
                        Some(reply) => step matches FrameStep::Fail(e) && e.native is Some
                            && e.native->0.code == reply.code
                            && e.native->0.message@ == (match reply.message { Some(m) => m@, None => NATIVE_FALLBACK_MESSAGE@ })
                            && e.dispatch == (if context.mutation { Some(DispatchState::MayHaveBeenDispatched) } else { None })
                            && is_request_error(e, if reply.code is Some { reply.classified } else { ToolErrorCategory::NativeError },
                                context.tool@, context.method@, optional_string_view(context.thread_id), optional_string_view(context.turn_id)),
                        None => if has_result {
                            step is Deliver
                        } else {
                            step matches FrameStep::Fail(e) && is_request_error(e, transport_category(context.mutation, final(self).dispatch),
                                context.tool@, context.method@, optional_string_view(context.thread_id), optional_string_view(context.turn_id))
                                && e.native is None
                                && e.dispatch == (if context.mutation { Some(reported_dispatch(final(self).dispatch)) } else { None })
                        },
                    }
                } else {
                    step is Continue && final(self).dispatch == old(self).dispatch
                },
                IncomingFrame::Other => step is Continue && final(self).dispatch == old(self).dispatch,
                _ => final(self).dispatch == old(self).dispatch && (step matches FrameStep::Fail(e)
                    && is_request_error(e, transport_category(context.mutation, old(self).dispatch),
                        context.tool@, context.method@, optional_string_view(context.thread_id), optional_string_view(context.turn_id))
                    && e.native is None
                    && e.dispatch == (if context.mutation { Some(reported_dispatch(old(self).dispatch)) } else { None })),
            },
    {
        match frame {
            IncomingFrame::Closed | IncomingFrame::Unparseable => FrameStep::Fail(self.transport_failure(context)),
            IncomingFrame::Other => FrameStep::Continue,
            IncomingFrame::Message { has_method, id, error, has_result } => {
                if has_method {
                    return FrameStep::Continue;
                }
                match id {
                    Some(value) => {
                        if value != context.request_id {
                            return FrameStep::Continue;
                        }
                    },
                    None => {
                        return FrameStep::Continue;
                    },
                }
                if context.mutation {
                    self.dispatch = MutationDispatch::CorrelatedResultReceived;
                }
                match error {
                    Some(reply) => FrameStep::Fail(native_error(
                        context.tool.as_str(),
                        context.method.as_str(),
                        reply.code,
                        as_optional_str(&reply.message),
                        reply.classified,
                        context.mutation,
                        as_optional_str(&context.thread_id),
                        as_optional_str(&context.turn_id),
                    )),
                    None => if has_result {
                        FrameStep::Deliver
                    } else {
                        FrameStep::Fail(self.transport_failure(context))
                    },
                }
            },
        }
    }

    /// Settles the request: a result marks a mutation's result as received; a timed-out
    /// mutation becomes an unknown outcome that may have been dispatched.
    pub fn settle(&mut self, context: &RequestContext, outcome: Result<(), ToolErrorData>) -> (settled: Result<(), ToolErrorData>)
        ensures
            final(self).next_request_id == old(self).next_request_id,
            final(self).compatibility_warning == old(self).compatibility_warning,
            match outcome {
                Ok(()) => settled is Ok && final(self).dispatch == (if context.mutation { MutationDispatch::CorrelatedResultReceived } else { old(self).dispatch }),
                Err(e) => final(self).dispatch == old(self).dispatch && if context.mutation && e.category == ToolErrorCategory::StageTimeout {
                    (settled matches Err(r) && r.category == ToolErrorCategory::OutcomeUnknown
                        && r.message@ == category_message(ToolErrorCategory::OutcomeUnknown)
                        && r.tool@ == context.tool@ && r.stage == e.stage
                        && optional_string_view(r.thread_id) == optional_string_view(context.thread_id)
                        && optional_string_view(r.turn_id) == optional_string_view(context.turn_id)
                        && r.dispatch == Some(DispatchState::MayHaveBeenDispatched)
                        && r.native == e.native)
                } else {
                    settled == Err::<(), ToolErrorData>(e)
                },
            },
    {
        match outcome {
            Ok(()) => {
                if context.mutation {
                    self.dispatch = MutationDispatch::CorrelatedResultReceived;
                }
                Ok(())
            },
            Err(mut error) => {
                if context.mutation && error.category == ToolErrorCategory::StageTimeout {
                    error.category = ToolErrorCategory::OutcomeUnknown;
                    error.message = ToolErrorCategory::OutcomeUnknown.default_message().to_owned();
                    error.tool = context.tool.clone();
                    error.thread_id = clone_optional(&context.thread_id);
                    error.turn_id = clone_optional(&context.turn_id);
                    error.dispatch = Some(DispatchState::MayHaveBeenDispatched);
                }
                Err(error)
            },
        }
    }
}

fn as_optional_str(value: &Option<String>) -> (text: Option<&str>)
    ensures
        optional_view(text) == optional_string_view(*value),
{
    match value {
        Some(v) => Some(v.as_str()),
        None => None,
    }
}

fn clone_optional(value: &Option<String>) -> (copy: Option<String>)
    ensures
        optional_string_view(copy) == optional_string_view(*value),
{
    match value {
        Some(v) => Some(v.clone()),
        None => None,
    }
}

/// The connection state after a request began: the next id is taken, and a mutation may have
/// been dispatched from then on.
pub open spec fn begun(state: ConnectionState, mutation: bool) -> ConnectionState {
    ConnectionState {
        next_request_id: (state.next_request_id + 1) as u64,
        dispatch: if mutation { MutationDispatch::MayHaveBeenDispatched } else { state.dispatch },
        compatibility_warning: state.compatibility_warning,
    }
}

/// The connection state after requests began in turn, one for each entry of `mutations`
/// (whether it is a mutation). Reading frames and settling leave the next id alone.
pub open spec fn after_requests(state: ConnectionState, mutations: Seq<bool>) -> ConnectionState
    decreases mutations.len(),
{
    if mutations.len() == 0 {
        state
    } else {
        after_requests(begun(state, mutations[0]), mutations.drop_first())
    }
}

/// Request ids follow call order: the `i`-th of a run of requests takes the id `i` places
/// after the first, whatever the earlier ones came to, so no id is used twice on a connection.
pub proof fn request_ids_follow_call_order(state: ConnectionState, mutations: Seq<bool>, i: int)
    requires
        state.next_request_id + mutations.len() <= u64::MAX,
        0 <= i <= mutations.len(),
    ensures
        after_requests(state, mutations.take(i)).next_request_id == state.next_request_id + i,
    decreases mutations.len(),
{
    if i > 0 {
        let rest = mutations.drop_first();
        assert(mutations.take(i).drop_first() =~= rest.take(i - 1));
        assert(mutations.take(i)[0] == mutations[0]);
        request_ids_follow_call_order(begun(state, mutations[0]), rest, i - 1);
    } else {
        assert(mutations.take(0) =~= Seq::<bool>::empty());
    }
}

/// A transport failure reports an unknown outcome exactly for a mutation that may have been
/// dispatched and whose result did not arrive; a mutation's error always says whether it
/// may have been dispatched, and that answer is "not dispatched" only before dispatch.
pub proof fn transport_failure_outcome(mutation: bool, dispatch: MutationDispatch)
    ensures
        (transport_category(mutation, dispatch) == ToolErrorCategory::OutcomeUnknown)
            <==> (mutation && dispatch == MutationDispatch::MayHaveBeenDispatched),
        (reported_dispatch(dispatch) == DispatchState::NotDispatched) <==> (dispatch == MutationDispatch::NotDispatched),
{
}

} // verus!
