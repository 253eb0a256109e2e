use vstd::prelude::*;

verus! {

/// An opaque JSON value carried through error data without inspection.
#[verifier::external_type_specification]
#[verifier::external_body]
pub struct ExJsonValue(serde_json::Value);

/// Errors of the controller commands.
#[derive(Debug)]
pub enum ControllerError {
    Operational(String),
    InvalidData { field: &'static str, reason: &'static str },
}

/// The text that a controller error displays.
pub open spec fn controller_error_text(error: ControllerError) -> Seq<char> {
    match error {
        ControllerError::Operational(message) => message@,
        ControllerError::InvalidData { field, reason } => "invalid "@ + field@ + ": "@ + reason@,
    }
}

impl ControllerError {
    /// Every controller error exits with status 1.
    pub fn exit_code(&self) -> (code: u8)
        ensures
            code == 1,
    {
        1
    }

    /// The message that the error displays to the user.
    pub fn message(&self) -> (text: String)
        ensures
            text@ == controller_error_text(*self),
    {
        match self {
            ControllerError::Operational(message) => message.clone(),
            ControllerError::InvalidData { field, reason } => {
                let mut text = String::from_str("invalid ");
                text.append(field);
                text.append(": ");
                text.append(reason);
                text
            },
        }
    }
}

/// The public category of a tool error.
#[derive(Clone, Copy, Debug, PartialEq, Eq, Structural)]
pub enum ToolErrorCategory {
    InvalidRequest,
    PolicyRejected,
    TargetUnavailable,
    AuthorityTransportFailure,
    StageTimeout,
    NativeConflict,
    NativeError,
    OutcomeUnknown,
}

/// The fixed message of each category; no message carries request data.
pub open spec fn category_message(category: ToolErrorCategory) -> Seq<char> {
    match category {
        ToolErrorCategory::InvalidRequest => "request validation failed"@,
        ToolErrorCategory::PolicyRejected => "request rejected by session-control policy"@,
        ToolErrorCategory::TargetUnavailable => "target is unavailable"@,
        ToolErrorCategory::AuthorityTransportFailure => "app-server transport failed"@,
        ToolErrorCategory::StageTimeout => "native stage timed out"@,
        ToolErrorCategory::NativeConflict => "native state conflicts with the request"@,
        ToolErrorCategory::NativeError => "native app-server request failed"@,
        ToolErrorCategory::OutcomeUnknown =>
            "Mutation outcome is unknown. The request may already have been applied."@,
    }
}

impl ToolErrorCategory {
    pub fn default_message(self) -> (message: &'static str)
        ensures
            message@ == category_message(self),
    {
        match self {
            ToolErrorCategory::InvalidRequest => "request validation failed",
            ToolErrorCategory::PolicyRejected => "request rejected by session-control policy",
            ToolErrorCategory::TargetUnavailable => "target is unavailable",
            ToolErrorCategory::AuthorityTransportFailure => "app-server transport failed",
            ToolErrorCategory::StageTimeout => "native stage timed out",
            ToolErrorCategory::NativeConflict => "native state conflicts with the request",
            ToolErrorCategory::NativeError => "native app-server request failed",
            ToolErrorCategory::OutcomeUnknown =>
                "Mutation outcome is unknown. The request may already have been applied.",
        }
    }
}

/// The native error that the app-server reported.
#[derive(Clone, Debug, PartialEq)]
pub struct NativeErrorSummary {
    pub code: Option<i64>,
    pub message: String,
}

/// Whether a mutation may have reached the app-server.
#[derive(Clone, Copy, Debug, PartialEq, Eq, Structural)]
pub enum DispatchState {
    NotDispatched,
    MayHaveBeenDispatched,
}

/// The structured data of a tool error.
#[derive(Clone, Debug, PartialEq)]
pub struct ToolErrorData {
    pub category: ToolErrorCategory,
    pub message: String,
    pub tool: String,
    pub stage: String,
    pub thread_id: Option<String>,
    pub turn_id: Option<String>,
    pub native: Option<NativeErrorSummary>,
    pub dispatch: Option<DispatchState>,
    pub observation: Option<serde_json::Value>,
    pub reconciliation_error: Option<String>,
}

impl ToolErrorData {
    /// Holds exactly the category, its fixed message, the tool and the stage, and no context.
    pub open spec fn is_fixed(self, category: ToolErrorCategory, tool: Seq<char>, stage: Seq<char>) -> bool {
        &&& self.category == category
        &&& self.message@ == category_message(category)
        &&& self.tool@ == tool
        &&& self.stage@ == stage
        &&& self.thread_id is None
        &&& self.turn_id is None
        &&& self.native is None
        &&& self.dispatch is None
        &&& self.observation is None
        &&& self.reconciliation_error is None
    }

    pub fn fixed(category: ToolErrorCategory, tool: &str, stage: &str) -> (error: Self)
        ensures
            error.is_fixed(category, tool@, stage@),
    {
        ToolErrorData {
            category,
            message: category.default_message().to_owned(),
            tool: tool.to_owned(),
            stage: stage.to_owned(),
            thread_id: None,
            turn_id: None,
            native: None,
            dispatch: None,
            observation: None,
            reconciliation_error: None,
        }
    }
}

} // verus!
