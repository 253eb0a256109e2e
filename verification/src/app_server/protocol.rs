//! Reading the app-server's JSON frames, and the native errors that the protocol fixture of
//! the supported Codex version singles out.
use vstd::prelude::*;

use super::{initialize_decision, initialize_outcome, optional_string_view, optional_view, IncomingFrame, NativeErrorReply};
use crate::error::ToolErrorData;
use crate::error::ToolErrorCategory;

verus! {

/// One error exemplar of the protocol fixture, held against a native error: its name, its
/// code, and whether its `data` equals the native error's `data`.
pub struct ErrorExemplar {
    pub name: String,
    pub code: Option<i64>,
    pub same_data: bool,
}

pub struct ExemplarView {
    pub name: Seq<char>,
    pub code: Option<i64>,
    pub same_data: bool,
}

impl View for ErrorExemplar {
    type V = ExemplarView;

    open spec fn view(&self) -> ExemplarView {
        ExemplarView { name: self.name@, code: self.code, same_data: self.same_data }
    }
}

/// The first exemplar of the fixture with this name.
pub open spec fn exemplar_named(exemplars: Seq<ExemplarView>, name: Seq<char>) -> Option<ExemplarView>
    decreases exemplars.len(),
{
    if exemplars.len() == 0 {
        None
    } else if exemplars[0].name == name {
        Some(exemplars[0])
    } else {
        exemplar_named(exemplars.drop_first(), name)
    }
}

/// Whether a native error of `method` with `code` is the exemplar `name`, which the fixture
/// recorded for `exemplar_method`: same method, same code and same data.
pub open spec fn is_exemplar_error(
    method: Seq<char>,
    code: i64,
    exemplars: Seq<ExemplarView>,
    name: Seq<char>,
    exemplar_method: Seq<char>,
) -> bool {
    match exemplar_named(exemplars, name) {
        Some(exemplar) => method == exemplar_method && exemplar.code == Some(code) && exemplar.same_data,
        None => false,
    }
}

/// The category of a coded native error: a missing thread on `thread/read` and an active-turn
/// mismatch on `turn/steer` where the error is exactly the fixture's exemplar, a plain native
/// error otherwise. The message plays no part.
pub open spec fn native_error_category(method: Seq<char>, code: i64, exemplars: Seq<ExemplarView>) -> ToolErrorCategory {
    if is_exemplar_error(method, code, exemplars, "threadNotFound"@, "thread/read"@) {
        ToolErrorCategory::TargetUnavailable
    } else if is_exemplar_error(method, code, exemplars, "activeTurnMismatch"@, "turn/steer"@) {
        ToolErrorCategory::NativeConflict
    } else {
        ToolErrorCategory::NativeError
    }
}

/// The first exemplar with this name, by its index.
fn find_exemplar(exemplars: &[ErrorExemplar], name: &str) -> (found: Option<usize>)
    ensures
        match found {
            Some(i) => i < exemplars@.len() && exemplar_named(exemplars@.map_values(|e: ErrorExemplar| e@), name@)
                == Some(exemplars@[i as int]@),
            None => exemplar_named(exemplars@.map_values(|e: ErrorExemplar| e@), name@) is None,
        },
{
    let ghost all = exemplars@.map_values(|e: ErrorExemplar| e@);
    let mut i: usize = 0;
    assert(all.skip(0) =~= all);
    while i < exemplars.len()
        invariant
            0 <= i <= exemplars@.len(),
            all == exemplars@.map_values(|e: ErrorExemplar| e@),
            exemplar_named(all, name@) == exemplar_named(all.skip(i as int), name@),
        decreases exemplars@.len() - i,
    {
        let ghost rest = all.skip(i as int);
        assert(rest[0] == exemplars@[i as int]@);
        assert(rest.drop_first() =~= all.skip(i + 1));
        if exemplars[i].name.as_str().to_owned() == name.to_owned() {
            return Some(i);
        }
        i = i + 1;
    }
    assert(all.skip(i as int) =~= Seq::<ExemplarView>::empty());
    None
}

/// Whether a native error of `method` with `code` is the exemplar `name` recorded for
/// `exemplar_method`.
fn exemplar_error(method: &str, code: i64, exemplars: &[ErrorExemplar], name: &str, exemplar_method: &str) -> (r: bool)
    ensures
        r == is_exemplar_error(method@, code, exemplars@.map_values(|e: ErrorExemplar| e@), name@, exemplar_method@),
{
    match find_exemplar(exemplars, name) {
        Some(i) => {
            let exemplar = &exemplars[i];
            method.to_owned() == exemplar_method.to_owned() && exemplar.code == Some(code) && exemplar.same_data
        },
        None => false,
    }
}

/// The category that the fixture's exemplars give a coded native error of `method`.
pub fn classify_native_error(method: &str, code: i64, exemplars: &[ErrorExemplar]) -> (category: ToolErrorCategory)
    ensures
        category == native_error_category(method@, code, exemplars@.map_values(|e: ErrorExemplar| e@)),
{
    if exemplar_error(method, code, exemplars, "threadNotFound", "thread/read") {
        ToolErrorCategory::TargetUnavailable
    } else if exemplar_error(method, code, exemplars, "activeTurnMismatch", "turn/steer") {
        ToolErrorCategory::NativeConflict
    } else {
        ToolErrorCategory::NativeError
    }
}

/// The fields of a frame's text that the exchange reads, as `serde_json` reads the text: `None`
/// where it is not JSON; otherwise whether it has a `method`, whether it has an `id`, that
/// `id` where it is an unsigned integer, its `error` (the `code` where it is an integer and the `message` where
/// it is a string) and whether it has a `result`.
pub uninterp spec fn json_frame_fields(text: Seq<char>) -> Option<
    (bool, bool, Option<u64>, Option<(Option<i64>, Option<Seq<char>>)>, bool),
>;

/// The fields that the wrapper hands back, by their views.
pub open spec fn frame_fields_view(
    fields: Option<(bool, bool, Option<u64>, Option<(Option<i64>, Option<String>)>, bool)>,
) -> Option<(bool, bool, Option<u64>, Option<(Option<i64>, Option<Seq<char>>)>, bool)> {
    match fields {
        None => None,
        Some((has_method, has_id, id, error, has_result)) => Some(
            (
                has_method,
                has_id,
                id,
                match error {
                    None => None,
                    Some((code, message)) => Some((code, optional_string_view(message))),
                },
                has_result,
            ),
        ),
    }
}

/// `serde_json::from_str::<Value>` on a frame's text, then the fields that the exchange reads
/// picked off the value with `get`, `as_u64`, `as_i64` and `as_str`. The result is named
/// (`json_frame_fields`): `serde_json`'s grammar is not restated here.
#[verifier::external_body]
pub(crate) fn read_frame_fields(text: &str) -> (fields: Option<
    (bool, bool, Option<u64>, Option<(Option<i64>, Option<String>)>, bool),
>)
    ensures
        frame_fields_view(fields) == json_frame_fields(text@),
{
    let value: serde_json::Value = serde_json::from_str(text).ok()?;
    let error = value.get("error").map(
        |error| (error.get("code").and_then(serde_json::Value::as_i64), error.get("message").and_then(serde_json::Value::as_str).map(str::to_owned)),
    );
    let id = value.get("id");
    Some((value.get("method").is_some(), id.is_some(), id.and_then(serde_json::Value::as_u64), error, value.get("result").is_some()))
}

/// Whether a text frame, read as `fields` for a request of `method`, is what `frame` says:
/// unparseable text where it is not JSON, otherwise a message with its fields, whose native
/// error (if any) keeps its code and message and is classified by the fixture's exemplars
/// where it has a code.
pub open spec fn is_frame_of(
    frame: IncomingFrame,
    fields: Option<(bool, bool, Option<u64>, Option<(Option<i64>, Option<Seq<char>>)>, bool)>,
    method: Seq<char>,
    exemplars: Seq<ExemplarView>,
) -> bool {
    match fields {
        None => frame is Unparseable,
        Some((has_method, _, id, error, has_result)) => match frame {
            IncomingFrame::Message { has_method: m, id: i, error: e, has_result: r } => {
                &&& m == has_method
                &&& i == id
                &&& r == has_result
                &&& match error {
                    None => e is None,
                    Some((code, message)) => e matches Some(reply) && reply.code == code
                        && optional_string_view(reply.message) == message
                        && reply.classified == match code {
                            Some(c) => native_error_category(method, c, exemplars),
                            None => ToolErrorCategory::NativeError,
                        },
                }
            },
            _ => false,
        },
    }
}

/// Reads a text frame of the app-server for a request of `method`.
pub fn decode_frame(text: &str, method: &str, exemplars: &[ErrorExemplar]) -> (frame: IncomingFrame)
    ensures
        is_frame_of(frame, json_frame_fields(text@), method@, exemplars@.map_values(|e: ErrorExemplar| e@)),
{
    match read_frame_fields(text) {
        None => IncomingFrame::Unparseable,
        Some((has_method, _, id, error, has_result)) => {
            let error = match error {
                None => None,
                Some((code, message)) => {
                    let classified = match code {
                        Some(c) => classify_native_error(method, c, exemplars),
                        None => ToolErrorCategory::NativeError,
                    };
                    Some(NativeErrorReply { code, message, classified })
                },
            };
            IncomingFrame::Message { has_method, id, error, has_result }
        },
    }
}

/// Whether a frame's text is a notification: a message with a `method` and no `id`; `None`
/// where the text is not JSON.
pub fn is_notification(text: &str) -> (notification: Option<bool>)
    ensures
        notification == match json_frame_fields(text@) {
            None => None,
            Some((has_method, has_id, _, _, _)) => Some(has_method && !has_id),
        },
{
    match read_frame_fields(text) {
        None => None,
        Some((has_method, has_id, _, _, _)) => Some(has_method && !has_id),
    }
}

/// The `codexHome` and `userAgent` strings of the `result` of an `initialize` reply's text,
/// as `serde_json` reads it; absent where the text is not JSON or a field is no string.
pub uninterp spec fn json_initialize_fields(text: Seq<char>) -> (Option<Seq<char>>, Option<Seq<char>>);

/// `serde_json::from_str::<Value>` on the reply's text, then `result.codexHome` and
/// `result.userAgent` picked off with `get` and `as_str`. The result is named
/// (`json_initialize_fields`): `serde_json`'s grammar is not restated here.
#[verifier::external_body]
pub(crate) fn read_initialize_fields(text: &str) -> (fields: (Option<String>, Option<String>))
    ensures
        (optional_string_view(fields.0), optional_string_view(fields.1)) == json_initialize_fields(text@),
{
    let value: Option<serde_json::Value> = serde_json::from_str(text).ok();
    let result = value.as_ref().and_then(|value| value.get("result"));
    let home = result.and_then(|result| result.get("codexHome")).and_then(serde_json::Value::as_str);
    let agent = result.and_then(|result| result.get("userAgent")).and_then(serde_json::Value::as_str);
    (home.map(str::to_owned), agent.map(str::to_owned))
}

/// What `initialize` decides from the text of the app-server's reply: the Codex home and the
/// user agent are read off its result, then judged by `initialize_decision`.
pub fn initialize_reply(text: &str, tested: &str) -> (outcome: Result<Option<String>, ToolErrorData>)
    ensures
        match outcome {
            Ok(warning) => initialize_decision(json_initialize_fields(text@).0, json_initialize_fields(text@).1, tested@)
                == Some(optional_string_view(warning)),
            Err(error) => initialize_decision(json_initialize_fields(text@).0, json_initialize_fields(text@).1, tested@) is None
                && error.is_fixed(ToolErrorCategory::TargetUnavailable, "initialize"@, "initialize"@),
        },
{
    let (home, agent) = read_initialize_fields(text);
    let home_text: Option<&str> = match &home {
        Some(h) => Some(h.as_str()),
        None => None,
    };
    let agent_text: Option<&str> = match &agent {
        Some(a) => Some(a.as_str()),
        None => None,
    };
    proof {
        assert(optional_view(home_text) == optional_string_view(home));
        assert(optional_view(agent_text) == optional_string_view(agent));
    }
    initialize_outcome(home_text, agent_text, tested)
}

/// A request that is no mutation never ends in an unknown outcome: its transport failures
/// are plain transport failures (and carry no dispatch state, by `on_frame` and
/// `transport_failure`), and a coded native error read from a frame is a missing target, a
/// conflict or a plain native error.
pub proof fn plain_requests_never_report_unknown_outcomes(
    dispatch: super::MutationDispatch,
    method: Seq<char>,
    code: i64,
    exemplars: Seq<ExemplarView>,
)
    ensures
        super::transport_category(false, dispatch) == ToolErrorCategory::AuthorityTransportFailure,
        native_error_category(method, code, exemplars) == ToolErrorCategory::TargetUnavailable
            || native_error_category(method, code, exemplars) == ToolErrorCategory::NativeConflict
            || native_error_category(method, code, exemplars) == ToolErrorCategory::NativeError,
{
}

} // verus!
