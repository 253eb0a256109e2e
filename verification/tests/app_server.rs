use codex_session_control::app_server::endpoint_policy::{
    classify_thread_storage, extract_codex_version, owned_private_directory, owned_private_socket,
    InitializedIdentity, ThreadStorage,
};
use codex_session_control::app_server::{
    initialize_outcome, invalid_request, native_error, request_transport_error, transport_error,
    AppServerClient, ConnectionState, EndpointSource, FrameStep, IncomingFrame, MutationDispatch,
    NativeErrorReply, RequestContext, TESTED_CODEX_VERSION,
};
use codex_session_control::app_server::protocol::{
    classify_native_error, decode_frame, initialize_reply, is_notification, ErrorExemplar,
};
use codex_session_control::error::{DispatchState, ToolErrorCategory, ToolErrorData};

fn context(mutation: bool, request_id: u64) -> RequestContext {
    RequestContext {
        tool: "message_send".to_owned(),
        method: "turn/steer".to_owned(),
        mutation,
        thread_id: Some("thread-1".to_owned()),
        turn_id: Some("turn-expected".to_owned()),
        request_id,
    }
}

fn reply(id: u64) -> IncomingFrame {
    IncomingFrame::Message { has_method: false, id: Some(id), error: None, has_result: true }
}

#[test]
fn desktop_client_uses_the_tested_codex_version() {
    let client = AppServerClient::desktop();
    assert!(matches!(client.endpoint_source, EndpointSource::Desktop));
    assert_eq!(client.tested_codex_version, TESTED_CODEX_VERSION);
    assert_eq!(client.product_version, "0.1.0");
    let fixed = AppServerClient::for_test(b"/tmp/app-server.sock".to_vec(), "0.146.0");
    assert!(matches!(fixed.endpoint_source, EndpointSource::Fixed(ref path) if path == b"/tmp/app-server.sock"));
    assert_eq!(fixed.tested_codex_version, "0.146.0");
}

#[test]
fn codex_version_is_the_first_candidate_that_parses() {
    assert_eq!(
        extract_codex_version("codex_cli_rs/0.150.0-alpha.12.2 (Linux 6.8; x86_64) xterm"),
        Some("0.150.0-alpha.12.2".to_owned())
    );
    assert_eq!(extract_codex_version("agent 01.2.3 then 1.2.3+build.5"), Some("1.2.3+build.5".to_owned()));
    assert_eq!(extract_codex_version("no version here"), None);
    assert_eq!(extract_codex_version(""), None);
}

#[test]
fn identity_keeps_only_absolute_homes_and_parsed_versions() {
    let identity = InitializedIdentity::from_initialize(Some("/home/test/.codex"), Some("codex 0.150.0"));
    assert_eq!(identity.ordinary_codex_home().map(String::as_str), Some("/home/test/.codex"));
    assert_eq!(identity.reported_version().map(String::as_str), Some("0.150.0"));
    assert_eq!(identity.recovery_home("0.150.0"), Ok("/home/test/.codex".to_owned()));
    assert_eq!(identity.recovery_home("0.151.0"), Err("version_unsupported"));

    let relative = InitializedIdentity::from_initialize(Some("relative"), Some("codex 0.150.0"));
    assert!(relative.ordinary_codex_home().is_none());
    assert_eq!(relative.recovery_home("0.150.0"), Err("identity_unverified"));

    let unnormalized = InitializedIdentity::from_initialize(Some("/home/test/../.codex"), Some("codex 0.150.0"));
    assert_eq!(unnormalized.recovery_home("0.150.0"), Err("identity_unverified"));

    let unversioned = InitializedIdentity::from_initialize(Some("/home/test/.codex"), None);
    assert_eq!(unversioned.recovery_home("0.150.0"), Err("identity_unverified"));
}

#[test]
fn thread_storage_is_classified_by_the_directory_under_the_home() {
    let home = b"/home/test/.codex";
    assert_eq!(
        classify_thread_storage(home, "thread-1", Some("thread-1"), b"/home/test/.codex/sessions/2026/01/rollout.jsonl"),
        Ok(ThreadStorage::Active)
    );
    assert_eq!(
        classify_thread_storage(home, "thread-1", Some("thread-1"), b"/home/test/.codex/archived_sessions/rollout.jsonl"),
        Ok(ThreadStorage::Archived)
    );
    assert_eq!(
        classify_thread_storage(home, "thread-1", Some("thread-2"), b"/home/test/.codex/sessions/rollout.jsonl"),
        Err("mismatched_id")
    );
    assert_eq!(classify_thread_storage(home, "thread-1", None, b"/home/test/.codex/sessions/r"), Err("mismatched_id"));
    for path in [
        b"relative/sessions/rollout.jsonl".as_slice(),
        b"/elsewhere/sessions/rollout.jsonl".as_slice(),
        b"/home/test/.codex/sessions".as_slice(),
        b"/home/test/.codex/other/rollout.jsonl".as_slice(),
        b"/home/test/.codex/sessions/../rollout.jsonl".as_slice(),
        b"/home/test/.codex/sessions/archived_sessions/rollout.jsonl".as_slice(),
    ] {
        assert_eq!(classify_thread_storage(home, "thread-1", Some("thread-1"), path), Err("unclassifiable_storage"));
    }
}

#[test]
fn private_file_predicates_take_the_file_type_as_given() {
    assert!(owned_private_directory(1000, 0o700, 1000, true));
    assert!(!owned_private_directory(1000, 0o700, 1000, false));
    assert!(!owned_private_directory(1000, 0o750, 1000, true));
    assert!(owned_private_socket(1000, 0o600, 1000, true));
    assert!(owned_private_socket(1000, 0o700, 1000, true));
    assert!(!owned_private_socket(1001, 0o600, 1000, true));
}

#[test]
fn transport_failures_are_unknown_outcomes_only_for_dispatched_mutations() {
    let error = request_transport_error("thread_set_name", "thread/name/set", true, MutationDispatch::MayHaveBeenDispatched, Some("thread-1"), None);
    assert_eq!(error.category, ToolErrorCategory::OutcomeUnknown);
    assert_eq!(error.message, "Mutation outcome is unknown. The request may already have been applied.");
    assert_eq!(error.dispatch, Some(DispatchState::MayHaveBeenDispatched));
    assert_eq!(error.thread_id.as_deref(), Some("thread-1"));

    let error = request_transport_error("thread_set_name", "thread/name/set", true, MutationDispatch::NotDispatched, None, None);
    assert_eq!(error.category, ToolErrorCategory::AuthorityTransportFailure);
    assert_eq!(error.dispatch, Some(DispatchState::NotDispatched));

    let error = request_transport_error("thread_set_name", "thread/name/set", true, MutationDispatch::CorrelatedResultReceived, None, None);
    assert_eq!(error.category, ToolErrorCategory::AuthorityTransportFailure);
    assert_eq!(error.dispatch, Some(DispatchState::MayHaveBeenDispatched));

    let error = request_transport_error("thread_read", "thread/read", false, MutationDispatch::MayHaveBeenDispatched, None, None);
    assert_eq!(error.category, ToolErrorCategory::AuthorityTransportFailure);
    assert_eq!(error.dispatch, None);

    let error = transport_error("connect");
    assert_eq!(error.tool, "native_transport");
    assert_eq!(error.stage, "connect");
    let error = invalid_request("limit", "limit", None, Some("turn-1"));
    assert_eq!(error.category, ToolErrorCategory::InvalidRequest);
    assert_eq!(error.turn_id.as_deref(), Some("turn-1"));
}

#[test]
fn native_errors_keep_code_and_message() {
    let error = native_error("message_send", "turn/steer", Some(-32600), Some("activeTurnMismatch"), ToolErrorCategory::NativeConflict, true, Some("thread-1"), None);
    assert_eq!(error.category, ToolErrorCategory::NativeConflict);
    let native = error.native.clone().unwrap();
    assert_eq!(native.code, Some(-32600));
    assert_eq!(native.message, "activeTurnMismatch");
    assert_eq!(error.dispatch, Some(DispatchState::MayHaveBeenDispatched));

    let error = native_error("thread_read", "thread/read", None, None, ToolErrorCategory::NativeConflict, false, None, None);
    assert_eq!(error.category, ToolErrorCategory::NativeError);
    assert_eq!(error.native.unwrap().message, "native app-server request failed");
    assert_eq!(error.dispatch, None);
}

#[test]
fn request_ids_correlate_across_notifications() {
    let mut state = ConnectionState::new();
    let id = state.begin_request(false);
    assert_eq!(id, 1);
    assert_eq!(state.next_request_id, 2);
    let ctx = context(false, id);
    let notification = IncomingFrame::Message { has_method: true, id: None, error: None, has_result: false };
    assert!(matches!(state.on_frame(&ctx, notification), FrameStep::Continue));
    assert!(matches!(state.on_frame(&ctx, reply(7)), FrameStep::Continue));
    assert!(matches!(state.on_frame(&ctx, IncomingFrame::Other), FrameStep::Continue));
    assert!(matches!(state.on_frame(&ctx, reply(1)), FrameStep::Deliver));
    assert_eq!(state.dispatch, MutationDispatch::NotDispatched);
}

#[test]
fn correlated_native_error_marks_the_mutation_result_received() {
    let mut state = ConnectionState::new();
    let id = state.begin_request(true);
    assert_eq!(state.dispatch, MutationDispatch::MayHaveBeenDispatched);
    let ctx = context(true, id);
    let frame = IncomingFrame::Message {
        has_method: false,
        id: Some(id),
        error: Some(NativeErrorReply { code: Some(-32600), message: Some("activeTurnMismatch".to_owned()), classified: ToolErrorCategory::NativeConflict }),
        has_result: false,
    };
    match state.on_frame(&ctx, frame) {
        FrameStep::Fail(error) => {
            assert_eq!(error.category, ToolErrorCategory::NativeConflict);
            assert_eq!(error.dispatch, Some(DispatchState::MayHaveBeenDispatched));
            assert_eq!(error.turn_id.as_deref(), Some("turn-expected"));
        },
        other => panic!("{other:?}"),
    }
    assert_eq!(state.dispatch, MutationDispatch::CorrelatedResultReceived);
}

#[test]
fn a_closed_stream_during_a_mutation_has_an_unknown_outcome() {
    let mut state = ConnectionState::new();
    let id = state.begin_request(true);
    let ctx = context(true, id);
    match state.on_frame(&ctx, IncomingFrame::Closed) {
        FrameStep::Fail(error) => {
            assert_eq!(error.category, ToolErrorCategory::OutcomeUnknown);
            assert_eq!(error.dispatch, Some(DispatchState::MayHaveBeenDispatched));
            assert!(error.native.is_none());
        },
        other => panic!("{other:?}"),
    }
    let error = state.transport_failure(&ctx);
    assert_eq!(error.category, ToolErrorCategory::OutcomeUnknown);

    let read_id = state.begin_request(false);
    let read = context(false, read_id);
    match state.on_frame(&read, IncomingFrame::Unparseable) {
        FrameStep::Fail(error) => {
            assert_eq!(error.category, ToolErrorCategory::AuthorityTransportFailure);
            assert_eq!(error.dispatch, None);
        },
        other => panic!("{other:?}"),
    }
    match state.on_frame(&read, IncomingFrame::Message { has_method: false, id: Some(read_id), error: None, has_result: false }) {
        FrameStep::Fail(error) => {
            assert_eq!(error.category, ToolErrorCategory::AuthorityTransportFailure);
            assert_eq!(error.dispatch, None);
        },
        other => panic!("{other:?}"),
    }
}

#[test]
fn a_timed_out_mutation_becomes_an_unknown_outcome() {
    let mut state = ConnectionState::new();
    let id = state.begin_request(true);
    let ctx = context(true, id);
    let timeout = ToolErrorData::fixed(ToolErrorCategory::StageTimeout, "turn/steer", "turn/steer");
    let settled = state.settle(&ctx, Err(timeout)).unwrap_err();
    assert_eq!(settled.category, ToolErrorCategory::OutcomeUnknown);
    assert_eq!(settled.tool, "message_send");
    assert_eq!(settled.stage, "turn/steer");
    assert_eq!(settled.dispatch, Some(DispatchState::MayHaveBeenDispatched));
    assert_eq!(settled.thread_id.as_deref(), Some("thread-1"));

    let read = context(false, 2);
    let timeout = ToolErrorData::fixed(ToolErrorCategory::StageTimeout, "thread/read", "thread/read");
    let settled = state.settle(&read, Err(timeout)).unwrap_err();
    assert_eq!(settled.category, ToolErrorCategory::StageTimeout);
    assert!(state.settle(&ctx, Ok(())).is_ok());
    assert_eq!(state.dispatch, MutationDispatch::CorrelatedResultReceived);
}

#[test]
fn tested_version_has_no_warning() {
    assert_eq!(initialize_outcome(Some("/home/test/.codex"), Some("codex_cli_rs/0.150.0-alpha.12.2"), TESTED_CODEX_VERSION).unwrap(), None);
}

#[test]
fn untested_version_warns_and_invalid_home_is_refused() {
    let warning = initialize_outcome(Some("/home/test/.codex"), Some("codex_cli_rs/0.146.0"), "0.150.0").unwrap().unwrap();
    assert_eq!(
        warning,
        "WARNING: Target Codex 0.146.0 is untested. Codex session control was validated against Codex 0.150.0. Report this warning to the operator. The accompanying structured data remains authoritative."
    );
    let warning = initialize_outcome(Some("/home/test/.codex"), None, "0.150.0").unwrap().unwrap();
    assert!(warning.starts_with("WARNING: Target Codex unknown is untested."));
    for home in [None, Some(""), Some("/tmp/../relative".trim_start_matches('/'))] {
        let error = initialize_outcome(home, Some("codex 0.150.0"), "0.150.0").unwrap_err();
        assert_eq!(error.category, ToolErrorCategory::TargetUnavailable);
        assert_eq!(error.stage, "initialize");
    }
}

fn exemplar(name: &str, code: i64, same_data: bool) -> ErrorExemplar {
    ErrorExemplar { name: name.to_owned(), code: Some(code), same_data }
}

#[test]
fn only_exact_exemplar_errors_receive_special_categories() {
    let fixture = vec![exemplar("threadNotFound", -32001, true), exemplar("activeTurnMismatch", -32002, true)];
    assert_eq!(classify_native_error("thread/read", -32001, &fixture), ToolErrorCategory::TargetUnavailable);
    assert_eq!(classify_native_error("turn/steer", -32002, &fixture), ToolErrorCategory::NativeConflict);
    assert_eq!(classify_native_error("thread/list", -32001, &fixture), ToolErrorCategory::NativeError);
    assert_eq!(classify_native_error("thread/metadata/update", -32001, &fixture), ToolErrorCategory::NativeError);
    assert_eq!(classify_native_error("thread/read", -32002, &fixture), ToolErrorCategory::NativeError);
    assert_eq!(classify_native_error("turn/steer", -32001, &fixture), ToolErrorCategory::NativeError);

    let different_data = vec![exemplar("threadNotFound", -32001, false)];
    assert_eq!(classify_native_error("thread/read", -32001, &different_data), ToolErrorCategory::NativeError);

    let uncoded = vec![ErrorExemplar { name: "threadNotFound".to_owned(), code: None, same_data: true }];
    assert_eq!(classify_native_error("thread/read", -32001, &uncoded), ToolErrorCategory::NativeError);

    assert_eq!(classify_native_error("thread/read", -32001, &[]), ToolErrorCategory::NativeError);

    let first_wins = vec![exemplar("threadNotFound", -1, true), exemplar("threadNotFound", -32001, true)];
    assert_eq!(classify_native_error("thread/read", -32001, &first_wins), ToolErrorCategory::NativeError);
    assert_eq!(classify_native_error("thread/read", -1, &first_wins), ToolErrorCategory::TargetUnavailable);
}

#[test]
fn request_ids_follow_call_order_whatever_earlier_requests_came_to() {
    let mut state = ConnectionState::new();
    let first = state.begin_request(false);
    let first_context = context(false, first);
    assert!(matches!(state.on_frame(&first_context, IncomingFrame::Closed), FrameStep::Fail(_)));
    let second = state.begin_request(true);
    let second_context = context(true, second);
    let _ = state.settle(&second_context, Err(ToolErrorData::fixed(ToolErrorCategory::StageTimeout, "turn/steer", "turn/steer")));
    let third = state.begin_request(false);
    assert_eq!((first, second, third), (1, 2, 3));
    assert_eq!(state.next_request_id, 4);
}

#[test]
fn frames_are_read_from_their_json_text() {
    match decode_frame(r#"{"id":7,"result":{"ok":true}}"#, "thread/read", &[]) {
        IncomingFrame::Message { has_method, id, error, has_result } => {
            assert!(!has_method);
            assert_eq!(id, Some(7));
            assert!(error.is_none());
            assert!(has_result);
        },
        other => panic!("{other:?}"),
    }
    match decode_frame(r#"{"method":"turn/started","params":{}}"#, "thread/read", &[]) {
        IncomingFrame::Message { has_method, id, has_result, .. } => {
            assert!(has_method);
            assert_eq!(id, None);
            assert!(!has_result);
        },
        other => panic!("{other:?}"),
    }
    let fixture = vec![exemplar("threadNotFound", -32001, true)];
    match decode_frame(r#"{"id":3,"error":{"code":-32001,"message":"no such thread"}}"#, "thread/read", &fixture) {
        IncomingFrame::Message { id, error: Some(reply), .. } => {
            assert_eq!(id, Some(3));
            assert_eq!(reply.code, Some(-32001));
            assert_eq!(reply.message.as_deref(), Some("no such thread"));
            assert_eq!(reply.classified, ToolErrorCategory::TargetUnavailable);
        },
        other => panic!("{other:?}"),
    }
    match decode_frame(r#"{"id":3,"error":{"message":7}}"#, "thread/read", &fixture) {
        IncomingFrame::Message { error: Some(reply), .. } => {
            assert_eq!(reply.code, None);
            assert_eq!(reply.message, None);
            assert_eq!(reply.classified, ToolErrorCategory::NativeError);
        },
        other => panic!("{other:?}"),
    }
    match decode_frame(r#"{"id":-1,"result":null}"#, "thread/read", &[]) {
        IncomingFrame::Message { id, has_result, .. } => {
            assert_eq!(id, None);
            assert!(has_result);
        },
        other => panic!("{other:?}"),
    }
    assert!(matches!(decode_frame("not json", "thread/read", &[]), IncomingFrame::Unparseable));
    assert!(matches!(decode_frame(r#"{"id":1"#, "thread/read", &[]), IncomingFrame::Unparseable));
}

#[test]
fn notifications_have_a_method_and_no_id() {
    assert_eq!(is_notification(r#"{"method":"thread/started","params":{}}"#), Some(true));
    assert_eq!(is_notification(r#"{"method":"item/request","id":"abc"}"#), Some(false));
    assert_eq!(is_notification(r#"{"id":2,"result":{}}"#), Some(false));
    assert_eq!(is_notification("[1, 2"), None);
}

#[test]
fn initialize_replies_are_judged_by_their_result() {
    let tested = TESTED_CODEX_VERSION;
    let same = format!(r#"{{"id":1,"result":{{"codexHome":"/home/u/.codex","userAgent":"codex_cli_rs/{tested} (Linux)"}}}}"#);
    assert_eq!(initialize_reply(&same, tested).unwrap(), None);
    let other = r#"{"id":1,"result":{"codexHome":"/home/u/.codex","userAgent":"codex_cli_rs/0.1.0"}}"#;
    let warning = initialize_reply(other, tested).unwrap().unwrap();
    assert!(warning.starts_with("WARNING: Target Codex 0.1.0 is untested."));
    let relative = r#"{"id":1,"result":{"codexHome":"home/.codex"}}"#;
    assert_eq!(initialize_reply(relative, tested).unwrap_err().category, ToolErrorCategory::TargetUnavailable);
    assert_eq!(initialize_reply("{}", tested).unwrap_err().category, ToolErrorCategory::TargetUnavailable);
    assert_eq!(initialize_reply("garbage", tested).unwrap_err().stage, "initialize");
}

#[test]
fn params_that_do_not_serialize_take_no_request_id() {
    let mut state = ConnectionState::new();
    let refused = state.start_request(false, "message_send", "turn/steer", true, Some("thread-1"), None).unwrap_err();
    assert_eq!(refused.category, ToolErrorCategory::InvalidRequest);
    assert_eq!(refused.stage, "turn/steer");
    assert_eq!(refused.thread_id.as_deref(), Some("thread-1"));
    assert_eq!(refused.dispatch, None);
    assert_eq!(state.next_request_id, 1);
    assert_eq!(state.dispatch, MutationDispatch::NotDispatched);
    assert_eq!(state.start_request(true, "thread_read", "thread/read", false, None, None).unwrap(), 1);
    assert_eq!(state.start_request(true, "message_send", "turn/steer", true, None, None).unwrap(), 2);
    assert_eq!(state.dispatch, MutationDispatch::MayHaveBeenDispatched);
}
