use database::errors::{ErrorKind, ModelError};
use database::json::{item_to_value, items_to_values, value_to_item, values_to_items, JsonItem};
use database::paths::{CanonicalizedComponentFunctionPath, CanonicalizedUdfPath, ComponentPath};
use database::text::{decimal, find_char, parse_u64, parse_version, strip_js, version_text};
use database::transaction::Transaction;
use database::types::{Identity, Version};
use database::validation::{
    fail_while_paused_or_disabled, has_function, missing_or_internal_error, udf_version,
    validate_schedule_args, AllowedVisibility, AnalyzedFunction, BackendState, ConvexArray,
    FunctionState, JsError, ModuleMetadata, ScheduleDelay, UdfType, ValidatedHttpPath,
    ValidatedPathAndArgs, ValidatedPathAndArgsProto, Visibility, FUNCTION_MAX_ARGS_SIZE,
};
use database::value::ConvexValue;

fn udf(module: &str, function: &str) -> CanonicalizedUdfPath {
    CanonicalizedUdfPath { module: module.to_string(), function_name: function.to_string() }
}

fn in_root(module: &str, function: &str) -> CanonicalizedComponentFunctionPath {
    CanonicalizedComponentFunctionPath {
        component: ComponentPath::root(),
        udf_path: udf(module, function),
    }
}

fn in_child(module: &str, function: &str) -> CanonicalizedComponentFunctionPath {
    CanonicalizedComponentFunctionPath {
        component: ComponentPath::from(vec!["app".to_string()]),
        udf_path: udf(module, function),
    }
}

fn analyzed(udf_type: UdfType, visibility: Option<Visibility>) -> AnalyzedFunction {
    AnalyzedFunction { name: "send".to_string(), udf_type, visibility }
}

fn running(analyzed: Option<AnalyzedFunction>) -> FunctionState {
    FunctionState {
        backend_state: BackendState::Running,
        server_version: Some(Version { major: 1, minor: 12, patch: 0 }),
        unsupported_version: Version { major: 0, minor: 19, patch: 0 },
        analyzed,
        args_validation_error: None,
    }
}

fn args(values: Vec<ConvexValue>) -> ConvexArray {
    ConvexArray { values }
}

fn message(result: Result<Result<ValidatedPathAndArgs, JsError>, ModelError>) -> String {
    result.unwrap().unwrap_err().message
}

const MISSING: &str = "Could not find public function for 'messages:send'. Did you forget to \
                       run `npx convex dev` or `npx convex deploy`?";

#[test]
fn numbers_and_versions_as_text() {
    assert_eq!(decimal(0), "0");
    assert_eq!(decimal(7), "7");
    assert_eq!(decimal(10), "10");
    assert_eq!(decimal(1234567890), "1234567890");
    assert_eq!(decimal(u64::MAX), "18446744073709551615");
    assert_eq!(version_text(&Version { major: 1, minor: 20, patch: 3 }), "1.20.3");
    assert_eq!(version_text(&Version { major: 0, minor: 0, patch: 0 }), "0.0.0");
}

#[test]
fn strip_js_takes_the_suffix_off() {
    assert_eq!(strip_js(&"messages.js".to_string()), "messages");
    assert_eq!(strip_js(&"a/b/c.js".to_string()), "a/b/c");
    assert_eq!(strip_js(&".js".to_string()), "");
    assert_eq!(strip_js(&"messages".to_string()), "messages");
    assert_eq!(strip_js(&"js".to_string()), "js");
    assert_eq!(strip_js(&"".to_string()), "");
    assert_eq!(strip_js(&"héllo.js".to_string()), "héllo");
    assert_eq!(strip_js(&"a.jsx".to_string()), "a.jsx");
}

#[test]
fn array_sizes_follow_the_formula() {
    assert_eq!(args(Vec::new()).size(), 2);
    assert_eq!(args(vec![ConvexValue::Null, ConvexValue::Int64(1)]).size(), 12);
    assert_eq!(args(vec![ConvexValue::Bytes(vec![0; 100])]).size(), 104);
    let array = args(vec![ConvexValue::String("ab".to_string())]);
    assert_eq!(array.clone(), array);
}

#[test]
fn missing_message_names_the_function() {
    assert_eq!(missing_or_internal_error(&in_root("messages.js", "send")).unwrap(), MISSING);
    assert_eq!(
        missing_or_internal_error(&in_child("messages.js", "send")),
        Err(ModelError::NotInRootComponent)
    );
}

#[test]
fn udf_version_of_supported_and_unsupported_pushes() {
    let path = in_root("messages.js", "send");
    let state = running(Some(analyzed(UdfType::Query, Some(Visibility::Public))));
    assert_eq!(udf_version(&path, &state), Ok(Ok(Version { major: 1, minor: 12, patch: 0 })));

    let mut old = running(Some(analyzed(UdfType::Query, Some(Visibility::Public))));
    old.server_version = Some(Version { major: 0, minor: 19, patch: 0 });
    let unsupported = "Convex functions at or below version 0.19.0 are no longer supported. \
                       Update your Convex npm package and then push your functions again with \
                       `npx convex deploy` or `npx convex dev`.";
    assert_eq!(udf_version(&path, &old).unwrap().unwrap_err().message, unsupported);

    let mut never_pushed = running(None);
    never_pushed.server_version = None;
    assert_eq!(udf_version(&path, &never_pushed).unwrap().unwrap_err().message, MISSING);
    assert_eq!(
        udf_version(&in_child("messages.js", "send"), &never_pushed),
        Err(ModelError::NotInRootComponent)
    );

    let mut no_config = running(Some(analyzed(UdfType::Query, None)));
    no_config.server_version = None;
    assert_eq!(udf_version(&path, &no_config).unwrap().unwrap_err().message, unsupported);
}

#[test]
fn valid_call_passes() {
    let tx = Transaction::new(Identity::User);
    let state = running(Some(analyzed(UdfType::Mutation, Some(Visibility::Public))));
    let call_args = args(vec![ConvexValue::Int64(5)]);
    let validated = ValidatedPathAndArgs::new(
        AllowedVisibility::PublicOnly,
        &tx,
        in_root("messages.js", "send"),
        call_args.clone(),
        UdfType::Mutation,
        &state,
    )
    .unwrap()
    .unwrap();
    assert_eq!(validated.path(), &in_root("messages.js", "send"));
    assert_eq!(validated.npm_version(), &Some(Version { major: 1, minor: 12, patch: 0 }));
    let (path, out_args, version) = validated.consume();
    assert_eq!(path, in_root("messages.js", "send"));
    assert_eq!(out_args, call_args);
    assert_eq!(version, Some(Version { major: 1, minor: 12, patch: 0 }));
}

#[test]
fn system_modules_take_admins_and_the_system_only() {
    let state = running(None);
    for identity in [Identity::InstanceAdmin, Identity::ActingUser, Identity::System] {
        let tx = Transaction::new(identity);
        let validated = ValidatedPathAndArgs::new(
            AllowedVisibility::PublicOnly,
            &tx,
            in_root("_system/cli/tables.js", "default"),
            args(Vec::new()),
            UdfType::Query,
            &state,
        )
        .unwrap()
        .unwrap();
        assert_eq!(validated.npm_version(), &None);
    }
    for identity in [Identity::User, Identity::Unknown] {
        let tx = Transaction::new(identity);
        let result = ValidatedPathAndArgs::new(
            AllowedVisibility::All,
            &tx,
            in_root("_system/cli/tables.js", "default"),
            args(Vec::new()),
            UdfType::Query,
            &state,
        );
        assert_eq!(
            message(result),
            "Unauthorized: Executing function requires an admin or system identity"
        );
    }
    let tx = Transaction::new(Identity::System);
    let result = ValidatedPathAndArgs::new(
        AllowedVisibility::All,
        &tx,
        in_child("_system/cli/tables.js", "default"),
        args(Vec::new()),
        UdfType::Query,
        &state,
    );
    assert_eq!(result, Err(ModelError::SystemModuleOutsideRoot));
    assert_eq!(ModelError::SystemModuleOutsideRoot.kind(), ErrorKind::Internal);
}

#[test]
fn paused_and_disabled_backends_refuse_calls() {
    let tx = Transaction::new(Identity::InstanceAdmin);
    let mut state = running(Some(analyzed(UdfType::Query, Some(Visibility::Public))));
    state.backend_state = BackendState::Paused;
    let call = |state: &FunctionState| {
        ValidatedPathAndArgs::new(
            AllowedVisibility::All,
            &tx,
            in_root("messages.js", "send"),
            args(Vec::new()),
            UdfType::Query,
            state,
        )
    };
    assert_eq!(
        message(call(&state)),
        "Cannot run functions while this deployment is paused. Resume the deployment in the \
         dashboard settings to allow functions to run."
    );
    state.backend_state = BackendState::Disabled;
    assert_eq!(
        message(call(&state)),
        "You have exceeded the free plan limits, so your deployments have been disabled. \
         Please upgrade to a Pro plan or reach out to us at support@convex.dev for help."
    );
}

#[test]
fn internal_functions_read_as_missing_to_the_public() {
    let state = running(Some(analyzed(UdfType::Query, Some(Visibility::Internal))));
    let call = |identity: Identity, allowed: AllowedVisibility| {
        let tx = Transaction::new(identity);
        ValidatedPathAndArgs::new(
            allowed,
            &tx,
            in_root("messages.js", "send"),
            args(Vec::new()),
            UdfType::Query,
            &state,
        )
    };
    assert_eq!(message(call(Identity::User, AllowedVisibility::PublicOnly)), MISSING);
    assert_eq!(message(call(Identity::System, AllowedVisibility::PublicOnly)), MISSING);
    assert!(call(Identity::User, AllowedVisibility::All).unwrap().is_ok());
    assert!(call(Identity::InstanceAdmin, AllowedVisibility::PublicOnly).unwrap().is_ok());
    assert!(call(Identity::ActingUser, AllowedVisibility::PublicOnly).unwrap().is_ok());

    let not_analyzed = running(None);
    let tx = Transaction::new(Identity::InstanceAdmin);
    let result = ValidatedPathAndArgs::new(
        AllowedVisibility::All,
        &tx,
        in_root("messages.js", "send"),
        args(Vec::new()),
        UdfType::Query,
        &not_analyzed,
    );
    assert_eq!(message(result), MISSING);
}

#[test]
fn function_without_visibility_is_an_error() {
    let state = running(Some(analyzed(UdfType::Query, None)));
    let tx = Transaction::new(Identity::User);
    let result = ValidatedPathAndArgs::new(
        AllowedVisibility::PublicOnly,
        &tx,
        in_root("messages.js", "send"),
        args(Vec::new()),
        UdfType::Query,
        &state,
    );
    assert_eq!(result, Err(ModelError::VisibilityMissing));
}

#[test]
fn wrong_kind_of_function_is_named() {
    let state = running(Some(analyzed(UdfType::Mutation, Some(Visibility::Public))));
    let tx = Transaction::new(Identity::User);
    let result = ValidatedPathAndArgs::new(
        AllowedVisibility::PublicOnly,
        &tx,
        in_root("messages.js", "send"),
        args(Vec::new()),
        UdfType::Query,
        &state,
    );
    assert_eq!(
        message(result),
        "Trying to execute messages.js:send as Query, but it is defined as Mutation."
    );
    let result = ValidatedPathAndArgs::new(
        AllowedVisibility::PublicOnly,
        &tx,
        in_child("messages.js", "send"),
        args(Vec::new()),
        UdfType::HttpAction,
        &state,
    );
    assert_eq!(result, Err(ModelError::NotInRootComponent));
}

#[test]
fn oversized_arguments_are_refused_with_their_size() {
    assert_eq!(FUNCTION_MAX_ARGS_SIZE, 16 * 1024 * 1024);
    let state = running(Some(analyzed(UdfType::Action, Some(Visibility::Public))));
    let tx = Transaction::new(Identity::User);
    // 2 for the array, 2 for the tag of the bytes.
    let at_limit = args(vec![ConvexValue::Bytes(vec![0; FUNCTION_MAX_ARGS_SIZE - 4])]);
    assert_eq!(at_limit.size(), FUNCTION_MAX_ARGS_SIZE);
    let ok = ValidatedPathAndArgs::new(
        AllowedVisibility::PublicOnly,
        &tx,
        in_root("messages.js", "send"),
        at_limit,
        UdfType::Action,
        &state,
    );
    assert!(ok.unwrap().is_ok());
    let over = args(vec![ConvexValue::Bytes(vec![0; 24 * 1024 * 1024 - 4])]);
    let result = ValidatedPathAndArgs::new(
        AllowedVisibility::PublicOnly,
        &tx,
        in_root("messages.js", "send"),
        over,
        UdfType::Action,
        &state,
    );
    assert_eq!(
        message(result),
        "Arguments for messages.js:send are too large (actual: 24 MiB, limit: 16 MiB)"
    );
    let just_over = args(vec![ConvexValue::Bytes(vec![0; FUNCTION_MAX_ARGS_SIZE + 1024 * 512 - 4])]);
    let result = ValidatedPathAndArgs::new(
        AllowedVisibility::PublicOnly,
        &tx,
        in_root("messages.js", "send"),
        just_over,
        UdfType::Action,
        &state,
    );
    assert_eq!(
        message(result),
        "Arguments for messages.js:send are too large (actual: 16.50 MiB, limit: 16 MiB)"
    );
}

#[test]
fn arguments_that_fail_validation_are_refused() {
    let mut state = running(Some(analyzed(UdfType::Query, Some(Visibility::Public))));
    state.args_validation_error = Some("Value does not match validator.".to_string());
    let tx = Transaction::new(Identity::User);
    let result = ValidatedPathAndArgs::new(
        AllowedVisibility::PublicOnly,
        &tx,
        in_root("messages.js", "send"),
        args(Vec::new()),
        UdfType::Query,
        &state,
    );
    assert_eq!(message(result), "ArgumentValidationError: Value does not match validator.");
}

#[test]
fn schedule_args_are_checked() {
    let module = ModuleMetadata {
        analyze_result: Some(vec![
            analyzed(UdfType::Mutation, Some(Visibility::Public)),
            AnalyzedFunction {
                name: "other".to_string(),
                udf_type: UdfType::Query,
                visibility: None,
            },
        ]),
    };
    assert!(has_function(module.analyze_result.as_ref().unwrap(), &"other".to_string()));
    assert!(!has_function(module.analyze_result.as_ref().unwrap(), &"gone".to_string()));
    let items = || vec![JsonItem::Bool(true), JsonItem::Array(vec![Some(1), Some(255)])];
    let call_args = args(vec![ConvexValue::Boolean(true), ConvexValue::Bytes(vec![1, 255])]);
    let ok = validate_schedule_args(
        in_root("messages.js", "send"),
        items(),
        ScheduleDelay::InRange,
        Some(&module),
    );
    assert_eq!(ok, Ok((in_root("messages.js", "send"), call_args)));

    for delay in [ScheduleDelay::TooFarInFuture, ScheduleDelay::TooFarInPast] {
        // The delay is judged before the arguments are.
        let error = validate_schedule_args(
            in_root("messages.js", "send"),
            vec![JsonItem::Object],
            delay,
            Some(&module),
        )
        .unwrap_err();
        assert_eq!(error, ModelError::InvalidScheduledFunctionDelay);
        assert!(error.is_bad_request());
        assert_eq!(error.short_msg(), "InvalidScheduledFunctionDelay");
    }
    let bad_args = validate_schedule_args(
        in_root("messages.js", "send"),
        vec![JsonItem::Null, JsonItem::Object],
        ScheduleDelay::InRange,
        None,
    );
    assert_eq!(bad_args, Err(ModelError::InvalidArgsJson));
    let no_module = validate_schedule_args(
        in_root("messages.js", "send"),
        items(),
        ScheduleDelay::InRange,
        None,
    );
    assert_eq!(no_module, Err(ModelError::InvalidScheduledFunction));
    assert_eq!(ModelError::InvalidScheduledFunction.short_msg(), "InvalidScheduledFunction");
    assert!(ModelError::InvalidScheduledFunction.is_bad_request());
    let no_function = validate_schedule_args(
        in_root("messages.js", "gone"),
        items(),
        ScheduleDelay::InRange,
        Some(&module),
    );
    assert_eq!(no_function, Err(ModelError::InvalidScheduledFunction));
    let no_function_in_child = validate_schedule_args(
        in_child("messages.js", "gone"),
        items(),
        ScheduleDelay::InRange,
        Some(&module),
    );
    assert_eq!(no_function_in_child, Err(ModelError::NotInRootComponent));
    let not_analyzed = ModuleMetadata { analyze_result: None };
    let unchecked = validate_schedule_args(
        in_child("messages.js", "anything"),
        items(),
        ScheduleDelay::InRange,
        Some(&not_analyzed),
    );
    assert!(unchecked.is_ok());
}

#[test]
fn json_items_and_values() {
    let pairs = vec![
        (ConvexValue::Null, JsonItem::Null),
        (ConvexValue::Boolean(true), JsonItem::Bool(true)),
        (ConvexValue::Int64(-5), JsonItem::Number(Some(-5))),
        (ConvexValue::String("a".to_string()), JsonItem::String("a".to_string())),
        (ConvexValue::Bytes(vec![0, 7, 255]), JsonItem::Array(vec![Some(0), Some(7), Some(255)])),
        (ConvexValue::Bytes(Vec::new()), JsonItem::Array(Vec::new())),
    ];
    for (value, item) in &pairs {
        assert_eq!(&value_to_item(value), item);
        assert_eq!(item_to_value(value_to_item(value)).as_ref(), Some(value));
    }
    assert_eq!(item_to_value(JsonItem::Number(None)), None);
    assert_eq!(item_to_value(JsonItem::Object), None);
    assert_eq!(item_to_value(JsonItem::Array(vec![Some(1), None])), None);
    assert_eq!(item_to_value(JsonItem::Array(vec![Some(256)])), None);
    let values: Vec<ConvexValue> = pairs.iter().map(|(v, _)| v.clone()).collect();
    let items = values_to_items(&values);
    assert_eq!(items.len(), values.len());
    assert_eq!(items_to_values(items), Ok(values));
    assert_eq!(
        items_to_values(vec![JsonItem::Null, JsonItem::Object, JsonItem::Null]),
        Err(ModelError::InvalidArgsJson)
    );
    assert_eq!(items_to_values(Vec::new()), Ok(Vec::new()));
}

#[test]
fn numbers_are_read_from_text() {
    assert_eq!(parse_u64("0"), Some(0));
    assert_eq!(parse_u64("7"), Some(7));
    assert_eq!(parse_u64("10"), Some(10));
    assert_eq!(parse_u64("1234567890"), Some(1234567890));
    assert_eq!(parse_u64("18446744073709551615"), Some(u64::MAX));
    assert_eq!(parse_u64("18446744073709551616"), None);
    assert_eq!(parse_u64("99999999999999999999"), None);
    assert_eq!(parse_u64(""), None);
    assert_eq!(parse_u64("01"), None);
    assert_eq!(parse_u64("00"), None);
    assert_eq!(parse_u64("1a"), None);
    assert_eq!(parse_u64("-1"), None);
    assert_eq!(parse_u64("+1"), None);
    assert_eq!(parse_u64(" 1"), None);
    assert_eq!(parse_u64("١"), None);
    assert_eq!(find_char("a.b.c", '.'), Some(1));
    assert_eq!(find_char("héllo:x", ':'), Some(5));
    assert_eq!(find_char("abc", '.'), None);
    assert_eq!(find_char("", '.'), None);
}

#[test]
fn versions_are_read_from_text() {
    assert_eq!(parse_version("1.2.3"), Ok(Version { major: 1, minor: 2, patch: 3 }));
    assert_eq!(parse_version("0.0.0"), Ok(Version { major: 0, minor: 0, patch: 0 }));
    assert_eq!(parse_version("10.200.3000"), Ok(Version { major: 10, minor: 200, patch: 3000 }));
    for text in ["", "1", "1.2", "1.2.3.4", "1..3", ".2.3", "1.2.", "1.02.3", "a.b.c", "1.2.3-rc"] {
        assert_eq!(parse_version(text), Err(ModelError::InvalidVersion));
    }
    for version in [
        Version { major: 0, minor: 19, patch: 0 },
        Version { major: u64::MAX, minor: 0, patch: 9 },
    ] {
        assert_eq!(parse_version(&version_text(&version)), Ok(version));
    }
}

#[test]
fn function_paths_are_read_from_text() {
    assert_eq!(CanonicalizedUdfPath::parse("messages.js:send"), Ok(udf("messages.js", "send")));
    assert_eq!(CanonicalizedUdfPath::parse("messages.js"), Ok(udf("messages.js", "default")));
    assert_eq!(CanonicalizedUdfPath::parse("a/b.js:c:d"), Ok(udf("a/b.js", "c:d")));
    for text in ["", ":send", "messages.js:", ":"] {
        assert_eq!(CanonicalizedUdfPath::parse(text), Err(ModelError::InvalidUdfPath));
    }
    assert_eq!(udf("messages.js", "send").to_text(), "messages.js:send");
    assert!(udf("_system/x.js", "f").is_system());
    assert!(!udf("messages.js", "f").is_system());
}

#[test]
fn test_udf_path_proto_roundtrip() {
    let versions = [None, Some(Version { major: 1, minor: 2, patch: 3 })];
    let payloads = [
        Vec::new(),
        vec![ConvexValue::Null],
        vec![ConvexValue::Int64(i64::MIN), ConvexValue::String("x\"y".to_string())],
        vec![ConvexValue::Int64(i64::MAX), ConvexValue::Int64(0)],
        vec![ConvexValue::Bytes(vec![1, 2, 3]), ConvexValue::Boolean(false)],
        vec![ConvexValue::Bytes(Vec::new()), ConvexValue::String("".to_string())],
    ];
    for version in versions {
        for payload in &payloads {
            let v = ValidatedPathAndArgs::new_for_tests(
                in_root("messages.js", "send"),
                args(payload.clone()),
                version,
            );
            let copy = ValidatedPathAndArgs::new_for_tests(
                in_root("messages.js", "send"),
                args(payload.clone()),
                version,
            );
            let proto = v.into_proto().unwrap();
            let v2 = ValidatedPathAndArgs::from_proto(proto).unwrap();
            assert_eq!(copy, v2);
        }
    }
}

#[test]
fn stored_calls_are_json() {
    let call = ValidatedPathAndArgs::new_for_tests(
        in_root("messages.js", "send"),
        args(vec![
            ConvexValue::Null,
            ConvexValue::Boolean(true),
            ConvexValue::Int64(-3),
            ConvexValue::String("hi".to_string()),
            ConvexValue::Bytes(vec![1, 2]),
        ]),
        Some(Version { major: 1, minor: 12, patch: 0 }),
    );
    let proto = call.into_proto().unwrap();
    assert_eq!(proto.path, Some("messages.js:send".to_string()));
    assert_eq!(proto.npm_version, Some("1.12.0".to_string()));
    assert_eq!(proto.args, Some(b"[null,true,-3,\"hi\",[1,2]]".to_vec()));

    let read = ValidatedPathAndArgs::from_proto(ValidatedPathAndArgsProto {
        path: Some("notes.js".to_string()),
        args: Some(b" [ 1 , \"a\" , [ ] ] ".to_vec()),
        npm_version: None,
    })
    .unwrap();
    let (path, read_args, version) = read.consume();
    assert_eq!(path, in_root("notes.js", "default"));
    assert_eq!(
        read_args,
        args(vec![
            ConvexValue::Int64(1),
            ConvexValue::String("a".to_string()),
            ConvexValue::Bytes(Vec::new())
        ])
    );
    assert_eq!(version, None);
}

#[test]
fn stored_calls_need_their_parts_and_the_root() {
    let full = || ValidatedPathAndArgsProto {
        path: Some("messages.js:send".to_string()),
        args: Some(b"[]".to_vec()),
        npm_version: Some("1.2.3".to_string()),
    };
    assert!(ValidatedPathAndArgs::from_proto(full()).is_ok());
    let mut proto = full();
    proto.args = None;
    assert_eq!(ValidatedPathAndArgs::from_proto(proto), Err(ModelError::MissingArgs));
    let mut proto = full();
    proto.path = None;
    assert_eq!(ValidatedPathAndArgs::from_proto(proto), Err(ModelError::MissingUdfPath));
    let mut proto = full();
    proto.path = None;
    proto.args = None;
    assert_eq!(ValidatedPathAndArgs::from_proto(proto), Err(ModelError::MissingArgs));
    for bad in [&b"{}"[..], b"[1.5]", b"[{}]", b"[[256]]", b"[[-1]]", b"[[[1]]]", b"", b"[1", b"nul"] {
        let mut proto = full();
        proto.args = Some(bad.to_vec());
        // Unreadable arguments come before a missing path.
        proto.path = None;
        assert_eq!(ValidatedPathAndArgs::from_proto(proto), Err(ModelError::InvalidArgsJson));
    }
    let mut proto = full();
    proto.path = Some(":send".to_string());
    proto.npm_version = Some("x".to_string());
    assert_eq!(ValidatedPathAndArgs::from_proto(proto), Err(ModelError::InvalidUdfPath));
    let mut proto = full();
    proto.npm_version = Some("1.2".to_string());
    assert_eq!(ValidatedPathAndArgs::from_proto(proto), Err(ModelError::InvalidVersion));
    let read = ValidatedPathAndArgs::from_proto(full()).unwrap();
    assert!(read.path().component.is_root());
    assert_eq!(read.npm_version(), &Some(Version { major: 1, minor: 2, patch: 3 }));

    let elsewhere =
        ValidatedPathAndArgs::new_for_tests(in_child("messages.js", "send"), args(Vec::new()), None);
    assert_eq!(elsewhere.into_proto(), Err(ModelError::NotInRootComponent));
    let elsewhere =
        ValidatedPathAndArgs::new_for_tests(in_child("messages.js", "send"), args(Vec::new()), None);
    assert_eq!(
        elsewhere.into_parts(Err(ModelError::InvalidArgsJson)),
        Err(ModelError::InvalidArgsJson)
    );
    let parts = ValidatedPathAndArgs::from_parts(
        Some("messages.js:send".to_string()),
        Some(vec![JsonItem::Number(Some(4))]),
        None,
    )
    .unwrap();
    assert_eq!(parts.consume().1, args(vec![ConvexValue::Int64(4)]));
    assert_eq!(
        ValidatedPathAndArgs::from_parts(Some("messages.js:send".to_string()), None, None),
        Err(ModelError::InvalidArgsJson)
    );
}

#[test]
fn http_paths_are_checked() {
    let state = running(None);
    let ok = ValidatedHttpPath::new(in_root("http.js", "default"), &state).unwrap().unwrap();
    assert_eq!(ok.path(), &in_root("http.js", "default"));
    assert_eq!(ok.npm_version(), &Some(Version { major: 1, minor: 12, patch: 0 }));

    assert_eq!(
        ValidatedHttpPath::new(in_root("messages.js", "send"), &state),
        Err(ModelError::UnexpectedHttpPath)
    );
    for backend_state in [BackendState::Paused, BackendState::Disabled] {
        let mut stopped = running(None);
        stopped.backend_state = backend_state;
        let error = ValidatedHttpPath::new(in_root("http.js", "default"), &stopped).unwrap_err();
        assert_eq!(error, ModelError::BackendIsNotRunning);
        assert!(error.is_bad_request());
        assert_eq!(error.short_msg(), "BackendIsNotRunning");
    }
    let mut old = running(None);
    old.server_version = Some(Version { major: 0, minor: 1, patch: 0 });
    let message = ValidatedHttpPath::new(in_root("http.js", "default"), &old)
        .unwrap()
        .unwrap_err()
        .message;
    assert!(message.starts_with("Convex functions at or below version 0.19.0 are no longer"));
}

#[test]
fn http_paths_for_tests() {
    let path = ValidatedHttpPath::new_for_tests(
        BackendState::Running,
        udf("http.js", "default"),
        Some(Version { major: 1, minor: 0, patch: 0 }),
    )
    .unwrap();
    assert_eq!(path.path(), &in_root("http.js", "default"));
    assert_eq!(path.npm_version(), &Some(Version { major: 1, minor: 0, patch: 0 }));
    assert_eq!(
        ValidatedHttpPath::new_for_tests(BackendState::Disabled, udf("http.js", "default"), None),
        Err(ModelError::BackendIsNotRunning)
    );
    assert!(ValidatedHttpPath::new_for_tests(
        BackendState::Paused,
        udf("_system/http.js", "default"),
        None
    )
    .is_ok());
    assert_eq!(fail_while_paused_or_disabled(BackendState::Running), Ok(()));
    assert_eq!(
        fail_while_paused_or_disabled(BackendState::Paused),
        Err(ModelError::BackendIsNotRunning)
    );
}
