//! The checks that a call of a function passes before it runs: whether the
//! caller may see the function, whether the function is of the expected
//! type, and whether the arguments are small enough and valid.

use vstd::prelude::*;
use vstd::string::StringExecFns;
use crate::errors::ModelError;
use crate::paths::{
    CanonicalizedComponentFunctionPath,
    CanonicalizedUdfPath,
    ComponentFunctionPathView,
    ComponentPath,
    UdfPathView,
    law_udf_path_round_trip,
    spec_is_system_module,
    spec_parse_udf_path,
    spec_udf_path_text,
};
use crate::json::{
    encode_args,
    items_to_values,
    law_items_round_trip,
    read_items,
    spec_items_to_values,
    spec_json_bytes,
    spec_json_items,
    spec_values_to_items,
    JsonItem,
    JsonItemView,
};
use crate::search::seq_view;
use crate::text::{
    join2,
    join3,
    law_version_round_trip,
    parse_version,
    spec_parse_version,
    spec_strip_js,
    spec_version_text,
    strip_js,
    version_text,
};
use crate::transaction::Transaction;
use crate::types::{Identity, Version};
use crate::value::{
    capped_sum,
    lemma_capped_sum,
    spec_capped,
    spec_value_size,
    ConvexValue,
    ValueView,
};

verus! {

/// The largest size that the arguments of a call may have.
pub const FUNCTION_MAX_ARGS_SIZE: usize = 16777216;

/// The kind of a function.
#[derive(Clone, Copy, Debug, PartialEq, Eq, Structural, Hash)]
pub enum UdfType {
    Query,
    Mutation,
    Action,
    HttpAction,
}

/// Who may call a function.
#[derive(Clone, Copy, Debug, PartialEq, Eq, Structural, Hash)]
pub enum Visibility {
    Public,
    Internal,
}

/// Which functions a caller may reach.
#[derive(Clone, Copy, Debug, PartialEq, Eq, Structural, Hash)]
pub enum AllowedVisibility {
    PublicOnly,
    All,
}

/// Whether the backend runs functions.
#[derive(Clone, Copy, Debug, PartialEq, Eq, Structural, Hash)]
pub enum BackendState {
    Running,
    Paused,
    Disabled,
}

/// How far from now a function is scheduled.
#[derive(Clone, Copy, Debug, PartialEq, Eq, Structural, Hash)]
pub enum ScheduleDelay {
    InRange,
    TooFarInFuture,
    TooFarInPast,
}

/// The arguments of a call.
#[derive(Debug, PartialEq, Eq)]
pub struct ConvexArray {
    pub values: Vec<ConvexValue>,
}

impl View for ConvexArray {
    type V = Seq<ValueView>;

    open spec fn view(&self) -> Seq<ValueView> {
        seq_view(self.values@)
    }
}

/// The sizes of all the values together.
pub open spec fn spec_values_size(values: Seq<ValueView>) -> nat
    decreases values.len(),
{
    if values.len() == 0 {
        0
    } else {
        spec_values_size(values.drop_last()) + spec_value_size(values.last())
    }
}

/// The size that an array counts for: two bytes of framing and its values.
pub open spec fn spec_array_size(values: Seq<ValueView>) -> nat {
    2 + spec_values_size(values)
}

impl ConvexArray {
    /// The size of the array, capped.
    pub fn size(&self) -> (size: usize)
        ensures
            size == spec_capped(spec_array_size(self@)),
    {
        let ghost model = self@;
        let mut size: usize = 0;
        let mut i: usize = 0;
        while i < self.values.len()
            invariant
                i <= self.values.len(),
                model == self@,
                size == spec_capped(spec_values_size(model.take(i as int))),
            decreases self.values.len() - i,
        {
            let value_size = self.values[i].size();
            proof {
                let next = model.take(i + 1);
                assert(next.drop_last() =~= model.take(i as int));
                assert(next.last() == self.values[i as int]@);
                lemma_capped_sum(
                    spec_values_size(model.take(i as int)),
                    spec_value_size(self.values[i as int]@),
                );
            }
            size = capped_sum(size, value_size);
            i = i + 1;
        }
        proof {
            assert(model.take(self.values.len() as int) =~= model);
            lemma_capped_sum(2, spec_values_size(model));
        }
        capped_sum(2, size)
    }
}

impl Clone for ConvexArray {
    fn clone(&self) -> (copy: Self)
        ensures
            copy@ == self@,
    {
        let mut values: Vec<ConvexValue> = Vec::new();
        let mut i: usize = 0;
        while i < self.values.len()
            invariant
                i <= self.values.len(),
                values.len() == i,
                forall|j: int| 0 <= j < i ==> (#[trigger] values[j])@ == self.values[j]@,
            decreases self.values.len() - i,
        {
            values.push(self.values[i].clone());
            i = i + 1;
        }
        assert(seq_view(values@) =~= self@);
        ConvexArray { values }
    }
}

/// An error that is shown to the developer of a function.
#[derive(Debug, PartialEq, Eq)]
pub struct JsError {
    pub message: String,
}

impl JsError {
    pub fn from_message(message: String) -> (error: Self)
        ensures
            error.message@ == message@,
    {
        JsError { message }
    }
}

/// What the analysis of a module says of one of its functions.
#[derive(Debug, PartialEq, Eq)]
pub struct AnalyzedFunction {
    pub name: String,
    pub udf_type: UdfType,
    pub visibility: Option<Visibility>,
}

/// What an [`AnalyzedFunction`] holds.
pub struct AnalyzedFunctionView {
    pub name: Seq<char>,
    pub udf_type: UdfType,
    pub visibility: Option<Visibility>,
}

impl View for AnalyzedFunction {
    type V = AnalyzedFunctionView;

    open spec fn view(&self) -> AnalyzedFunctionView {
        AnalyzedFunctionView {
            name: self.name@,
            udf_type: self.udf_type,
            visibility: self.visibility,
        }
    }
}

/// What is stored of a module: its functions, once it was analysed.
#[derive(Debug, PartialEq, Eq)]
pub struct ModuleMetadata {
    pub analyze_result: Option<Vec<AnalyzedFunction>>,
}

/// The functions of a module, if it was analysed.
pub open spec fn spec_functions(module: ModuleMetadata) -> Option<Seq<AnalyzedFunctionView>> {
    match module.analyze_result {
        Some(functions) => Some(seq_view(functions@)),
        None => None,
    }
}

/// Whether one of the functions has that name.
pub open spec fn spec_has_function(functions: Seq<AnalyzedFunctionView>, name: Seq<char>) -> bool {
    exists|i: int| 0 <= i < functions.len() && (#[trigger] functions[i]).name == name
}

/// What the deployment knows of a function at the time of a call: whether
/// the backend runs, the version of the client library that the functions
/// were pushed with, the newest version that is no longer supported, the
/// analysis of the function if there is one, and what the validator of the
/// function holds against the arguments.
#[derive(Debug, PartialEq, Eq)]
pub struct FunctionState {
    pub backend_state: BackendState,
    pub server_version: Option<Version>,
    pub unsupported_version: Version,
    pub analyzed: Option<AnalyzedFunction>,
    pub args_validation_error: Option<String>,
}

/// What a [`FunctionState`] holds.
pub struct FunctionStateView {
    pub backend_state: BackendState,
    pub server_version: Option<Version>,
    pub unsupported_version: Version,
    pub analyzed: Option<AnalyzedFunctionView>,
    pub args_validation_error: Option<Seq<char>>,
}

impl View for FunctionState {
    type V = FunctionStateView;

    open spec fn view(&self) -> FunctionStateView {
        FunctionStateView {
            backend_state: self.backend_state,
            server_version: self.server_version,
            unsupported_version: self.unsupported_version,
            analyzed: match self.analyzed {
                Some(function) => Some(function@),
                None => None,
            },
            args_validation_error: match self.args_validation_error {
                Some(error) => Some(error@),
                None => None,
            },
        }
    }
}

/// The name of a kind of function, as messages show it.
pub open spec fn spec_udf_type_name(udf_type: UdfType) -> Seq<char> {
    match udf_type {
        UdfType::Query => "Query"@,
        UdfType::Mutation => "Mutation"@,
        UdfType::Action => "Action"@,
        UdfType::HttpAction => "HttpAction"@,
    }
}

/// The name of a kind of function, as messages show it.
pub fn udf_type_name(udf_type: UdfType) -> (name: &'static str)
    ensures
        name@ == spec_udf_type_name(udf_type),
{
    match udf_type {
        UdfType::Query => "Query",
        UdfType::Mutation => "Mutation",
        UdfType::Action => "Action",
        UdfType::HttpAction => "HttpAction",
    }
}

/// A function path as text, without the suffix of the module.
pub open spec fn spec_stripped_path_text(path: UdfPathView) -> Seq<char> {
    spec_strip_js(path.module) + ":"@ + path.function_name
}

/// The message for a function that is not there, or not for this caller.
pub open spec fn spec_missing_message(path: UdfPathView) -> Seq<char> {
    "Could not find public function for '"@ + spec_stripped_path_text(path)
        + "'. Did you forget to run `npx convex dev` or `npx convex deploy`?"@
}

/// The message for functions pushed with a client library that is no longer
/// supported.
pub open spec fn spec_unsupported_message(unsupported: Version) -> Seq<char> {
    "Convex functions at or below version "@ + spec_version_text(unsupported)
        + " are no longer supported. Update your Convex npm package and then push your functions again with `npx convex deploy` or `npx convex dev`."@
}

/// The message for a paused backend.
pub open spec fn spec_paused_message() -> Seq<char> {
    "Cannot run functions while this deployment is paused. Resume the deployment in the dashboard settings to allow functions to run."@
}

/// The message for a disabled backend.
pub open spec fn spec_disabled_message() -> Seq<char> {
    "You have exceeded the free plan limits, so your deployments have been disabled. Please upgrade to a Pro plan or reach out to us at support@convex.dev for help."@
}

/// The message for a system function called by an identity that may not.
pub open spec fn spec_unauthorized_message() -> Seq<char> {
    "Unauthorized: Executing function requires an admin or system identity"@
}

/// The message for a function of another kind than the caller expects.
pub open spec fn spec_wrong_type_message(path: UdfPathView, expected: UdfType, actual: UdfType) -> Seq<
    char,
> {
    "Trying to execute "@ + spec_udf_path_text(path) + " as "@ + spec_udf_type_name(expected)
        + ", but it is defined as "@ + spec_udf_type_name(actual) + "."@
}

/// A size as people read it, in binary units.
pub uninterp spec fn spec_format_size(size: usize) -> Seq<char>;

/// The message for arguments over the size limit.
pub open spec fn spec_too_large_message(path: UdfPathView, actual: usize, limit: usize) -> Seq<
    char,
> {
    "Arguments for "@ + spec_udf_path_text(path) + " are too large (actual: "@ + spec_format_size(
        actual,
    ) + ", limit: "@ + spec_format_size(limit) + ")"@
}

/// The message for arguments that the validator of the function refuses.
pub open spec fn spec_validation_message(error: Seq<char>) -> Seq<char> {
    "ArgumentValidationError: "@ + error
}

/// Formats a size with `humansize::format_size` and the options
/// `humansize::BINARY`: the crate divides the size by 1024 until it is below
/// 1024, and prints the quotient, without decimals where it is whole and with
/// two decimals otherwise, then a space and the unit. The contract claims
/// only that the text is a function of the size.
#[verifier::external_body]
fn format_size(size: usize) -> (text: String)
    ensures
        text@ == spec_format_size(size),
{
    humansize::format_size(size, humansize::BINARY)
}

/// The path of a function in the root component, and an error for a function
/// in another component.
pub fn as_root_udf_path(path: &CanonicalizedComponentFunctionPath) -> (result: Result<
    &CanonicalizedUdfPath,
    ModelError,
>)
    ensures
        match result {
            Ok(udf_path) => path@.component.len() == 0 && udf_path@ == path@.udf_path,
            Err(e) => path@.component.len() != 0 && e == ModelError::NotInRootComponent,
        },
{
    if path.component.is_root() {
        Ok(&path.udf_path)
    } else {
        Err(ModelError::NotInRootComponent)
    }
}

/// The message for a function that is not there, or not for this caller. The
/// two cases read alike, so that the message does not tell which functions
/// exist.
pub fn missing_or_internal_error(path: &CanonicalizedComponentFunctionPath) -> (result: Result<
    String,
    ModelError,
>)
    ensures
        match result {
            Ok(message) => path@.component.len() == 0 && message@ == spec_missing_message(
                path@.udf_path,
            ),
            Err(e) => path@.component.len() != 0 && e == ModelError::NotInRootComponent,
        },
{
    let udf_path = match as_root_udf_path(path) {
        Ok(udf_path) => udf_path,
        Err(e) => { return Err(e); },
    };
    let stripped = join3(strip_js(&udf_path.module).as_str(), ":", udf_path.function_name.as_str());
    Ok(
        join3(
            "Could not find public function for '",
            stripped.as_str(),
            "'. Did you forget to run `npx convex dev` or `npx convex deploy`?",
        ),
    )
}

/// The model of what a check gave: the value, the message for the developer,
/// or the error.
pub open spec fn outcome_view<T: View>(result: Result<Result<T, JsError>, ModelError>) -> Result<
    Result<T::V, Seq<char>>,
    ModelError,
> {
    match result {
        Ok(Ok(value)) => Ok(Ok(value@)),
        Ok(Err(error)) => Ok(Err(error.message@)),
        Err(e) => Err(e),
    }
}

/// The version of the client library that the functions of the deployment
/// were pushed with, where it is still supported; else the message for the
/// developer: that of a missing function where nothing was ever pushed, and
/// that of an unsupported version otherwise.
pub open spec fn spec_udf_version(path: ComponentFunctionPathView, state: FunctionStateView) -> Result<
    Result<Version, Seq<char>>,
    ModelError,
> {
    if state.server_version is Some && state.server_version.unwrap().spec_newer_than(
        &state.unsupported_version,
    ) {
        Ok(Ok(state.server_version.unwrap()))
    } else if state.server_version is None && state.analyzed is None {
        if path.component.len() == 0 {
            Ok(Err(spec_missing_message(path.udf_path)))
        } else {
            Err(ModelError::NotInRootComponent)
        }
    } else {
        Ok(Err(spec_unsupported_message(state.unsupported_version)))
    }
}

/// The model of a version that was found, the message, or the error.
pub open spec fn version_outcome_view(result: Result<Result<Version, JsError>, ModelError>) -> Result<
    Result<Version, Seq<char>>,
    ModelError,
> {
    match result {
        Ok(Ok(version)) => Ok(Ok(version)),
        Ok(Err(error)) => Ok(Err(error.message@)),
        Err(e) => Err(e),
    }
}

/// The version of the client library that the functions of the deployment
/// were pushed with, or the message that tells the developer what to do.
pub fn udf_version(path: &CanonicalizedComponentFunctionPath, state: &FunctionState) -> (result:
    Result<Result<Version, JsError>, ModelError>)
    ensures
        version_outcome_view(result) == spec_udf_version(path@, state@),
{
    match state.server_version {
        Some(version) => {
            if version.newer_than(&state.unsupported_version) {
                return Ok(Ok(version));
            }
        },
        None => {
            if state.analyzed.is_none() {
                return match missing_or_internal_error(path) {
                    Ok(message) => Ok(Err(JsError::from_message(message))),
                    Err(e) => Err(e),
                };
            }
        },
    }
    let unsupported = join3(
        "Convex functions at or below version ",
        version_text(&state.unsupported_version).as_str(),
        " are no longer supported. Update your Convex npm package and then push your functions again with `npx convex deploy` or `npx convex dev`.",
    );
    Ok(Err(JsError::from_message(unsupported)))
}

/// What the check of a call that schedules a function gives: the time must
/// lie within five years of now, the arguments must be values, the module
/// must exist, and where the module was analysed, it must export the
/// function. The arguments come back as values.
pub open spec fn spec_validate_schedule_args(
    path: ComponentFunctionPathView,
    udf_args: Seq<JsonItemView>,
    delay: ScheduleDelay,
    module: Option<ModuleMetadata>,
) -> Result<Seq<ValueView>, ModelError> {
    if delay != ScheduleDelay::InRange {
        Err(ModelError::InvalidScheduledFunctionDelay)
    } else if spec_items_to_values(udf_args) is None {
        Err(ModelError::InvalidArgsJson)
    } else if module is None {
        Err(ModelError::InvalidScheduledFunction)
    } else if spec_functions(module.unwrap()) is Some && !spec_has_function(
        spec_functions(module.unwrap()).unwrap(),
        path.udf_path.function_name,
    ) {
        if path.component.len() == 0 {
            Err(ModelError::InvalidScheduledFunction)
        } else {
            Err(ModelError::NotInRootComponent)
        }
    } else {
        Ok(spec_items_to_values(udf_args).unwrap())
    }
}

/// Whether one of the functions has that name.
pub fn has_function(functions: &Vec<AnalyzedFunction>, name: &String) -> (found: bool)
    ensures
        found == spec_has_function(seq_view(functions@), name@),
{
    let mut i: usize = 0;
    while i < functions.len()
        invariant
            i <= functions.len(),
            forall|j: int| 0 <= j < i ==> (#[trigger] seq_view(functions@)[j]).name != name@,
        decreases functions.len() - i,
    {
        if functions[i].name == *name {
            assert(seq_view(functions@)[i as int].name == name@);
            return true;
        }
        i = i + 1;
    }
    false
}

/// Checks a call that schedules a function, and hands the path and the
/// arguments back where the call is in order. Whether the time lies within
/// five years of now is judged by the caller, against its clock.
pub fn validate_schedule_args(
    path: CanonicalizedComponentFunctionPath,
    udf_args: Vec<JsonItem>,
    delay: ScheduleDelay,
    module: Option<&ModuleMetadata>,
) -> (result: Result<(CanonicalizedComponentFunctionPath, ConvexArray), ModelError>)
    ensures
        match spec_validate_schedule_args(
            path@,
            seq_view(udf_args@),
            delay,
            match module {
                Some(module) => Some(*module),
                None => None,
            },
        ) {
            Ok(values) => result matches Ok(out) && out.0 == path && out.1@ == values,
            Err(e) => result matches Err(error) && error == e,
        },
{
    match delay {
        ScheduleDelay::InRange => {},
        _ => { return Err(ModelError::InvalidScheduledFunctionDelay); },
    }
    let values = match items_to_values(udf_args) {
        Ok(values) => values,
        Err(e) => { return Err(e); },
    };
    let module = match module {
        Some(module) => module,
        None => { return Err(ModelError::InvalidScheduledFunction); },
    };
    match &module.analyze_result {
        Some(functions) => {
            if !has_function(functions, path.udf_path.function_name()) {
                return match as_root_udf_path(&path) {
                    Ok(_) => Err(ModelError::InvalidScheduledFunction),
                    Err(e) => Err(e),
                };
            }
        },
        None => {},
    }
    Ok((path, ConvexArray { values }))
}

/// The path and the arguments of a call that has passed the checks.
#[derive(Debug, PartialEq, Eq)]
pub struct ValidatedPathAndArgs {
    path: CanonicalizedComponentFunctionPath,
    args: ConvexArray,
    npm_version: Option<Version>,
}

/// What a [`ValidatedPathAndArgs`] holds.
pub struct ValidatedView {
    pub path: ComponentFunctionPathView,
    pub args: Seq<ValueView>,
    pub npm_version: Option<Version>,
}

impl View for ValidatedPathAndArgs {
    type V = ValidatedView;

    closed spec fn view(&self) -> ValidatedView {
        ValidatedView { path: self.path@, args: self.args@, npm_version: self.npm_version }
    }
}

/// What the checks of a call give.
///
/// A function of a system module is not analysed; only the identity is
/// checked for it. For any other function the backend must run, the client
/// library must be supported and the function must be analysed. An identity
/// that is no administrator reaches only what the allowed visibility lets it
/// reach; an internal function then reads as a missing one. The function must
/// be of the expected kind, and the arguments must be within the size limit
/// and pass the validator of the function.
pub open spec fn spec_validate(
    identity: Identity,
    allowed_visibility: AllowedVisibility,
    path: ComponentFunctionPathView,
    args: Seq<ValueView>,
    expected_udf_type: UdfType,
    state: FunctionStateView,
) -> Result<Result<ValidatedView, Seq<char>>, ModelError> {
    if spec_is_system_module(path.udf_path.module) {
        if path.component.len() != 0 {
            Err(ModelError::SystemModuleOutsideRoot)
        } else if identity.spec_is_privileged() {
            Ok(Ok(ValidatedView { path, args, npm_version: None }))
        } else {
            Ok(Err(spec_unauthorized_message()))
        }
    } else if state.backend_state == BackendState::Paused {
        Ok(Err(spec_paused_message()))
    } else if state.backend_state == BackendState::Disabled {
        Ok(Err(spec_disabled_message()))
    } else {
        match spec_udf_version(path, state) {
            Err(e) => Err(e),
            Ok(Err(message)) => Ok(Err(message)),
            Ok(Ok(version)) => match state.analyzed {
                None => spec_missing(path),
                Some(function) => if !identity.spec_is_admin() && allowed_visibility
                    == AllowedVisibility::PublicOnly && function.visibility == Some(
                    Visibility::Internal,
                ) {
                    spec_missing(path)
                } else if !identity.spec_is_admin() && allowed_visibility
                    == AllowedVisibility::PublicOnly && function.visibility is None {
                    Err(ModelError::VisibilityMissing)
                } else if expected_udf_type != function.udf_type {
                    if path.component.len() != 0 {
                        Err(ModelError::NotInRootComponent)
                    } else {
                        Ok(
                            Err(
                                spec_wrong_type_message(
                                    path.udf_path,
                                    expected_udf_type,
                                    function.udf_type,
                                ),
                            ),
                        )
                    }
                } else if spec_capped(spec_array_size(args)) > FUNCTION_MAX_ARGS_SIZE {
                    if path.component.len() != 0 {
                        Err(ModelError::NotInRootComponent)
                    } else {
                        Ok(
                            Err(
                                spec_too_large_message(
                                    path.udf_path,
                                    spec_capped(spec_array_size(args)),
                                    FUNCTION_MAX_ARGS_SIZE,
                                ),
                            ),
                        )
                    }
                } else {
                    match state.args_validation_error {
                        Some(error) => Ok(Err(spec_validation_message(error))),
                        None => Ok(Ok(ValidatedView { path, args, npm_version: Some(version) })),
                    }
                },
            },
        }
    }
}

/// The outcome for a function that is not there, or not for this caller.
pub open spec fn spec_missing(path: ComponentFunctionPathView) -> Result<
    Result<ValidatedView, Seq<char>>,
    ModelError,
> {
    if path.component.len() == 0 {
        Ok(Err(spec_missing_message(path.udf_path)))
    } else {
        Err(ModelError::NotInRootComponent)
    }
}

impl ValidatedPathAndArgs {
    /// Checks a call, and gives the path and the arguments back as checked,
    /// or the message that tells the developer what is wrong.
    pub fn new(
        allowed_visibility: AllowedVisibility,
        tx: &Transaction,
        path: CanonicalizedComponentFunctionPath,
        args: ConvexArray,
        expected_udf_type: UdfType,
        state: &FunctionState,
    ) -> (result: Result<Result<ValidatedPathAndArgs, JsError>, ModelError>)
        ensures
            outcome_view(result) == spec_validate(
                tx@.identity,
                allowed_visibility,
                path@,
                args@,
                expected_udf_type,
                state@,
            ),
    {
        let identity = tx.identity();
        if path.udf_path.is_system() {
            if !path.component.is_root() {
                return Err(ModelError::SystemModuleOutsideRoot);
            }
            let result = if identity.is_admin() || identity.is_system() {
                Ok(ValidatedPathAndArgs { path, args, npm_version: None })
            } else {
                Err(
                    JsError::from_message(
                        "Unauthorized: Executing function requires an admin or system identity".to_owned(),
                    ),
                )
            };
            return Ok(result);
        }
        match state.backend_state {
            BackendState::Running => {},
            BackendState::Paused => {
                return Ok(
                    Err(
                        JsError::from_message(
                            "Cannot run functions while this deployment is paused. Resume the deployment in the dashboard settings to allow functions to run.".to_owned(),
                        ),
                    ),
                );
            },
            BackendState::Disabled => {
                return Ok(
                    Err(
                        JsError::from_message(
                            "You have exceeded the free plan limits, so your deployments have been disabled. Please upgrade to a Pro plan or reach out to us at support@convex.dev for help.".to_owned(),
                        ),
                    ),
                );
            },
        }
        let version = match udf_version(&path, state) {
            Ok(Ok(version)) => version,
            Ok(Err(e)) => { return Ok(Err(e)); },
            Err(e) => { return Err(e); },
        };
        let analyzed_function = match &state.analyzed {
            Some(analyzed_function) => analyzed_function,
            None => {
                return match missing_or_internal_error(&path) {
                    Ok(message) => Ok(Err(JsError::from_message(message))),
                    Err(e) => Err(e),
                };
            },
        };
        if !identity.is_admin() {
            match allowed_visibility {
                AllowedVisibility::All => {},
                AllowedVisibility::PublicOnly => match analyzed_function.visibility {
                    Some(Visibility::Public) => {},
                    Some(Visibility::Internal) => {
                        return match missing_or_internal_error(&path) {
                            Ok(message) => Ok(Err(JsError::from_message(message))),
                            Err(e) => Err(e),
                        };
                    },
                    None => { return Err(ModelError::VisibilityMissing); },
                },
            }
        }
        if expected_udf_type != analyzed_function.udf_type {
            let udf_path = match as_root_udf_path(&path) {
                Ok(udf_path) => udf_path,
                Err(e) => { return Err(e); },
            };
            let mut message = join3(
                "Trying to execute ",
                udf_path.to_text().as_str(),
                " as ",
            );
            message.append(udf_type_name(expected_udf_type));
            message.append(", but it is defined as ");
            message.append(udf_type_name(analyzed_function.udf_type));
            message.append(".");
            return Ok(Err(JsError::from_message(message)));
        }
        let size = args.size();
        if size > FUNCTION_MAX_ARGS_SIZE {
            let udf_path = match as_root_udf_path(&path) {
                Ok(udf_path) => udf_path,
                Err(e) => { return Err(e); },
            };
            let mut message = join3(
                "Arguments for ",
                udf_path.to_text().as_str(),
                " are too large (actual: ",
            );
            message.append(format_size(size).as_str());
            message.append(", limit: ");
            message.append(format_size(FUNCTION_MAX_ARGS_SIZE).as_str());
            message.append(")");
            return Ok(Err(JsError::from_message(message)));
        }
        match &state.args_validation_error {
            Some(error) => {
                return Ok(
                    Err(JsError::from_message(join2("ArgumentValidationError: ", error.as_str()))),
                );
            },
            None => {},
        }
        Ok(Ok(ValidatedPathAndArgs { path, args, npm_version: Some(version) }))
    }

    /// A checked call made of its parts, for tests.
    pub fn new_for_tests(
        path: CanonicalizedComponentFunctionPath,
        args: ConvexArray,
        npm_version: Option<Version>,
    ) -> (out: Self)
        ensures
            out@ == (ValidatedView { path: path@, args: args@, npm_version }),
    {
        ValidatedPathAndArgs { path, args, npm_version }
    }

    /// The path of the function.
    pub fn path(&self) -> (path: &CanonicalizedComponentFunctionPath)
        ensures
            path@ == self@.path,
    {
        &self.path
    }

    /// The parts of the checked call.
    pub fn consume(self) -> (parts: (CanonicalizedComponentFunctionPath, ConvexArray, Option<Version>))
        ensures
            parts.0@ == self@.path,
            parts.1@ == self@.args,
            parts.2 == self@.npm_version,
    {
        (self.path, self.args, self.npm_version)
    }

    /// The version of the client library; none for system modules.
    pub fn npm_version(&self) -> (version: &Option<Version>)
        ensures
            *version == self@.npm_version,
    {
        &self.npm_version
    }

    /// Reads a stored call back from its parts: the text of the path, the
    /// items of the JSON array of the arguments, where the stored bytes were
    /// one, and the text of the version. A stored call always lies in the
    /// root component.
    pub fn from_parts(
        path: Option<String>,
        items: Option<Vec<JsonItem>>,
        npm_version: Option<String>,
    ) -> (result: Result<Self, ModelError>)
        ensures
            match spec_from_parts(
                text_view(path),
                match items {
                    Some(items) => Some(seq_view(items@)),
                    None => None,
                },
                text_view(npm_version),
            ) {
                Ok(view) => result matches Ok(out) && out@ == view,
                Err(e) => result matches Err(error) && error == e,
            },
    {
        let values = match items {
            Some(items) => match items_to_values(items) {
                Ok(values) => values,
                Err(e) => { return Err(e); },
            },
            None => { return Err(ModelError::InvalidArgsJson); },
        };
        let udf_path = match path {
            Some(text) => match CanonicalizedUdfPath::parse(text.as_str()) {
                Ok(udf_path) => udf_path,
                Err(e) => { return Err(e); },
            },
            None => { return Err(ModelError::MissingUdfPath); },
        };
        let npm_version = match npm_version {
            Some(text) => match parse_version(text.as_str()) {
                Ok(version) => Some(version),
                Err(e) => { return Err(e); },
            },
            None => None,
        };
        Ok(
            ValidatedPathAndArgs {
                path: CanonicalizedComponentFunctionPath {
                    component: ComponentPath::root(),
                    udf_path,
                },
                args: ConvexArray { values },
                npm_version,
            },
        )
    }

    /// Reads a stored call back. Its arguments and its path must be there:
    /// the arguments as the bytes of a JSON array of values, the path and the
    /// version as text.
    pub fn from_proto(proto: ValidatedPathAndArgsProto) -> (result: Result<Self, ModelError>)
        ensures
            match spec_from_proto(proto@) {
                Ok(view) => result matches Ok(out) && out@ == view,
                Err(e) => result matches Err(error) && error == e,
            },
    {
        let items = match &proto.args {
            Some(bytes) => read_items(bytes),
            None => { return Err(ModelError::MissingArgs); },
        };
        ValidatedPathAndArgs::from_parts(proto.path, items, proto.npm_version)
    }

    /// The stored form of a checked call whose arguments were written as JSON
    /// with the given outcome. Only a call in the root component can be
    /// stored.
    pub fn into_parts(self, encoded: Result<Vec<u8>, ModelError>) -> (result: Result<
        ValidatedPathAndArgsProto,
        ModelError,
    >)
        ensures
            match spec_into_parts(
                self@,
                match encoded {
                    Ok(bytes) => Ok(bytes@),
                    Err(e) => Err(e),
                },
            ) {
                Ok(view) => result matches Ok(out) && out@ == view,
                Err(e) => result matches Err(error) && error == e,
            },
    {
        let args = match encoded {
            Ok(bytes) => bytes,
            Err(e) => { return Err(e); },
        };
        if !self.path.component.is_root() {
            return Err(ModelError::NotInRootComponent);
        }
        let npm_version = match &self.npm_version {
            Some(version) => Some(version_text(version)),
            None => None,
        };
        Ok(
            ValidatedPathAndArgsProto {
                path: Some(self.path.udf_path.to_text()),
                args: Some(args),
                npm_version,
            },
        )
    }

    /// The stored form of a checked call: the path and the version as text,
    /// the arguments as the bytes of a JSON array. It fails where the
    /// arguments cannot be written, and for a call outside the root
    /// component.
    pub fn into_proto(self) -> (result: Result<ValidatedPathAndArgsProto, ModelError>)
        ensures
            match result {
                Ok(proto) => spec_into_parts(
                    self@,
                    Ok(spec_json_bytes(spec_values_to_items(self@.args))),
                ) == Ok::<ProtoView, ModelError>(proto@),
                Err(e) => e == ModelError::InvalidArgsJson || (e == ModelError::NotInRootComponent
                    && self@.path.component.len() != 0),
            },
    {
        let encoded = encode_args(&self.args.values);
        self.into_parts(encoded)
    }
}

/// The parts under which a checked call is stored: the path of its function
/// as text, its arguments as the bytes of a JSON array, and the version of
/// the client library as text.
#[derive(Debug, PartialEq, Eq)]
pub struct ValidatedPathAndArgsProto {
    pub path: Option<String>,
    pub args: Option<Vec<u8>>,
    pub npm_version: Option<String>,
}

/// What a [`ValidatedPathAndArgsProto`] holds.
pub struct ProtoView {
    pub path: Option<Seq<char>>,
    pub args: Option<Seq<u8>>,
    pub npm_version: Option<Seq<char>>,
}

/// The model of a text that may be missing.
pub open spec fn text_view(text: Option<String>) -> Option<Seq<char>> {
    match text {
        Some(text) => Some(text@),
        None => None,
    }
}

impl View for ValidatedPathAndArgsProto {
    type V = ProtoView;

    open spec fn view(&self) -> ProtoView {
        ProtoView {
            path: text_view(self.path),
            args: match self.args {
                Some(args) => Some(args@),
                None => None,
            },
            npm_version: text_view(self.npm_version),
        }
    }
}

/// What reading a stored call from its parts gives: the arguments are judged
/// first, then the path, then the version.
pub open spec fn spec_from_parts(
    path: Option<Seq<char>>,
    items: Option<Seq<JsonItemView>>,
    npm_version: Option<Seq<char>>,
) -> Result<ValidatedView, ModelError> {
    let args = match items {
        Some(items) => spec_items_to_values(items),
        None => None,
    };
    if args is None {
        Err(ModelError::InvalidArgsJson)
    } else if path is None {
        Err(ModelError::MissingUdfPath)
    } else if spec_parse_udf_path(path.unwrap()) is None {
        Err(ModelError::InvalidUdfPath)
    } else if npm_version is Some && spec_parse_version(npm_version.unwrap()) is None {
        Err(ModelError::InvalidVersion)
    } else {
        Ok(
            ValidatedView {
                path: ComponentFunctionPathView {
                    component: Seq::empty(),
                    udf_path: spec_parse_udf_path(path.unwrap()).unwrap(),
                },
                args: args.unwrap(),
                npm_version: match npm_version {
                    Some(text) => spec_parse_version(text),
                    None => None,
                },
            },
        )
    }
}

/// What reading a stored call gives.
pub open spec fn spec_from_proto(proto: ProtoView) -> Result<ValidatedView, ModelError> {
    match proto.args {
        None => Err(ModelError::MissingArgs),
        Some(bytes) => spec_from_parts(proto.path, spec_json_items(bytes), proto.npm_version),
    }
}

/// What storing a checked call gives, for the outcome of writing its
/// arguments as JSON.
pub open spec fn spec_into_parts(call: ValidatedView, encoded: Result<Seq<u8>, ModelError>) -> Result<
    ProtoView,
    ModelError,
> {
    match encoded {
        Err(e) => Err(e),
        Ok(bytes) => if call.path.component.len() != 0 {
            Err(ModelError::NotInRootComponent)
        } else {
            Ok(
                ProtoView {
                    path: Some(spec_udf_path_text(call.path.udf_path)),
                    args: Some(bytes),
                    npm_version: match call.npm_version {
                        Some(version) => Some(spec_version_text(version)),
                        None => None,
                    },
                },
            )
        },
    }
}

/// A checked call is read back as it was from the parts under which it is
/// stored, whatever the bytes of its arguments are, where the items of its
/// arguments are read back as they were written and the path can be told
/// from its text: its module has no colon and neither of its parts is empty.
pub proof fn law_proto_round_trip(call: ValidatedView, bytes: Seq<u8>)
    requires
        call.path.component.len() == 0,
        call.path.udf_path.module.len() > 0,
        call.path.udf_path.function_name.len() > 0,
        forall|i: int|
            0 <= i < call.path.udf_path.module.len() ==> #[trigger] call.path.udf_path.module[i]
                != ':',
    ensures
        spec_into_parts(call, Ok(bytes)) matches Ok(proto) && spec_from_parts(
            proto.path,
            Some(spec_values_to_items(call.args)),
            proto.npm_version,
        ) == Ok::<ValidatedView, ModelError>(call),
{
    law_items_round_trip(call.args);
    law_udf_path_round_trip(call.path.udf_path);
    if call.npm_version is Some {
        law_version_round_trip(call.npm_version.unwrap());
    }
    assert(call.path.component =~= Seq::<Seq<char>>::empty());
}

/// The path of an HTTP route that has passed the checks.
#[derive(Debug, PartialEq, Eq)]
pub struct ValidatedHttpPath {
    path: CanonicalizedComponentFunctionPath,
    npm_version: Option<Version>,
}

/// What a [`ValidatedHttpPath`] holds.
pub struct ValidatedHttpView {
    pub path: ComponentFunctionPathView,
    pub npm_version: Option<Version>,
}

impl View for ValidatedHttpPath {
    type V = ValidatedHttpView;

    closed spec fn view(&self) -> ValidatedHttpView {
        ValidatedHttpView { path: self.path@, npm_version: self.npm_version }
    }
}

/// What the checks of an HTTP route give: the module must be `http.js`, the
/// backend must run unless the module is a system module, and the client
/// library must be supported.
pub open spec fn spec_validate_http(path: ComponentFunctionPathView, state: FunctionStateView) -> Result<
    Result<ValidatedHttpView, Seq<char>>,
    ModelError,
> {
    if path.udf_path.module != "http.js"@ {
        Err(ModelError::UnexpectedHttpPath)
    } else if !spec_is_system_module(path.udf_path.module) && state.backend_state
        != BackendState::Running {
        Err(ModelError::BackendIsNotRunning)
    } else {
        match spec_udf_version(path, state) {
            Err(e) => Err(e),
            Ok(Err(message)) => Ok(Err(message)),
            Ok(Ok(version)) => Ok(Ok(ValidatedHttpView { path, npm_version: Some(version) })),
        }
    }
}

/// Fails while the backend is paused or disabled.
pub fn fail_while_paused_or_disabled(backend_state: BackendState) -> (result: Result<(), ModelError>)
    ensures
        result == if backend_state == BackendState::Running {
            Ok::<(), ModelError>(())
        } else {
            Err::<(), ModelError>(ModelError::BackendIsNotRunning)
        },
{
    match backend_state {
        BackendState::Running => Ok(()),
        _ => Err(ModelError::BackendIsNotRunning),
    }
}

impl ValidatedHttpPath {
    /// A checked route in the root component made of its parts, for tests.
    /// The backend must run unless the module is a system module.
    pub fn new_for_tests(
        backend_state: BackendState,
        udf_path: CanonicalizedUdfPath,
        npm_version: Option<Version>,
    ) -> (result: Result<Self, ModelError>)
        ensures
            match result {
                Ok(out) => (spec_is_system_module(udf_path@.module) || backend_state
                    == BackendState::Running) && out@ == (ValidatedHttpView {
                    path: ComponentFunctionPathView {
                        component: Seq::empty(),
                        udf_path: udf_path@,
                    },
                    npm_version,
                }),
                Err(e) => !spec_is_system_module(udf_path@.module) && backend_state
                    != BackendState::Running && e == ModelError::BackendIsNotRunning,
            },
    {
        if !udf_path.is_system() {
            match fail_while_paused_or_disabled(backend_state) {
                Err(e) => { return Err(e); },
                Ok(_) => {},
            }
        }
        Ok(
            ValidatedHttpPath {
                path: CanonicalizedComponentFunctionPath {
                    component: ComponentPath::root(),
                    udf_path,
                },
                npm_version,
            },
        )
    }

    /// Checks the path of an HTTP route.
    pub fn new(path: CanonicalizedComponentFunctionPath, state: &FunctionState) -> (result: Result<
        Result<Self, JsError>,
        ModelError,
    >)
        ensures
            outcome_view(result) == spec_validate_http(path@, state@),
    {
        if path.udf_path.module != "http.js".to_owned() {
            return Err(ModelError::UnexpectedHttpPath);
        }
        if !path.udf_path.is_system() {
            match fail_while_paused_or_disabled(state.backend_state) {
                Err(e) => { return Err(e); },
                Ok(_) => {},
            }
        }
        let version = match udf_version(&path, state) {
            Ok(Ok(version)) => version,
            Ok(Err(e)) => { return Ok(Err(e)); },
            Err(e) => { return Err(e); },
        };
        Ok(Ok(ValidatedHttpPath { path, npm_version: Some(version) }))
    }

    /// The version of the client library.
    pub fn npm_version(&self) -> (version: &Option<Version>)
        ensures
            *version == self@.npm_version,
    {
        &self.npm_version
    }

    /// The path of the route.
    pub fn path(&self) -> (path: &CanonicalizedComponentFunctionPath)
        ensures
            path@ == self@.path,
    {
        &self.path
    }
}

} // verus!
