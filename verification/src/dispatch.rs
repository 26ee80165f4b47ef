//! The dispatcher: from a request document to a plan, and from the outcome of
//! a client operation to a response.
//!
//! A request is checked in a fixed order: the protocol version, the method
//! name, the parameter list, the method table, then the parameters one by one
//! from the left. The first fault found decides the response. A request that
//! passes all of them becomes a call for the host to carry out.

use crate::hex::{data, quantity, write_data, write_quantity};
use crate::json::{json_views, optional_view, Json, JsonView};
use crate::method::{Operation, ParamKind};
use crate::params::{
    decode, read, verdict_view, Argument, ArgumentView, Fault, FaultView, Verdict, VerdictView,
};
use crate::response::{
    ResponseView, RpcResponse, INTERNAL_ERROR, INVALID_PARAMS, INVALID_REQUEST, METHOD_NOT_FOUND,
    NOT_INITIALIZED,
};
use crate::text::str_equal;
use vstd::prelude::*;
use vstd::string::StringExecFns;

verus! {

/// A client operation with its arguments, ready to be carried out, and the
/// identifier of the request that asked for it.
#[derive(Debug, PartialEq, Eq)]
pub struct ClientCall {
    pub id: Option<Json>,
    pub operation: Operation,
    pub arguments: Vec<Argument>,
}

/// The mathematical value of a `ClientCall`.
pub struct CallView {
    pub id: Option<JsonView>,
    pub operation: Operation,
    pub arguments: Seq<ArgumentView>,
}

/// The values of a sequence of arguments, element by element.
pub open spec fn argument_views(arguments: Seq<Argument>) -> Seq<ArgumentView> {
    Seq::new(arguments.len(), |i: int| arguments[i]@)
}

impl View for ClientCall {
    type V = CallView;

    open spec fn view(&self) -> CallView {
        CallView {
            id: optional_view(self.id),
            operation: self.operation,
            arguments: argument_views(self.arguments@),
        }
    }
}

/// What is to be done about a request.
#[derive(Debug, PartialEq, Eq)]
pub enum Plan {
    /// The request is answered at once.
    Reply(RpcResponse),
    /// The host has the client library decode this object as a parameter of
    /// this kind, and plans again with the verdict.
    Decode(ParamKind, Json),
    /// The host carries this call out and concludes with what came of it.
    Invoke(ClientCall),
}

/// The mathematical value of a `Plan`.
pub enum PlanView {
    Reply(ResponseView),
    Decode(ParamKind, JsonView),
    Invoke(CallView),
}

impl View for Plan {
    type V = PlanView;

    open spec fn view(&self) -> PlanView {
        match self {
            Plan::Reply(response) => PlanView::Reply(response@),
            Plan::Decode(kind, value) => PlanView::Decode(*kind, value@),
            Plan::Invoke(call) => PlanView::Invoke(call@),
        }
    }
}

/// What came of a client operation.
#[derive(Debug, PartialEq, Eq)]
pub enum ClientOutcome {
    /// The client failed, with its description of the failure.
    Failed(String),
    /// The client answered, but its answer could not be serialised.
    Unserializable(String),
    /// A number, given by its bytes, most significant first.
    Quantity(Vec<u8>),
    /// A byte string: code, return data, a hash or an address.
    Data(Vec<u8>),
    /// A truth value.
    Flag(bool),
    /// A serialised document: a block, a receipt, a list of logs.
    Document(Json),
    /// The client has nothing under that name.
    Absent,
}

/// The mathematical value of a `ClientOutcome`.
pub enum OutcomeView {
    Failed(Seq<char>),
    Unserializable(Seq<char>),
    Quantity(Seq<u8>),
    Data(Seq<u8>),
    Flag(bool),
    Document(JsonView),
    Absent,
}

impl View for ClientOutcome {
    type V = OutcomeView;

    open spec fn view(&self) -> OutcomeView {
        match self {
            ClientOutcome::Failed(reason) => OutcomeView::Failed(reason@),
            ClientOutcome::Unserializable(reason) => OutcomeView::Unserializable(reason@),
            ClientOutcome::Quantity(bytes) => OutcomeView::Quantity(bytes@),
            ClientOutcome::Data(bytes) => OutcomeView::Data(bytes@),
            ClientOutcome::Flag(flag) => OutcomeView::Flag(*flag),
            ClientOutcome::Document(value) => OutcomeView::Document(value@),
            ClientOutcome::Absent => OutcomeView::Absent,
        }
    }
}

/// The value of an outcome that is missing when no client is installed.
pub open spec fn outcome_view(outcome: Option<ClientOutcome>) -> Option<OutcomeView> {
    match outcome {
        Some(o) => Some(o@),
        None => None,
    }
}

/// The message for a request that does not name protocol version 2.0.
pub open spec fn bad_version() -> Seq<char> {
    "Invalid Request: only JSON-RPC 2.0 is supported"@
}

/// The message for a request without a method name.
pub open spec fn missing_method() -> Seq<char> {
    "Invalid Request: missing method"@
}

/// The message for a request without a parameter list.
pub open spec fn missing_params() -> Seq<char> {
    "Invalid params: missing or invalid params"@
}

/// The message for a method name that is not in the table.
pub open spec fn unknown_method(method: Seq<char>) -> Seq<char> {
    "Method not found: "@ + method + " is not supported"@
}

/// The message for a request that arrives before a client is installed.
pub open spec fn not_initialized() -> Seq<char> {
    "Light client not initialized"@
}

/// How the message for a failure of the client starts.
pub open spec fn failure_prefix(operation: Operation) -> Seq<char> {
    match operation {
        Operation::BlockByNumber => "Internal error: failed to get block: "@,
        _ => "Internal error: "@,
    }
}

/// How the message for an answer that could not be serialised starts.
pub open spec fn unserializable_prefix(operation: Operation) -> Seq<char> {
    match operation {
        Operation::BlockByNumber | Operation::BlockByHash =>
            "Internal error: failed to serialize block: "@,
        Operation::TransactionReceipt => "Internal error: failed to serialize receipt: "@,
        Operation::TransactionByHash | Operation::TransactionByBlockHashAndIndex =>
            "Internal error: failed to serialize transaction: "@,
        Operation::Logs | Operation::FilterChanges => "Internal error: failed to serialize logs: "@,
        Operation::Syncing => "Internal error: failed to serialize sync state: "@,
        Operation::BlockReceipts => "Internal error: failed to serialize receipts: "@,
        _ => "Internal error: failed to serialize result: "@,
    }
}

/// Whether the request names protocol version 2.0.
pub open spec fn has_version(request: JsonView) -> bool {
    match request.get("jsonrpc"@) {
        Some(version) => version.as_str() == Some("2.0"@),
        None => false,
    }
}

/// The method name of the request, if it has one that is a string.
pub open spec fn method_of(request: JsonView) -> Option<Seq<char>> {
    match request.get("method"@) {
        Some(method) => method.as_str(),
        None => None,
    }
}

/// The parameter list of the request, if it has one that is an array.
pub open spec fn params_of(request: JsonView) -> Option<Seq<JsonView>> {
    match request.get("params"@) {
        Some(params) => params.as_array(),
        None => None,
    }
}

/// The parameter at a position; a parameter that was not supplied reads as null.
pub open spec fn param_at(params: Seq<JsonView>, i: int) -> JsonView {
    if 0 <= i < params.len() {
        params[i]
    } else {
        JsonView::Null
    }
}

/// The reading of the first `n` parameters, from the left: the arguments if
/// all of them were read, else the reading of the first one that was not.
pub open spec fn read_first(
    kinds: Seq<ParamKind>,
    params: Seq<JsonView>,
    verdict: Option<VerdictView>,
    n: nat,
) -> Result<Seq<ArgumentView>, FaultView>
    decreases n,
{
    if n == 0 {
        Ok(Seq::empty())
    } else {
        match read_first(kinds, params, verdict, (n - 1) as nat) {
            Ok(arguments) => match read(kinds[n - 1], param_at(params, n - 1), verdict) {
                Ok(argument) => Ok(arguments.push(argument)),
                Err(fault) => Err(fault),
            },
            Err(fault) => Err(fault),
        }
    }
}

/// What is to be done about a request, given the verdict on its object
/// parameter if the host has one.
pub open spec fn planned(request: JsonView, verdict: Option<VerdictView>) -> PlanView {
    let id = request.get("id"@);
    if !has_version(request) {
        PlanView::Reply(ResponseView::failure(id, INVALID_REQUEST as int, bad_version()))
    } else {
        match method_of(request) {
            None => PlanView::Reply(
                ResponseView::failure(id, INVALID_REQUEST as int, missing_method()),
            ),
            Some(method) => match params_of(request) {
                None => PlanView::Reply(
                    ResponseView::failure(id, INVALID_PARAMS as int, missing_params()),
                ),
                Some(params) => match Operation::named(method) {
                    None => PlanView::Reply(
                        ResponseView::failure(
                            id,
                            METHOD_NOT_FOUND as int,
                            unknown_method(method),
                        ),
                    ),
                    Some(operation) => {
                        let kinds = operation.parameters();
                        match read_first(kinds, params, verdict, kinds.len()) {
                            Ok(arguments) => PlanView::Invoke(
                                CallView { id, operation, arguments },
                            ),
                            Err(FaultView::Invalid(message)) => PlanView::Reply(
                                ResponseView::failure(id, INVALID_PARAMS as int, message),
                            ),
                            Err(FaultView::Undecided(kind, value)) => PlanView::Decode(
                                kind,
                                value,
                            ),
                        }
                    },
                },
            },
        }
    }
}

/// The response to a call, given what came of it; `None` stands for a
/// gateway in which no client is installed.
pub open spec fn concluded(call: CallView, outcome: Option<OutcomeView>) -> ResponseView {
    match outcome {
        None => ResponseView::failure(call.id, NOT_INITIALIZED as int, not_initialized()),
        Some(OutcomeView::Failed(reason)) => ResponseView::failure(
            call.id,
            INTERNAL_ERROR as int,
            failure_prefix(call.operation) + reason,
        ),
        Some(OutcomeView::Unserializable(reason)) => ResponseView::failure(
            call.id,
            INTERNAL_ERROR as int,
            unserializable_prefix(call.operation) + reason,
        ),
        Some(OutcomeView::Quantity(bytes)) => ResponseView::success(
            call.id,
            JsonView::String(quantity(bytes)),
        ),
        Some(OutcomeView::Data(bytes)) => ResponseView::success(
            call.id,
            JsonView::String(data(bytes)),
        ),
        Some(OutcomeView::Flag(flag)) => ResponseView::success(call.id, JsonView::Bool(flag)),
        Some(OutcomeView::Document(value)) => ResponseView::success(call.id, value),
        Some(OutcomeView::Absent) => ResponseView::success(call.id, JsonView::Null),
    }
}

/// Once a run of parameters has met one that was not read, reading further
/// changes nothing.
pub proof fn lemma_first_fault_decides(
    kinds: Seq<ParamKind>,
    params: Seq<JsonView>,
    verdict: Option<VerdictView>,
    i: nat,
    n: nat,
)
    requires
        i <= n,
        read_first(kinds, params, verdict, i) is Err,
    ensures
        read_first(kinds, params, verdict, n) == read_first(kinds, params, verdict, i),
    decreases n,
{
    if i < n {
        lemma_first_fault_decides(kinds, params, verdict, i, (n - 1) as nat);
    }
}

/// How the message for a failure of the client starts.
fn failure_start(operation: Operation) -> (r: &'static str)
    ensures
        r@ == failure_prefix(operation),
{
    match operation {
        Operation::BlockByNumber => "Internal error: failed to get block: ",
        _ => "Internal error: ",
    }
}

/// How the message for an answer that could not be serialised starts.
fn unserializable_start(operation: Operation) -> (r: &'static str)
    ensures
        r@ == unserializable_prefix(operation),
{
    match operation {
        Operation::BlockByNumber | Operation::BlockByHash =>
            "Internal error: failed to serialize block: ",
        Operation::TransactionReceipt => "Internal error: failed to serialize receipt: ",
        Operation::TransactionByHash | Operation::TransactionByBlockHashAndIndex =>
            "Internal error: failed to serialize transaction: ",
        Operation::Logs | Operation::FilterChanges => "Internal error: failed to serialize logs: ",
        Operation::Syncing => "Internal error: failed to serialize sync state: ",
        Operation::BlockReceipts => "Internal error: failed to serialize receipts: ",
        _ => "Internal error: failed to serialize result: ",
    }
}

/// The identifier of the request, if it has one.
pub fn request_id(request: &Json) -> (r: Option<Json>)
    ensures
        optional_view(r) == request@.get("id"@),
{
    match request.get("id") {
        Some(id) => Some(id.clone()),
        None => None,
    }
}

/// Whether the request names protocol version 2.0.
fn check_version(request: &Json) -> (r: bool)
    ensures
        r == has_version(request@),
{
    match request.get("jsonrpc") {
        Some(version) => match version.as_str() {
            Some(text) => str_equal(text, "2.0"),
            None => false,
        },
        None => false,
    }
}

/// The method name of the request, if it has one that is a string.
fn find_method(request: &Json) -> (r: Option<&str>)
    ensures
        r matches Some(method) ==> method_of(request@) == Some(method@),
        r is None ==> method_of(request@) is None,
{
    match request.get("method") {
        Some(method) => method.as_str(),
        None => None,
    }
}

/// The parameter list of the request, if it has one that is an array.
fn find_params(request: &Json) -> (r: Option<&Vec<Json>>)
    ensures
        r matches Some(params) ==> params_of(request@) == Some(json_views(params@)),
        r is None ==> params_of(request@) is None,
{
    match request.get("params") {
        Some(params) => params.as_array(),
        None => None,
    }
}

/// The value of the reading of a run of parameters.
pub open spec fn readings_view(readings: Result<Vec<Argument>, Fault>) -> Result<
    Seq<ArgumentView>,
    FaultView,
> {
    match readings {
        Ok(arguments) => Ok(argument_views(arguments@)),
        Err(fault) => Err(fault@),
    }
}

/// Reads the parameters of an operation from the left and stops at the first
/// that cannot be read.
fn decode_all(kinds: &Vec<ParamKind>, params: &Vec<Json>, verdict: Option<&Verdict>) -> (r: Result<
    Vec<Argument>,
    Fault,
>)
    ensures
        readings_view(r) == read_first(
            kinds@,
            json_views(params@),
            verdict_view(verdict),
            kinds@.len(),
        ),
{
    let ghost views = json_views(params@);
    let ghost given = verdict_view(verdict);
    let null = Json::Null;
    let mut arguments: Vec<Argument> = Vec::new();
    let mut i: usize = 0;
    assert(argument_views(arguments@) =~= Seq::empty());
    while i < kinds.len()
        invariant
            i <= kinds.len(),
            views == json_views(params@),
            given == verdict_view(verdict),
            null@ == JsonView::Null,
            read_first(kinds@, views, given, i as nat) == Ok::<Seq<ArgumentView>, FaultView>(
                argument_views(arguments@),
            ),
        decreases kinds.len() - i,
    {
        let value = if i < params.len() {
            &params[i]
        } else {
            &null
        };
        let ghost before = argument_views(arguments@);
        match decode(kinds[i], value, verdict) {
            Ok(argument) => {
                arguments.push(argument);
                assert(argument_views(arguments@) =~= before.push(argument@));
            },
            Err(fault) => {
                proof {
                    lemma_first_fault_decides(
                        kinds@,
                        views,
                        given,
                        (i + 1) as nat,
                        kinds@.len(),
                    );
                }
                return Err(fault);
            },
        }
        i += 1;
    }
    Ok(arguments)
}

/// Decides what is to be done about a request.
///
/// The checks run in order, and the first fault found is the reply: a
/// version other than the string `2.0` and a method that is missing or no
/// string are invalid requests; a parameter list that is missing or no array
/// is an invalid parameter; a method name outside the table is an unknown
/// method; then each parameter is read as the table says, from the left.
/// Where a call request or a log filter is met and `verdict` is `None`, the
/// plan is to have it decoded; with a verdict, a refusal is the reply and an
/// acceptance lets the reading go on. A request that passes everything
/// becomes a call that carries the identifier of the request.
pub fn plan(request: &Json, verdict: Option<&Verdict>) -> (r: Plan)
    ensures
        r@ == planned(request@, verdict_view(verdict)),
{
    let id = request_id(request);
    if !check_version(request) {
        return Plan::Reply(
            RpcResponse::failure(
                id,
                INVALID_REQUEST,
                "Invalid Request: only JSON-RPC 2.0 is supported".to_owned(),
            ),
        );
    }
    let method = match find_method(request) {
        Some(method) => method,
        None => {
            return Plan::Reply(
                RpcResponse::failure(
                    id,
                    INVALID_REQUEST,
                    "Invalid Request: missing method".to_owned(),
                ),
            );
        },
    };
    let params = match find_params(request) {
        Some(params) => params,
        None => {
            return Plan::Reply(
                RpcResponse::failure(
                    id,
                    INVALID_PARAMS,
                    "Invalid params: missing or invalid params".to_owned(),
                ),
            );
        },
    };
    let operation = match Operation::resolve(method) {
        Some(operation) => operation,
        None => {
            let message = String::from_str("Method not found: ").concat(method).concat(
                " is not supported",
            );
            return Plan::Reply(RpcResponse::failure(id, METHOD_NOT_FOUND, message));
        },
    };
    let kinds = operation.signature();
    match decode_all(&kinds, params, verdict) {
        Ok(arguments) => Plan::Invoke(ClientCall { id, operation, arguments }),
        Err(Fault::Invalid(message)) => Plan::Reply(
            RpcResponse::failure(id, INVALID_PARAMS, message),
        ),
        Err(Fault::Undecided(kind, value)) => Plan::Decode(kind, value),
    }
}

/// Concludes a call with what came of it.
///
/// Without a client (`None`) the response is the not-initialised error. A
/// failure of the client, or an answer that could not be serialised, is an
/// internal error that carries the description. A number is written in
/// hexadecimal without leading zeros, a byte string with two digits a byte,
/// both after `0x`; a truth value, a document and an absent value are the
/// result as they are, the absent value as null. The response carries the
/// identifier of the call.
pub fn conclude(call: &ClientCall, outcome: Option<ClientOutcome>) -> (r: RpcResponse)
    ensures
        r@ == concluded(call@, outcome_view(outcome)),
{
    let id = match &call.id {
        Some(id) => Some(id.clone()),
        None => None,
    };
    match outcome {
        None => RpcResponse::failure(
            id,
            NOT_INITIALIZED,
            "Light client not initialized".to_owned(),
        ),
        Some(ClientOutcome::Failed(reason)) => RpcResponse::failure(
            id,
            INTERNAL_ERROR,
            String::from_str(failure_start(call.operation)).concat(reason.as_str()),
        ),
        Some(ClientOutcome::Unserializable(reason)) => RpcResponse::failure(
            id,
            INTERNAL_ERROR,
            String::from_str(unserializable_start(call.operation)).concat(reason.as_str()),
        ),
        Some(ClientOutcome::Quantity(bytes)) => RpcResponse::success(
            id,
            Json::String(write_quantity(bytes.as_slice())),
        ),
        Some(ClientOutcome::Data(bytes)) => RpcResponse::success(
            id,
            Json::String(write_data(bytes.as_slice())),
        ),
        Some(ClientOutcome::Flag(flag)) => RpcResponse::success(id, Json::Bool(flag)),
        Some(ClientOutcome::Document(value)) => RpcResponse::success(id, value),
        Some(ClientOutcome::Absent) => RpcResponse::success(id, Json::Null),
    }
}

} // verus!
