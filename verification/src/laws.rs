//! What holds of every request: theorems about the dispatcher, stated over
//! the spec functions that its contracts use.

use crate::dispatch::{
    bad_version, concluded, has_version, method_of, not_initialized, param_at, params_of, planned,
    read_first, unknown_method, CallView, ClientCall, ClientOutcome, OutcomeView, PlanView,
};
use crate::gateway::{answered, carried_out, dispatched, served};
use crate::json::{lemma_first_member_unique, Json, JsonView};
use crate::lifecycle::GatewayState;
use crate::method::{Operation, ParamKind};
use crate::params::{read, Verdict, VerdictView};
use crate::response::{
    ResponseView, INTERNAL_ERROR, INVALID_REQUEST, METHOD_NOT_FOUND, NOT_INITIALIZED,
};
use vstd::prelude::*;

verus! {

/// The member names of a response differ from one another.
proof fn lemma_member_names()
    ensures
        "jsonrpc"@ != "id"@,
        "jsonrpc"@ != "result"@,
        "jsonrpc"@ != "error"@,
        "id"@ != "result"@,
        "id"@ != "error"@,
        "result"@ != "error"@,
{
    reveal_strlit("jsonrpc");
    reveal_strlit("id");
    reveal_strlit("result");
    reveal_strlit("error");
    assert("result"@.len() == 6);
    assert("id"@[0] != "error"@[0]);
}

/// On the wire a response names version 2.0, carries its identifier under
/// `id` exactly when it has one, and carries exactly one of `result` and
/// `error`.
pub proof fn lemma_wire_members(response: ResponseView)
    ensures
        response.wire().get("jsonrpc"@) == Some(JsonView::String("2.0"@)),
        response.wire().get("id"@) == response.id,
        response.outcome matches Ok(value) ==> response.wire().get("result"@) == Some(value)
            && response.wire().get("error"@) is None,
        response.outcome matches Err(error) ==> response.wire().get("error"@) == Some(
            error.wire(),
        ) && response.wire().get("result"@) is None,
{
    lemma_member_names();
    let members = response.members();
    let shift: int = if response.id is Some {
        1
    } else {
        0
    };
    lemma_first_member_unique(members, "jsonrpc"@, 0);
    match response.id {
        Some(_) => lemma_first_member_unique(members, "id"@, 1),
        None => lemma_first_member_unique(members, "id"@, members.len() as int),
    }
    match response.outcome {
        Ok(_) => {
            lemma_first_member_unique(members, "result"@, 1 + shift);
            lemma_first_member_unique(members, "error"@, members.len() as int);
        },
        Err(_) => {
            lemma_first_member_unique(members, "error"@, 1 + shift);
            lemma_first_member_unique(members, "result"@, members.len() as int);
        },
    }
}

/// A request that does not carry the string `2.0` under `jsonrpc` is
/// answered with the invalid-request error, whatever else it holds, and the
/// response has no result.
pub proof fn lemma_version_is_required(request: JsonView, verdict: Option<VerdictView>)
    requires
        !has_version(request),
    ensures
        planned(request, verdict) == PlanView::Reply(
            ResponseView::failure(request.get("id"@), INVALID_REQUEST as int, bad_version()),
        ),
        planned(request, verdict) matches PlanView::Reply(response) && response.error_code()
            == Some(-32600int) && response.wire().get("result"@) is None,
{
    lemma_wire_members(
        ResponseView::failure(request.get("id"@), INVALID_REQUEST as int, bad_version()),
    );
}

/// A well-formed request whose method is not in the table is answered with
/// the method-not-found error, and the message holds the method name as it
/// was sent.
pub proof fn lemma_unknown_method(
    request: JsonView,
    verdict: Option<VerdictView>,
    method: Seq<char>,
)
    requires
        has_version(request),
        params_of(request) is Some,
        method_of(request) == Some(method),
        Operation::named(method) is None,
    ensures
        planned(request, verdict) == PlanView::Reply(
            ResponseView::failure(
                request.get("id"@),
                METHOD_NOT_FOUND as int,
                unknown_method(method),
            ),
        ),
        planned(request, verdict) matches PlanView::Reply(response) && response.error_code()
            == Some(-32601int),
        unknown_method(method).subrange(
            "Method not found: "@.len() as int,
            ("Method not found: "@.len() + method.len()) as int,
        ) == method,
{
    let start = "Method not found: "@;
    assert(unknown_method(method).subrange(
        start.len() as int,
        (start.len() + method.len()) as int,
    ) =~= method);
}

/// Every response carries the identifier of its request: the same value
/// where the request has one, none where it has none. This holds of a reply
/// made at once, of a call handed to the host, of the response that
/// concludes the call, and of the member `id` on the wire.
pub proof fn lemma_identifier_is_echoed(
    request: JsonView,
    verdict: Option<VerdictView>,
    outcome: Option<OutcomeView>,
)
    ensures
        planned(request, verdict) matches PlanView::Reply(response) ==> response.id
            == request.get("id"@),
        planned(request, verdict) matches PlanView::Invoke(call) ==> call.id == request.get(
            "id"@,
        ),
        answered(request, verdict, outcome) matches Some(response) ==> response.id
            == request.get("id"@) && response.wire().get("id"@) == request.get("id"@),
{
    match answered(request, verdict, outcome) {
        Some(response) => lemma_wire_members(response),
        None => {},
    }
}

/// A parameter that was read is of the type that its kind is read into.
pub proof fn lemma_reading_fits(kind: ParamKind, value: JsonView, verdict: Option<VerdictView>)
    ensures
        read(kind, value, verdict) matches Ok(argument) ==> argument.fits(kind),
{
}

/// The arguments read from a run of parameters are as many as the
/// parameters, each of the type of its parameter.
pub proof fn lemma_readings_fit(
    kinds: Seq<ParamKind>,
    params: Seq<JsonView>,
    verdict: Option<VerdictView>,
    n: nat,
)
    requires
        n <= kinds.len(),
    ensures
        read_first(kinds, params, verdict, n) matches Ok(arguments) ==> arguments.len() == n
            && forall|i: int| 0 <= i < n ==> (#[trigger] arguments[i]).fits(kinds[i]),
    decreases n,
{
    if n > 0 {
        lemma_readings_fit(kinds, params, verdict, (n - 1) as nat);
        lemma_reading_fits(kinds[n - 1], param_at(params, n - 1), verdict);
    }
}

/// A call handed to the host names an operation of the table and has one
/// argument for each parameter of that operation, each of the type of its
/// parameter; and the operation is the one that the method of the request
/// names.
pub proof fn lemma_call_fits_operation(request: JsonView, verdict: Option<VerdictView>)
    ensures
        planned(request, verdict) matches PlanView::Invoke(call) ==> {
            &&& method_of(request) matches Some(method) && Operation::named(method) == Some(
                call.operation,
            )
            &&& call.arguments.len() == call.operation.parameters().len()
            &&& forall|i: int|
                0 <= i < call.arguments.len() ==> (#[trigger] call.arguments[i]).fits(
                    call.operation.parameters()[i],
                )
        },
{
    match planned(request, verdict) {
        PlanView::Invoke(call) => {
            let kinds = call.operation.parameters();
            lemma_readings_fit(kinds, params_of(request).unwrap(), verdict, kinds.len());
        },
        _ => {},
    }
}

/// Without a client every call is answered with the not-initialised error;
/// with a client the response is a result or the internal error, and never
/// the not-initialised error.
pub proof fn lemma_not_initialized_only_without_client(call: CallView, outcome: OutcomeView)
    ensures
        concluded(call, None).error_code() == Some(-32000int),
        concluded(call, Some(outcome)).outcome is Ok || concluded(
            call,
            Some(outcome),
        ).error_code() == Some(-32603int),
        concluded(call, Some(outcome)).error_code() != Some(-32000int),
{
}

/// Where the state of the gateway and the request come together: without an
/// installed client a call is answered with the not-initialised error; with
/// one it is answered with a result or the internal error, never with the
/// not-initialised error.
pub proof fn lemma_served_by_state<T, F: FnOnce(&T, &ClientCall) -> ClientOutcome>(
    state: &GatewayState<T>,
    run: F,
    call: CallView,
    response: ResponseView,
)
    requires
        served(state, run, call, response),
    ensures
        !state.is_running() ==> response == ResponseView::failure(
            call.id,
            -32000int,
            not_initialized(),
        ),
        state.is_running() ==> response.error_code() != Some(-32000int) && (response.outcome is Ok
            || response.error_code() == Some(-32603int)),
        response.id == call.id,
{
}

/// Whether a decoder gives equal verdicts on equal objects.
pub open spec fn decodes_alike<D: FnOnce(ParamKind, &Json) -> Verdict>(decode: D) -> bool {
    forall|kind: ParamKind, a: &Json, b: &Json, x: Verdict, y: Verdict|
        a@ == b@ && #[trigger] call_ensures(decode, (kind, a), x) && #[trigger] call_ensures(
            decode,
            (kind, b),
            y,
        ) ==> x@ == y@
}

/// Whether a client gives equal outcomes to equal calls, as one does whose
/// chain has not moved.
pub open spec fn answers_alike<T, F: FnOnce(&T, &ClientCall) -> ClientOutcome>(run: F) -> bool {
    forall|client: &T, a: &ClientCall, b: &ClientCall, x: ClientOutcome, y: ClientOutcome|
        a@ == b@ && #[trigger] call_ensures(run, (client, a), x) && #[trigger] call_ensures(
            run,
            (client, b),
            y,
        ) ==> x@ == y@
}

/// Against a client that answers equal calls equally, the same plan is
/// carried out to the same response every time.
pub proof fn lemma_same_plan_same_response<T, F: FnOnce(&T, &ClientCall) -> ClientOutcome>(
    state: &GatewayState<T>,
    run: F,
    plan: PlanView,
    first: ResponseView,
    second: ResponseView,
)
    requires
        carried_out(state, run, plan, first),
        carried_out(state, run, plan, second),
        answers_alike::<T, F>(run),
    ensures
        first == second,
{
}

/// The same request, sent twice to a gateway whose state has not changed and
/// whose client and decoder answer alike, gets the same response twice.
pub proof fn lemma_same_request_same_response<T, D, F>(
    state: &GatewayState<T>,
    request: JsonView,
    decode: D,
    run: F,
    first: ResponseView,
    second: ResponseView,
) where D: FnOnce(ParamKind, &Json) -> Verdict, F: FnOnce(&T, &ClientCall) -> ClientOutcome
    requires
        dispatched(state, request, decode, run, first),
        dispatched(state, request, decode, run, second),
        decodes_alike(decode),
        answers_alike::<T, F>(run),
    ensures
        first == second,
{
    match planned(request, None) {
        PlanView::Decode(kind, value) => {
            let (a, x) = choose|a: Json, x: Verdict|
                a@ == value && #[trigger] call_ensures(decode, (kind, &a), x) && carried_out(
                    state,
                    run,
                    planned(request, Some(x@)),
                    first,
                );
            let (b, y) = choose|b: Json, y: Verdict|
                b@ == value && #[trigger] call_ensures(decode, (kind, &b), y) && carried_out(
                    state,
                    run,
                    planned(request, Some(y@)),
                    second,
                );
            lemma_same_plan_same_response(state, run, planned(request, Some(x@)), first, second);
        },
        plan => {
            lemma_same_plan_same_response(state, run, plan, first, second);
        },
    }
}

} // verus!
