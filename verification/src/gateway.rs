//! The gateway as a whole: a request goes in, a response comes out.
//!
//! `dispatch` joins the dispatcher and the lifecycle for a host that can
//! call its client directly. A host whose client suspends takes the same
//! steps itself: `plan`, the client operation, then `conclude`.

use crate::dispatch::{
    conclude, concluded, method_of, params_of, plan, planned, read_first, CallView, ClientCall,
    ClientOutcome, OutcomeView, Plan, PlanView,
};
use crate::json::{Json, JsonView};
use crate::lifecycle::{GatewayState, Phase};
use crate::method::{Operation, ParamKind};
use crate::params::{FaultView, Verdict, VerdictView};
use crate::response::{ResponseView, RpcResponse};
use vstd::pervasive::unreached;
use vstd::prelude::*;

verus! {

/// The response to a request, given the verdict on its object parameter and
/// what came of the client operation; `None` for the outcome stands for a
/// gateway without a client. A plan that still waits for a verdict has no
/// response.
pub open spec fn answered(
    request: JsonView,
    verdict: Option<VerdictView>,
    outcome: Option<OutcomeView>,
) -> Option<ResponseView> {
    match planned(request, verdict) {
        PlanView::Reply(response) => Some(response),
        PlanView::Invoke(call) => Some(concluded(call, outcome)),
        PlanView::Decode(_, _) => None,
    }
}

/// With a verdict in hand no reading is undecided.
pub proof fn lemma_verdict_decides(
    kinds: Seq<ParamKind>,
    params: Seq<JsonView>,
    verdict: VerdictView,
    n: nat,
)
    ensures
        !(read_first(kinds, params, Some(verdict), n) matches Err(FaultView::Undecided(_, _))),
    decreases n,
{
    if n > 0 {
        lemma_verdict_decides(kinds, params, verdict, (n - 1) as nat);
    }
}

/// With a verdict in hand every request has a response.
pub proof fn lemma_verdict_gives_response(
    request: JsonView,
    verdict: VerdictView,
    outcome: Option<OutcomeView>,
)
    ensures
        !(planned(request, Some(verdict)) is Decode),
        answered(request, Some(verdict), outcome) is Some,
{
    match method_of(request) {
        Some(method) => match Operation::named(method) {
            Some(operation) => match params_of(request) {
                Some(params) => {
                    let kinds = operation.parameters();
                    lemma_verdict_decides(kinds, params, verdict, kinds.len());
                },
                None => {},
            },
            None => {},
        },
        None => {},
    }
}

/// Whether `response` concludes `call` in `state`: with what `run` returned
/// for the installed client and the call, or as not initialised where no
/// client is installed.
pub open spec fn served<T, F: FnOnce(&T, &ClientCall) -> ClientOutcome>(
    state: &GatewayState<T>,
    run: F,
    call: CallView,
    response: ResponseView,
) -> bool {
    match state.phase() {
        Phase::Running(client) => exists|given: ClientCall, outcome: ClientOutcome|
            given@ == call && #[trigger] call_ensures(run, (&client, &given), outcome) && response
                == concluded(call, Some(outcome@)),
        _ => response == concluded(call, None),
    }
}

/// Whether `response` is what a plan leads to: the reply of the plan, or the
/// conclusion of its call. A plan that asks for an object to be decoded leads
/// to no response.
pub open spec fn carried_out<T, F: FnOnce(&T, &ClientCall) -> ClientOutcome>(
    state: &GatewayState<T>,
    run: F,
    plan: PlanView,
    response: ResponseView,
) -> bool {
    match plan {
        PlanView::Reply(reply) => response == reply,
        PlanView::Invoke(call) => served(state, run, call, response),
        PlanView::Decode(_, _) => false,
    }
}

/// Whether `response` answers `request` in `state`: the request is planned;
/// where the plan asks for an object to be decoded, it is planned again with
/// what `decode` returned for that object; and the plan is carried out.
pub open spec fn dispatched<T, D, F>(
    state: &GatewayState<T>,
    request: JsonView,
    decode: D,
    run: F,
    response: ResponseView,
) -> bool where D: FnOnce(ParamKind, &Json) -> Verdict, F: FnOnce(&T, &ClientCall) -> ClientOutcome {
    match planned(request, None) {
        PlanView::Decode(kind, value) => exists|object: Json, verdict: Verdict|
            object@ == value && #[trigger] call_ensures(decode, (kind, &object), verdict)
                && carried_out(state, run, planned(request, Some(verdict@)), response),
        first => carried_out(state, run, first, response),
    }
}

/// Answers a request.
///
/// The request is planned. Where the plan asks for an object to be decoded,
/// `decode` is called once with the kind and the object, and the request is
/// planned again with its verdict. Where the plan is a call and a client is
/// installed, `run` is called once with the client and the call, and the call
/// is concluded with what it returned; without a client the call is
/// concluded as not initialised and `run` is not called. Every request gets
/// a response; no fault escapes in any other way.
pub fn dispatch<T, D, F>(state: &GatewayState<T>, request: &Json, decode: D, run: F) -> (r:
    RpcResponse) where D: FnOnce(ParamKind, &Json) -> Verdict, F: FnOnce(&T, &ClientCall) -> ClientOutcome
    requires
        forall|kind: ParamKind, value: &Json| call_requires(decode, (kind, value)),
        forall|client: &T, call: &ClientCall| call_requires(run, (client, call)),
    ensures
        dispatched(state, request@, decode, run, r@),
{
    let settled = match plan(request, None) {
        Plan::Decode(kind, value) => {
            let verdict = decode(kind, &value);
            proof {
                lemma_verdict_gives_response(request@, verdict@, None);
            }
            plan(request, Some(&verdict))
        },
        other => other,
    };
    let ghost target = settled@;
    assert(match planned(request@, None) {
        PlanView::Decode(kind, value) => exists|object: Json, verdict: Verdict|
            object@ == value && #[trigger] call_ensures(decode, (kind, &object), verdict)
                && target == planned(request@, Some(verdict@)),
        first => target == first,
    });
    match settled {
        Plan::Reply(response) => response,
        Plan::Invoke(call) => match state.client() {
            Ok(client) => {
                let outcome = run(client, &call);
                conclude(&call, Some(outcome))
            },
            Err(_) => conclude(&call, None),
        },
        Plan::Decode(_, _) => unreached(),
    }
}

} // verus!
