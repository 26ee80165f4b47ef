use rpc_gateway::dispatch::{ClientCall, ClientOutcome};
use rpc_gateway::gateway::dispatch;
use rpc_gateway::json::{Json, Number};
use rpc_gateway::lifecycle::GatewayState;
use rpc_gateway::method::{Operation, ParamKind};
use rpc_gateway::params::Verdict;
use serde_json::Value;

struct FakeClient {
    chain_id: u64,
}

fn from_value(value: Value) -> Json {
    match value {
        Value::Null => Json::Null,
        Value::Bool(flag) => Json::Bool(flag),
        Value::Number(number) => Json::Number(if let Some(n) = number.as_u64() {
            Number::PosInt(n)
        } else if let Some(n) = number.as_i64() {
            Number::NegInt(n)
        } else {
            Number::Float(number.as_f64().unwrap().to_bits())
        }),
        Value::String(text) => Json::String(text),
        Value::Array(items) => Json::Array(items.into_iter().map(from_value).collect()),
        Value::Object(members) => {
            Json::Object(members.into_iter().map(|(k, v)| (k, from_value(v))).collect())
        }
    }
}

fn to_value(json: &Json) -> Value {
    match json {
        Json::Null => Value::Null,
        Json::Bool(flag) => Value::Bool(*flag),
        Json::Number(Number::PosInt(n)) => Value::from(*n),
        Json::Number(Number::NegInt(n)) => Value::from(*n),
        Json::Number(Number::Float(bits)) => Value::from(f64::from_bits(*bits)),
        Json::String(text) => Value::String(text.clone()),
        Json::Array(items) => Value::Array(items.iter().map(to_value).collect()),
        Json::Object(members) => {
            let mut map = serde_json::Map::new();
            for (name, value) in members {
                if !map.contains_key(name) {
                    map.insert(name.clone(), to_value(value));
                }
            }
            Value::Object(map)
        }
    }
}

fn parse(text: &str) -> Value {
    serde_json::from_str(text).unwrap()
}

fn no_objects(_: ParamKind, _: &Json) -> Verdict {
    panic!("no object was expected")
}

fn run(client: &FakeClient, call: &ClientCall) -> ClientOutcome {
    match call.operation {
        Operation::ChainId => ClientOutcome::Quantity(client.chain_id.to_be_bytes().to_vec()),
        Operation::Coinbase => ClientOutcome::Data(vec![0xab; 20]),
        Operation::UninstallFilter => ClientOutcome::Flag(true),
        Operation::TransactionReceipt => ClientOutcome::Absent,
        Operation::Syncing => ClientOutcome::Document(Json::Bool(false)),
        Operation::BlockByNumber => ClientOutcome::Unserializable("bad float".to_string()),
        _ => ClientOutcome::Failed("no route to host".to_string()),
    }
}

fn running(chain_id: u64) -> GatewayState<FakeClient> {
    let mut state = GatewayState::new();
    state.begin().unwrap();
    state.publish(FakeClient { chain_id }).unwrap();
    state
}

fn exchange(state: &GatewayState<FakeClient>, request: &str) -> Value {
    let request = from_value(parse(request));
    to_value(&dispatch(state, &request, no_objects, run).to_json())
}

#[test]
fn block_by_number_before_initialization_on_the_wire() {
    let state = GatewayState::new();
    let got = exchange(
        &state,
        r#"{"jsonrpc":"2.0","id":1,"method":"eth_getBlockByNumber","params":["latest",false]}"#,
    );
    let want = parse(
        r#"{"jsonrpc":"2.0","id":1,"error":{"code":-32000,"message":"Light client not initialized"}}"#,
    );
    assert_eq!(got, want);
}

#[test]
fn malformed_address_on_the_wire() {
    let state = running(1);
    let got = exchange(
        &state,
        r#"{"jsonrpc":"2.0","method":"eth_getBalance","params":["0xNOTANADDR","latest"]}"#,
    );
    let want = parse(
        r#"{"jsonrpc":"2.0","error":{"code":-32602,"message":"Invalid params: invalid address format"}}"#,
    );
    assert_eq!(got, want);
}

#[test]
fn version_one_on_the_wire() {
    let want_code = Value::from(-32600);
    for state in [GatewayState::new(), running(1)] {
        for request in [
            r#"{"jsonrpc":"1.0","id":7,"method":"eth_chainId","params":[]}"#,
            r#"{"jsonrpc":"1.0","id":7,"method":"no_such_method","params":[]}"#,
            r#"{"jsonrpc":"1.0","id":7,"method":"eth_getBalance","params":["zz"]}"#,
            r#"{"jsonrpc":"1.0","id":7}"#,
            r#"{"jsonrpc":"1.0","id":7,"method":5,"params":{}}"#,
        ] {
            let got = exchange(&state, request);
            assert_eq!(got["error"]["code"], want_code);
            assert_eq!(got["id"], Value::from(7));
            assert_eq!(got["jsonrpc"], Value::from("2.0"));
            assert!(got.get("result").is_none());
        }
    }
}

#[test]
fn chain_id_after_initialization_on_the_wire() {
    let state = running(1);
    let got = exchange(&state, r#"{"jsonrpc":"2.0","method":"eth_chainId","params":[]}"#);
    assert_eq!(got, parse(r#"{"jsonrpc":"2.0","result":"0x1"}"#));
    let sepolia = running(11155111);
    let got = exchange(&sepolia, r#"{"jsonrpc":"2.0","id":"a","method":"eth_chainId","params":[]}"#);
    assert_eq!(got, parse(r#"{"jsonrpc":"2.0","id":"a","result":"0xaa36a7"}"#));
}

#[test]
fn identifiers_of_every_shape_come_back_unchanged() {
    let state = running(1);
    for id in [
        "0", "1", "-1", "18446744073709551615", "-9223372036854775808", "1.5", "1e300", "\"\"",
        "\"abc\"", "null", "true", "[1,\"two\",[3]]", "{\"a\":{\"b\":null}}",
    ] {
        for method in ["eth_chainId", "eth_mining"] {
            let request = format!(r#"{{"jsonrpc":"2.0","id":{},"method":"{}","params":[]}}"#, id, method);
            let got = exchange(&state, &request);
            assert_eq!(got["id"], parse(id), "{}", id);
            assert_eq!(
                serde_json::to_string(&got["id"]).unwrap(),
                serde_json::to_string(&parse(id)).unwrap()
            );
        }
    }
    let got = exchange(&state, r#"{"jsonrpc":"2.0","method":"eth_chainId","params":[]}"#);
    assert!(got.get("id").is_none());
}

#[test]
fn results_and_failures_of_a_running_client() {
    let state = running(1);
    let ask = |method: &str, params: &str| {
        exchange(
            &state,
            &format!(r#"{{"jsonrpc":"2.0","id":1,"method":"{}","params":{}}}"#, method, params),
        )
    };
    let address = format!("0x{}", "ab".repeat(20));
    assert_eq!(ask("eth_coinbase", "[]")["result"], Value::from(address));
    assert_eq!(ask("eth_uninstallFilter", r#"["0x1"]"#)["result"], Value::from(true));
    let hash = format!("0x{}", "11".repeat(32));
    let receipt = ask("eth_getTransactionReceipt", &format!(r#"["{}"]"#, hash));
    assert_eq!(receipt, parse(r#"{"jsonrpc":"2.0","id":1,"result":null}"#));
    assert_eq!(ask("eth_syncing", "[]")["result"], Value::from(false));
    assert_eq!(
        ask("eth_gasPrice", "[]"),
        parse(r#"{"jsonrpc":"2.0","id":1,"error":{"code":-32603,"message":"Internal error: no route to host"}}"#)
    );
    assert_eq!(
        ask("eth_getBlockByNumber", r#"["latest",true]"#)["error"]["message"],
        Value::from("Internal error: failed to serialize block: bad float")
    );
}

#[test]
fn the_client_is_not_asked_for_a_request_that_is_refused() {
    let state = running(1);
    let never = |_: &FakeClient, _: &ClientCall| -> ClientOutcome { panic!("the client was asked") };
    for request in [
        r#"{"id":1,"method":"eth_chainId","params":[]}"#,
        r#"{"jsonrpc":"2.0","id":1,"params":[]}"#,
        r#"{"jsonrpc":"2.0","id":1,"method":"eth_chainId"}"#,
        r#"{"jsonrpc":"2.0","id":1,"method":"eth_unknown","params":[]}"#,
        r#"{"jsonrpc":"2.0","id":1,"method":"eth_getCode","params":["0x00","latest"]}"#,
        r#"[]"#,
        r#""eth_chainId""#,
    ] {
        let request = from_value(parse(request));
        let response = dispatch(&state, &request, no_objects, never);
        assert!(response.outcome.is_err());
    }
}

#[test]
fn objects_are_decoded_once_and_only_where_they_are_read() {
    let state = running(1);
    let accept = |kind: ParamKind, value: &Json| -> Verdict {
        assert_eq!(kind, ParamKind::LogFilter);
        assert_eq!(to_value(value), parse(r#"{"address":"0x00"}"#));
        Verdict::Accepted
    };
    let seen = |_: &FakeClient, call: &ClientCall| -> ClientOutcome {
        assert_eq!(call.operation, Operation::Logs);
        ClientOutcome::Document(Json::Array(vec![]))
    };
    let request = from_value(parse(
        r#"{"jsonrpc":"2.0","id":3,"method":"eth_getLogs","params":[{"address":"0x00"}]}"#,
    ));
    let response = dispatch(&state, &request, accept, seen);
    assert_eq!(to_value(&response.to_json()), parse(r#"{"jsonrpc":"2.0","id":3,"result":[]}"#));
    let reject = |_: ParamKind, _: &Json| Verdict::Rejected("missing field `to`".to_string());
    let request = from_value(parse(
        r#"{"jsonrpc":"2.0","id":3,"method":"eth_estimateGas","params":[{}]}"#,
    ));
    let response = dispatch(&state, &request, reject, run);
    assert_eq!(
        to_value(&response.to_json()),
        parse(
            r#"{"jsonrpc":"2.0","id":3,"error":{"code":-32602,"message":"Invalid params: invalid transaction request: missing field `to`"}}"#
        )
    );
    let empty: GatewayState<FakeClient> = GatewayState::new();
    let response = dispatch(&empty, &request, |_, _| Verdict::Accepted, run);
    assert_eq!(response.outcome.unwrap_err().code, -32000);
}

#[test]
fn the_same_request_twice_gives_the_same_response() {
    let state = running(5);
    let request = r#"{"jsonrpc":"2.0","id":1,"method":"eth_chainId","params":[]}"#;
    assert_eq!(exchange(&state, request), exchange(&state, request));
    assert_eq!(exchange(&state, request)["result"], Value::from("0x5"));
}

#[test]
fn before_and_after_initialization() {
    let mut state: GatewayState<FakeClient> = GatewayState::new();
    let requests = [
        r#"{"jsonrpc":"2.0","id":1,"method":"eth_chainId","params":[]}"#,
        r#"{"jsonrpc":"2.0","id":1,"method":"eth_gasPrice","params":[]}"#,
        r#"{"jsonrpc":"2.0","id":1,"method":"eth_syncing","params":[]}"#,
        r#"{"jsonrpc":"2.0","id":1,"method":"eth_getBlockByNumber","params":["latest",false]}"#,
    ];
    for request in requests {
        assert_eq!(exchange(&state, request)["error"]["code"], Value::from(-32000));
    }
    state.begin().unwrap();
    for request in requests {
        assert_eq!(exchange(&state, request)["error"]["code"], Value::from(-32000));
    }
    state.publish(FakeClient { chain_id: 1 }).unwrap();
    for request in requests {
        let got = exchange(&state, request);
        let code = got.get("error").map(|e| e["code"].clone());
        assert!(got.get("result").is_some() || code == Some(Value::from(-32603)));
    }
}

#[test]
fn duplicate_members_resolve_to_the_first() {
    let doc = Json::Object(vec![
        ("a".to_string(), Json::Bool(true)),
        ("a".to_string(), Json::Bool(false)),
    ]);
    assert_eq!(to_value(&doc), parse(r#"{"a":true}"#));
    assert_eq!(doc.get("a"), Some(&Json::Bool(true)));
}
