use rpc_gateway::dispatch::{conclude, plan, request_id, ClientCall, ClientOutcome, Plan};
use rpc_gateway::json::{Json, Number};
use rpc_gateway::method::ParamKind::{
    Address, BlockTag as TagKind, CallRequest, FilterId, Flag, Index, LogFilter, RawBytes, Word,
};
use rpc_gateway::method::{Operation, ParamKind};
use rpc_gateway::params::{Argument, BlockTag, Verdict};
use rpc_gateway::response::{RpcError, RpcResponse};

fn text(s: &str) -> Json {
    Json::String(s.to_string())
}

fn num(n: u64) -> Json {
    Json::Number(Number::PosInt(n))
}

fn object(members: Vec<(&str, Json)>) -> Json {
    Json::Object(members.into_iter().map(|(k, v)| (k.to_string(), v)).collect())
}

fn request(id: Option<Json>, method: &str, params: Vec<Json>) -> Json {
    let mut members = vec![("jsonrpc", text("2.0"))];
    if let Some(id) = id {
        members.push(("id", id));
    }
    members.push(("method", text(method)));
    members.push(("params", Json::Array(params)));
    object(members)
}

fn failure(id: Option<Json>, code: i32, message: &str) -> RpcResponse {
    RpcResponse { id, outcome: Err(RpcError { code, message: message.to_string() }) }
}

fn call(id: Option<Json>, operation: Operation, arguments: Vec<Argument>) -> ClientCall {
    ClientCall { id, operation, arguments }
}

const ADDRESS: &str = "0x00000000219ab540356cBB839Cbe05303d7705Fa";

const ADDRESS_BYTES: [u8; 20] = [
    0x00, 0x00, 0x00, 0x00, 0x21, 0x9a, 0xb5, 0x40, 0x35, 0x6c, 0xbb, 0x83, 0x9c, 0xbe, 0x05, 0x30,
    0x3d, 0x77, 0x05, 0xfa,
];

const WORD: &str = "0x0102030405060708090a0b0c0d0e0f101112131415161718191a1b1c1d1e1f20";

fn word_bytes() -> [u8; 32] {
    let mut bytes = [0u8; 32];
    for (i, b) in bytes.iter_mut().enumerate() {
        *b = (i + 1) as u8;
    }
    bytes
}

#[test]
fn block_by_number_before_initialization() {
    let req = request(Some(num(1)), "eth_getBlockByNumber", vec![text("latest"), Json::Bool(false)]);
    let planned = plan(&req, None);
    let expected_call = call(
        Some(num(1)),
        Operation::BlockByNumber,
        vec![Argument::Block(BlockTag::Latest), Argument::Flag(false)],
    );
    assert_eq!(planned, Plan::Invoke(expected_call));
    let Plan::Invoke(c) = planned else { panic!("expected a call") };
    let response = conclude(&c, None);
    assert_eq!(response, failure(Some(num(1)), -32000, "Light client not initialized"));
    assert_eq!(
        response.to_json(),
        object(vec![
            ("jsonrpc", text("2.0")),
            ("id", num(1)),
            (
                "error",
                object(vec![
                    ("code", Json::Number(Number::NegInt(-32000))),
                    ("message", text("Light client not initialized")),
                ])
            ),
        ])
    );
}

#[test]
fn balance_with_malformed_address() {
    let req = request(None, "eth_getBalance", vec![text("0xNOTANADDR"), text("latest")]);
    assert_eq!(
        plan(&req, None),
        Plan::Reply(failure(None, -32602, "Invalid params: invalid address format"))
    );
}

#[test]
fn version_one_is_refused_whatever_else_is_sent() {
    let req = object(vec![
        ("jsonrpc", text("1.0")),
        ("id", text("abc")),
        ("method", text("eth_chainId")),
        ("params", Json::Array(vec![])),
    ]);
    let expected = failure(
        Some(text("abc")),
        -32600,
        "Invalid Request: only JSON-RPC 2.0 is supported",
    );
    assert_eq!(plan(&req, None), Plan::Reply(expected));
    let garbage = object(vec![("jsonrpc", text("1.0")), ("method", num(7))]);
    assert_eq!(
        plan(&garbage, None),
        Plan::Reply(failure(None, -32600, "Invalid Request: only JSON-RPC 2.0 is supported"))
    );
}

#[test]
fn chain_id_one_is_written_as_0x1() {
    let req = request(None, "eth_chainId", vec![]);
    let Plan::Invoke(c) = plan(&req, None) else { panic!("expected a call") };
    assert_eq!(c, call(None, Operation::ChainId, vec![]));
    let response = conclude(&c, Some(ClientOutcome::Quantity(1u64.to_be_bytes().to_vec())));
    assert_eq!(response, RpcResponse { id: None, outcome: Ok(text("0x1")) });
    assert_eq!(
        response.to_json(),
        object(vec![("jsonrpc", text("2.0")), ("result", text("0x1"))])
    );
}

#[test]
fn missing_or_wrong_version_is_an_invalid_request() {
    let message = "Invalid Request: only JSON-RPC 2.0 is supported";
    let no_version = object(vec![("id", num(3)), ("method", text("eth_chainId"))]);
    assert_eq!(plan(&no_version, None), Plan::Reply(failure(Some(num(3)), -32600, message)));
    let number_version = object(vec![("jsonrpc", num(2)), ("method", text("eth_chainId"))]);
    assert_eq!(plan(&number_version, None), Plan::Reply(failure(None, -32600, message)));
    assert_eq!(plan(&Json::Null, None), Plan::Reply(failure(None, -32600, message)));
    assert_eq!(plan(&Json::Array(vec![]), None), Plan::Reply(failure(None, -32600, message)));
}

#[test]
fn missing_method_is_an_invalid_request() {
    let message = "Invalid Request: missing method";
    let none = object(vec![("jsonrpc", text("2.0")), ("id", Json::Null)]);
    assert_eq!(plan(&none, None), Plan::Reply(failure(Some(Json::Null), -32600, message)));
    let number = object(vec![("jsonrpc", text("2.0")), ("method", num(1))]);
    assert_eq!(plan(&number, None), Plan::Reply(failure(None, -32600, message)));
}

#[test]
fn missing_params_come_before_the_method_table() {
    let message = "Invalid params: missing or invalid params";
    let none = object(vec![("jsonrpc", text("2.0")), ("method", text("no_such_method"))]);
    assert_eq!(plan(&none, None), Plan::Reply(failure(None, -32602, message)));
    let named = object(vec![
        ("jsonrpc", text("2.0")),
        ("method", text("eth_chainId")),
        ("params", object(vec![])),
    ]);
    assert_eq!(plan(&named, None), Plan::Reply(failure(None, -32602, message)));
}

#[test]
fn unknown_method_is_named_in_the_message() {
    let req = request(Some(num(9)), "eth_mining", vec![]);
    assert_eq!(
        plan(&req, None),
        Plan::Reply(failure(Some(num(9)), -32601, "Method not found: eth_mining is not supported"))
    );
    let close = request(None, "eth_chainid", vec![]);
    assert_eq!(
        plan(&close, None),
        Plan::Reply(failure(None, -32601, "Method not found: eth_chainid is not supported"))
    );
}

#[test]
fn identifier_is_echoed_as_it_was_sent() {
    let ids = vec![
        num(1),
        Json::Number(Number::NegInt(-5)),
        Json::Number(Number::Float(1.5f64.to_bits())),
        text("seven"),
        Json::Null,
        Json::Array(vec![num(1), text("x")]),
        object(vec![("nested", Json::Bool(true))]),
    ];
    for id in ids {
        let bad = request(Some(id.clone()), "nope", vec![]);
        assert_eq!(request_id(&bad), Some(id.clone()));
        let Plan::Reply(r) = plan(&bad, None) else { panic!("expected a reply") };
        assert_eq!(r.id, Some(id.clone()));
        assert_eq!(r.to_json().get("id"), Some(&id));
        let good = request(Some(id.clone()), "eth_gasPrice", vec![]);
        let Plan::Invoke(c) = plan(&good, None) else { panic!("expected a call") };
        assert_eq!(c.id, Some(id.clone()));
        assert_eq!(conclude(&c, None).id, Some(id.clone()));
        assert_eq!(conclude(&c, Some(ClientOutcome::Absent)).id, Some(id.clone()));
    }
    let without = request(None, "eth_gasPrice", vec![]);
    let Plan::Invoke(c) = plan(&without, None) else { panic!("expected a call") };
    assert_eq!(c.id, None);
    let response = conclude(&c, Some(ClientOutcome::Absent));
    assert_eq!(response.id, None);
    assert_eq!(response.to_json().get("id"), None);
}

#[test]
fn every_method_resolves_to_its_operation() {
    let table = [
        ("eth_getBlockByNumber", Operation::BlockByNumber),
        ("eth_getBlockByHash", Operation::BlockByHash),
        ("eth_getBalance", Operation::Balance),
        ("eth_getCode", Operation::Code),
        ("eth_getStorageAt", Operation::StorageAt),
        ("eth_getTransactionCount", Operation::TransactionCount),
        ("eth_getBlockTransactionCountByHash", Operation::BlockTransactionCountByHash),
        ("eth_getBlockTransactionCountByNumber", Operation::BlockTransactionCountByNumber),
        ("eth_gasPrice", Operation::GasPrice),
        ("eth_chainId", Operation::ChainId),
        ("eth_sendRawTransaction", Operation::SendRawTransaction),
        ("eth_getTransactionReceipt", Operation::TransactionReceipt),
        ("eth_getTransactionByHash", Operation::TransactionByHash),
        ("eth_getTransactionByBlockHashAndIndex", Operation::TransactionByBlockHashAndIndex),
        ("eth_getLogs", Operation::Logs),
        ("eth_newFilter", Operation::NewFilter),
        ("eth_newBlockFilter", Operation::NewBlockFilter),
        ("eth_newPendingTransactionFilter", Operation::NewPendingTransactionFilter),
        ("eth_getFilterChanges", Operation::FilterChanges),
        ("eth_uninstallFilter", Operation::UninstallFilter),
        ("eth_syncing", Operation::Syncing),
        ("eth_coinbase", Operation::Coinbase),
        ("eth_call", Operation::Call),
        ("eth_estimateGas", Operation::EstimateGas),
        ("eth_maxPriorityFeePerGas", Operation::MaxPriorityFee),
        ("eth_getBlockReceipts", Operation::BlockReceipts),
    ];
    for (name, operation) in table {
        assert_eq!(Operation::resolve(name), Some(operation));
    }
    assert_eq!(Operation::resolve(""), None);
    assert_eq!(Operation::resolve("eth_getBalance "), None);
    assert_eq!(Operation::resolve("ETH_GETBALANCE"), None);
}

#[test]
fn signatures_follow_the_table() {
    assert_eq!(Operation::BlockByNumber.signature(), vec![TagKind, Flag]);
    assert_eq!(Operation::BlockByHash.signature(), vec![Word, Flag]);
    assert_eq!(Operation::StorageAt.signature(), vec![Address, Word, TagKind]);
    assert_eq!(Operation::TransactionByBlockHashAndIndex.signature(), vec![Word, Index]);
    assert_eq!(Operation::Call.signature(), vec![CallRequest, TagKind]);
    assert_eq!(Operation::EstimateGas.signature(), vec![CallRequest]);
    assert_eq!(Operation::Logs.signature(), vec![LogFilter]);
    assert_eq!(Operation::FilterChanges.signature(), vec![FilterId]);
    assert_eq!(Operation::SendRawTransaction.signature(), vec![RawBytes]);
    assert_eq!(Operation::GasPrice.signature(), vec![]);
}

#[test]
fn storage_at_reads_three_parameters() {
    let req = request(
        Some(num(4)),
        "eth_getStorageAt",
        vec![text(ADDRESS), text(WORD), text("latest")],
    );
    let expected = call(
        Some(num(4)),
        Operation::StorageAt,
        vec![
            Argument::Address(ADDRESS_BYTES),
            Argument::Word(word_bytes()),
            Argument::Block(BlockTag::Latest),
        ],
    );
    assert_eq!(plan(&req, None), Plan::Invoke(expected));
}

#[test]
fn first_fault_from_the_left_decides() {
    let both_bad = request(None, "eth_getStorageAt", vec![text("zz"), num(1), text("earliest")]);
    assert_eq!(
        plan(&both_bad, None),
        Plan::Reply(failure(None, -32602, "Invalid params: invalid address format"))
    );
    let second_bad = request(None, "eth_getStorageAt", vec![text(ADDRESS), num(1), text("x")]);
    assert_eq!(
        plan(&second_bad, None),
        Plan::Reply(failure(None, -32602, "Invalid params: invalid hash format"))
    );
    let third_bad = request(None, "eth_getStorageAt", vec![text(ADDRESS), text(WORD), text("x")]);
    assert_eq!(
        plan(&third_bad, None),
        Plan::Reply(failure(
            None,
            -32602,
            "Invalid params: only 'latest' block tag is currently supported"
        ))
    );
}

#[test]
fn a_parameter_that_was_not_supplied_is_refused() {
    let none = request(None, "eth_getBlockByNumber", vec![]);
    assert_eq!(
        plan(&none, None),
        Plan::Reply(failure(
            None,
            -32602,
            "Invalid params: only 'latest' block tag is currently supported"
        ))
    );
    let one = request(None, "eth_getBlockByNumber", vec![text("latest")]);
    assert_eq!(
        plan(&one, None),
        Plan::Reply(failure(None, -32602, "Invalid params: parameter must be a boolean"))
    );
    let raw = request(None, "eth_sendRawTransaction", vec![]);
    assert_eq!(
        plan(&raw, None),
        Plan::Reply(failure(None, -32602, "Invalid params: expected hex string"))
    );
    let filter = request(None, "eth_uninstallFilter", vec![]);
    assert_eq!(
        plan(&filter, None),
        Plan::Reply(failure(None, -32602, "Invalid params: invalid filter id"))
    );
}

#[test]
fn surplus_parameters_are_ignored() {
    let req = request(None, "eth_chainId", vec![num(1), num(2)]);
    assert_eq!(plan(&req, None), Plan::Invoke(call(None, Operation::ChainId, vec![])));
}

#[test]
fn raw_transaction_bytes_are_decoded() {
    let req = request(None, "eth_sendRawTransaction", vec![text("0x0x02F8ab")]);
    assert_eq!(
        plan(&req, None),
        Plan::Invoke(call(
            None,
            Operation::SendRawTransaction,
            vec![Argument::Bytes(vec![0x02, 0xf8, 0xab])]
        ))
    );
    let upper = request(None, "eth_sendRawTransaction", vec![text("0x0X01")]);
    assert_eq!(
        plan(&upper, None),
        Plan::Invoke(call(None, Operation::SendRawTransaction, vec![Argument::Bytes(vec![1])]))
    );
    let empty = request(None, "eth_sendRawTransaction", vec![text("0x")]);
    assert_eq!(
        plan(&empty, None),
        Plan::Invoke(call(None, Operation::SendRawTransaction, vec![Argument::Bytes(vec![])]))
    );
}

#[test]
fn raw_transaction_faults_carry_the_decoder_message() {
    let odd = request(None, "eth_sendRawTransaction", vec![text("0x123")]);
    assert_eq!(
        plan(&odd, None),
        Plan::Reply(failure(None, -32602, "Invalid params: odd number of digits"))
    );
    let bad = request(None, "eth_sendRawTransaction", vec![text("0x12zz")]);
    assert_eq!(
        plan(&bad, None),
        Plan::Reply(failure(None, -32602, "Invalid params: invalid character 'z' at position 2"))
    );
    let number = request(None, "eth_sendRawTransaction", vec![num(5)]);
    assert_eq!(
        plan(&number, None),
        Plan::Reply(failure(None, -32602, "Invalid params: expected hex string"))
    );
}

#[test]
fn filter_identifiers_are_hexadecimal_numbers() {
    let ok = |s: &str, n: u64| {
        let req = request(None, "eth_getFilterChanges", vec![text(s)]);
        assert_eq!(
            plan(&req, None),
            Plan::Invoke(call(None, Operation::FilterChanges, vec![Argument::Number(n)])),
            "{}",
            s
        );
    };
    ok("0x1", 1);
    ok("0xff", 255);
    ok("FF", 255);
    ok("0x0x10", 16);
    ok("+a", 10);
    ok("0x+a", 10);
    ok("0x0000000000000000000000001", 1);
    ok("ffffffffffffffff", u64::MAX);
    let bad = |s: &str| {
        let req = request(None, "eth_uninstallFilter", vec![text(s)]);
        assert_eq!(
            plan(&req, None),
            Plan::Reply(failure(None, -32602, "Invalid params: invalid filter id")),
            "{}",
            s
        );
    };
    bad("");
    bad("0x");
    bad("+");
    bad("-1");
    bad("0X1");
    bad("1g");
    bad(" 1");
    bad("1_0");
    bad("10000000000000000");
    bad("\u{e9}");
    let number = request(None, "eth_uninstallFilter", vec![num(1)]);
    assert_eq!(
        plan(&number, None),
        Plan::Reply(failure(None, -32602, "Invalid params: invalid filter id"))
    );
}

#[test]
fn transaction_index_has_its_own_message() {
    let req = request(None, "eth_getTransactionByBlockHashAndIndex", vec![text(WORD), text("x")]);
    assert_eq!(
        plan(&req, None),
        Plan::Reply(failure(None, -32602, "Invalid params: invalid index format"))
    );
    let good = request(None, "eth_getTransactionByBlockHashAndIndex", vec![text(WORD), text("0x2")]);
    assert_eq!(
        plan(&good, None),
        Plan::Invoke(call(
            None,
            Operation::TransactionByBlockHashAndIndex,
            vec![Argument::Word(word_bytes()), Argument::Number(2)]
        ))
    );
}

#[test]
fn addresses_and_words_accept_either_case_and_no_prefix() {
    let bare = "00000000219AB540356CBB839CBE05303D7705FA";
    let req = request(None, "eth_getCode", vec![text(bare), text("latest")]);
    assert_eq!(
        plan(&req, None),
        Plan::Invoke(call(
            None,
            Operation::Code,
            vec![Argument::Address(ADDRESS_BYTES), Argument::Block(BlockTag::Latest)]
        ))
    );
    let upper_prefix = "0X00000000219ab540356cBB839Cbe05303d7705Fa";
    let req = request(None, "eth_getCode", vec![text(upper_prefix), text("latest")]);
    assert!(matches!(plan(&req, None), Plan::Invoke(_)));
    for bad in ["", "0x", "0x1234", &ADDRESS[..41], &format!("{}0", ADDRESS), &format!("0x{}", ADDRESS)] {
        let req = request(None, "eth_getCode", vec![text(bad), text("latest")]);
        assert_eq!(
            plan(&req, None),
            Plan::Reply(failure(None, -32602, "Invalid params: invalid address format")),
            "{}",
            bad
        );
    }
    let short_word = request(None, "eth_getTransactionByHash", vec![text(ADDRESS)]);
    assert_eq!(
        plan(&short_word, None),
        Plan::Reply(failure(None, -32602, "Invalid params: invalid hash format"))
    );
}

#[test]
fn an_object_parameter_waits_for_its_verdict() {
    let filter = object(vec![("fromBlock", text("latest"))]);
    let req = request(Some(num(2)), "eth_getLogs", vec![filter.clone()]);
    assert_eq!(plan(&req, None), Plan::Decode(ParamKind::LogFilter, filter.clone()));
    assert_eq!(
        plan(&req, Some(&Verdict::Accepted)),
        Plan::Invoke(call(Some(num(2)), Operation::Logs, vec![Argument::Object(filter.clone())]))
    );
    assert_eq!(
        plan(&req, Some(&Verdict::Rejected("unknown field".to_string()))),
        Plan::Reply(failure(Some(num(2)), -32602, "Invalid params: unknown field"))
    );
}

#[test]
fn a_call_request_is_read_before_its_block_tag() {
    let tx = object(vec![("to", text(ADDRESS))]);
    let req = request(None, "eth_call", vec![tx.clone(), text("pending")]);
    assert_eq!(plan(&req, None), Plan::Decode(ParamKind::CallRequest, tx.clone()));
    assert_eq!(
        plan(&req, Some(&Verdict::Rejected("bad".to_string()))),
        Plan::Reply(failure(
            None,
            -32602,
            "Invalid params: invalid transaction request: bad"
        ))
    );
    assert_eq!(
        plan(&req, Some(&Verdict::Accepted)),
        Plan::Reply(failure(
            None,
            -32602,
            "Invalid params: only 'latest' block tag is currently supported"
        ))
    );
    let good = request(None, "eth_call", vec![tx.clone(), text("latest")]);
    assert_eq!(
        plan(&good, Some(&Verdict::Accepted)),
        Plan::Invoke(call(
            None,
            Operation::Call,
            vec![Argument::Object(tx.clone()), Argument::Block(BlockTag::Latest)]
        ))
    );
    let missing = request(None, "eth_estimateGas", vec![]);
    assert_eq!(plan(&missing, None), Plan::Decode(ParamKind::CallRequest, Json::Null));
}

#[test]
fn a_verdict_is_ignored_where_no_object_is_read() {
    let req = request(None, "eth_getBalance", vec![text(ADDRESS), text("latest")]);
    let rejected = Verdict::Rejected("unused".to_string());
    assert_eq!(plan(&req, Some(&rejected)), plan(&req, None));
    let early = request(None, "eth_getLogs", vec![]);
    let no_version = object(vec![("method", text("eth_getLogs")), ("params", Json::Array(vec![]))]);
    assert_eq!(plan(&no_version, Some(&rejected)), plan(&no_version, None));
    assert!(matches!(plan(&early, None), Plan::Decode(ParamKind::LogFilter, Json::Null)));
}

#[test]
fn outcomes_are_written_as_results() {
    let c = call(Some(num(1)), Operation::Balance, vec![]);
    let ok = |value: Json| RpcResponse { id: Some(num(1)), outcome: Ok(value) };
    assert_eq!(conclude(&c, Some(ClientOutcome::Quantity(vec![]))), ok(text("0x0")));
    assert_eq!(conclude(&c, Some(ClientOutcome::Quantity(vec![0, 0]))), ok(text("0x0")));
    assert_eq!(conclude(&c, Some(ClientOutcome::Quantity(vec![0, 0x0a]))), ok(text("0xa")));
    assert_eq!(conclude(&c, Some(ClientOutcome::Quantity(vec![0x10]))), ok(text("0x10")));
    assert_eq!(
        conclude(&c, Some(ClientOutcome::Quantity(vec![0x01, 0x00, 0xff]))),
        ok(text("0x100ff"))
    );
    let wei = 1_000_000_000_000_000_000u128.to_be_bytes().to_vec();
    assert_eq!(conclude(&c, Some(ClientOutcome::Quantity(wei))), ok(text("0xde0b6b3a7640000")));
    assert_eq!(conclude(&c, Some(ClientOutcome::Quantity(vec![0xff; 32]))), ok(text(&format!("0x{}", "f".repeat(64)))));
    assert_eq!(conclude(&c, Some(ClientOutcome::Data(vec![]))), ok(text("0x")));
    assert_eq!(conclude(&c, Some(ClientOutcome::Data(vec![0, 1, 0xab]))), ok(text("0x0001ab")));
    assert_eq!(
        conclude(&c, Some(ClientOutcome::Data(ADDRESS_BYTES.to_vec()))),
        ok(text(&ADDRESS.to_lowercase()))
    );
    assert_eq!(conclude(&c, Some(ClientOutcome::Flag(true))), ok(Json::Bool(true)));
    assert_eq!(conclude(&c, Some(ClientOutcome::Absent)), ok(Json::Null));
    let block = object(vec![("number", text("0x1"))]);
    assert_eq!(conclude(&c, Some(ClientOutcome::Document(block.clone()))), ok(block));
}

#[test]
fn client_failures_are_internal_errors() {
    let by_number = call(None, Operation::BlockByNumber, vec![]);
    assert_eq!(
        conclude(&by_number, Some(ClientOutcome::Failed("timeout".to_string()))),
        failure(None, -32603, "Internal error: failed to get block: timeout")
    );
    let by_hash = call(None, Operation::BlockByHash, vec![]);
    assert_eq!(
        conclude(&by_hash, Some(ClientOutcome::Failed("timeout".to_string()))),
        failure(None, -32603, "Internal error: timeout")
    );
    let labels = [
        (Operation::BlockByNumber, "block"),
        (Operation::BlockByHash, "block"),
        (Operation::TransactionReceipt, "receipt"),
        (Operation::TransactionByHash, "transaction"),
        (Operation::TransactionByBlockHashAndIndex, "transaction"),
        (Operation::Logs, "logs"),
        (Operation::FilterChanges, "logs"),
        (Operation::Syncing, "sync state"),
        (Operation::BlockReceipts, "receipts"),
        (Operation::Balance, "result"),
    ];
    for (operation, label) in labels {
        let c = call(None, operation, vec![]);
        assert_eq!(
            conclude(&c, Some(ClientOutcome::Unserializable("nan".to_string()))),
            failure(None, -32603, &format!("Internal error: failed to serialize {}: nan", label))
        );
    }
}

#[test]
fn not_initialized_before_and_never_after() {
    let operations = [
        Operation::BlockByNumber,
        Operation::Balance,
        Operation::ChainId,
        Operation::SendRawTransaction,
        Operation::Logs,
        Operation::Syncing,
        Operation::BlockReceipts,
    ];
    for operation in operations {
        let c = call(Some(num(1)), operation, vec![]);
        assert_eq!(
            conclude(&c, None),
            failure(Some(num(1)), -32000, "Light client not initialized")
        );
        let outcomes = vec![
            ClientOutcome::Failed("x".to_string()),
            ClientOutcome::Unserializable("x".to_string()),
            ClientOutcome::Quantity(vec![1]),
            ClientOutcome::Data(vec![1]),
            ClientOutcome::Flag(false),
            ClientOutcome::Document(Json::Null),
            ClientOutcome::Absent,
        ];
        for outcome in outcomes {
            match conclude(&c, Some(outcome)).outcome {
                Ok(_) => {}
                Err(e) => assert_eq!(e.code, -32603),
            }
        }
    }
}

#[test]
fn the_same_request_and_outcome_give_the_same_response() {
    let req = request(Some(num(1)), "eth_getBalance", vec![text(ADDRESS), text("latest")]);
    let first = plan(&req, None);
    let second = plan(&req, None);
    assert_eq!(first, second);
    let (Plan::Invoke(a), Plan::Invoke(b)) = (first, second) else { panic!("expected calls") };
    let balance = || Some(ClientOutcome::Quantity(vec![0x12, 0x34]));
    assert_eq!(conclude(&a, balance()), conclude(&b, balance()));
    assert_eq!(conclude(&a, balance()).outcome, Ok(text("0x1234")));
}

#[test]
fn success_and_error_objects_on_the_wire() {
    let ok = RpcResponse { id: Some(text("a")), outcome: Ok(Json::Bool(true)) };
    assert_eq!(
        ok.to_json(),
        object(vec![("jsonrpc", text("2.0")), ("id", text("a")), ("result", Json::Bool(true))])
    );
    assert_eq!(ok.to_json().get("error"), None);
    let err = failure(None, 7, "seven");
    assert_eq!(
        err.to_json(),
        object(vec![
            ("jsonrpc", text("2.0")),
            ("error", object(vec![("code", num(7)), ("message", text("seven"))])),
        ])
    );
    assert_eq!(err.to_json().get("result"), None);
    assert_eq!(RpcError::new(-1, "m".to_string()), RpcError { code: -1, message: "m".to_string() });
}
