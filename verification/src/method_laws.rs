//! What holds of the method table.

use crate::method::{Operation, ParamKind};
use vstd::prelude::*;

verus! {

/// What is known of the method names: the length of each, and for two of
/// equal length a position at which they differ.
proof fn lemma_name_facts()
    ensures
        "eth_getBlockByNumber"@.len() == 20,
        "eth_getBlockByHash"@.len() == 18,
        "eth_getBalance"@.len() == 14,
        "eth_getCode"@.len() == 11,
        "eth_getStorageAt"@.len() == 16,
        "eth_getTransactionCount"@.len() == 23,
        "eth_getBlockTransactionCountByHash"@.len() == 34,
        "eth_getBlockTransactionCountByNumber"@.len() == 36,
        "eth_gasPrice"@.len() == 12,
        "eth_chainId"@.len() == 11,
        "eth_sendRawTransaction"@.len() == 22,
        "eth_getTransactionReceipt"@.len() == 25,
        "eth_getTransactionByHash"@.len() == 24,
        "eth_getTransactionByBlockHashAndIndex"@.len() == 37,
        "eth_getLogs"@.len() == 11,
        "eth_newFilter"@.len() == 13,
        "eth_newBlockFilter"@.len() == 18,
        "eth_newPendingTransactionFilter"@.len() == 31,
        "eth_getFilterChanges"@.len() == 20,
        "eth_uninstallFilter"@.len() == 19,
        "eth_syncing"@.len() == 11,
        "eth_coinbase"@.len() == 12,
        "eth_call"@.len() == 8,
        "eth_estimateGas"@.len() == 15,
        "eth_maxPriorityFeePerGas"@.len() == 24,
        "eth_getBlockReceipts"@.len() == 20,
        "eth_getBlockByNumber"@[7] != "eth_getFilterChanges"@[7],
        "eth_getBlockByNumber"@[12] != "eth_getBlockReceipts"@[12],
        "eth_getBlockByHash"@[4] != "eth_newBlockFilter"@[4],
        "eth_getCode"@[4] != "eth_chainId"@[4],
        "eth_getCode"@[7] != "eth_getLogs"@[7],
        "eth_getCode"@[4] != "eth_syncing"@[4],
        "eth_gasPrice"@[4] != "eth_coinbase"@[4],
        "eth_chainId"@[4] != "eth_getLogs"@[4],
        "eth_chainId"@[4] != "eth_syncing"@[4],
        "eth_getTransactionByHash"@[4] != "eth_maxPriorityFeePerGas"@[4],
        "eth_getLogs"@[4] != "eth_syncing"@[4],
        "eth_getFilterChanges"@[7] != "eth_getBlockReceipts"@[7],
{
    reveal_strlit("eth_getBlockByNumber");
    reveal_strlit("eth_getBlockByHash");
    reveal_strlit("eth_getBalance");
    reveal_strlit("eth_getCode");
    reveal_strlit("eth_getStorageAt");
    reveal_strlit("eth_getTransactionCount");
    reveal_strlit("eth_getBlockTransactionCountByHash");
    reveal_strlit("eth_getBlockTransactionCountByNumber");
    reveal_strlit("eth_gasPrice");
    reveal_strlit("eth_chainId");
    reveal_strlit("eth_sendRawTransaction");
    reveal_strlit("eth_getTransactionReceipt");
    reveal_strlit("eth_getTransactionByHash");
    reveal_strlit("eth_getTransactionByBlockHashAndIndex");
    reveal_strlit("eth_getLogs");
    reveal_strlit("eth_newFilter");
    reveal_strlit("eth_newBlockFilter");
    reveal_strlit("eth_newPendingTransactionFilter");
    reveal_strlit("eth_getFilterChanges");
    reveal_strlit("eth_uninstallFilter");
    reveal_strlit("eth_syncing");
    reveal_strlit("eth_coinbase");
    reveal_strlit("eth_call");
    reveal_strlit("eth_estimateGas");
    reveal_strlit("eth_maxPriorityFeePerGas");
    reveal_strlit("eth_getBlockReceipts");
}

/// Every operation is found under its own name, so no two operations share
/// a name.
pub proof fn lemma_operation_has_its_name(operation: Operation)
    ensures
        Operation::named(operation.name()) == Some(operation),
{
    lemma_name_facts();
}

/// A name that resolves is the name of the operation it resolves to.
pub proof fn lemma_resolved_name(name: Seq<char>, operation: Operation)
    requires
        Operation::named(name) == Some(operation),
    ensures
        operation.name() == name,
{
}

/// No operation has more than three parameters, and an object that the
/// client library decodes is always the first parameter.
pub proof fn lemma_signatures(operation: Operation, i: int)
    requires
        0 <= i < operation.parameters().len(),
    ensures
        operation.parameters().len() <= 3,
        operation.parameters()[i] == ParamKind::CallRequest || operation.parameters()[i]
            == ParamKind::LogFilter ==> i == 0,
{
}

} // verus!
