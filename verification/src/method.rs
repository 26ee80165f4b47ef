//! The method table: the client operations, the name each goes by on the
//! wire, and the positional parameters each expects.

use crate::text::str_equal;
use vstd::prelude::*;

verus! {

/// A client operation that a request can ask for.
#[derive(Clone, Copy, Debug, PartialEq, Eq, Structural)]
pub enum Operation {
    /// The block by number.
    BlockByNumber,
    /// The block by hash.
    BlockByHash,
    /// The balance of an account.
    Balance,
    /// The code of an account.
    Code,
    /// The one storage slot of an account.
    StorageAt,
    /// The nonce of an account.
    TransactionCount,
    /// The number of transactions in a block given by hash.
    BlockTransactionCountByHash,
    /// The number of transactions in a block given by tag.
    BlockTransactionCountByNumber,
    /// The current gas price.
    GasPrice,
    /// The chain identifier.
    ChainId,
    /// The submission of a signed transaction.
    SendRawTransaction,
    /// The receipt of a transaction.
    TransactionReceipt,
    /// The transaction given by hash.
    TransactionByHash,
    /// The transaction given by block hash and position.
    TransactionByBlockHashAndIndex,
    /// The logs matching a filter.
    Logs,
    /// The installation of a log filter.
    NewFilter,
    /// The installation of a block filter.
    NewBlockFilter,
    /// The installation of a pending-transaction filter.
    NewPendingTransactionFilter,
    /// The changes seen by a filter.
    FilterChanges,
    /// The removal of a filter.
    UninstallFilter,
    /// The synchronisation status.
    Syncing,
    /// The coinbase address.
    Coinbase,
    /// The execution of a call without a transaction.
    Call,
    /// The gas estimate of a call.
    EstimateGas,
    /// The suggested priority fee.
    MaxPriorityFee,
    /// The receipts of a block.
    BlockReceipts,
}

/// How one positional parameter is read.
#[derive(Clone, Copy, Debug, PartialEq, Eq, Structural)]
pub enum ParamKind {
    /// A block reference; only the tag `latest` is understood.
    BlockTag,
    /// A 20-byte address in hexadecimal.
    Address,
    /// A 32-byte hash or storage slot in hexadecimal.
    Word,
    /// A JSON boolean.
    Flag,
    /// A filter identifier: an unsigned number in hexadecimal.
    FilterId,
    /// A position within a block: an unsigned number in hexadecimal.
    Index,
    /// The bytes of a signed transaction in hexadecimal.
    RawBytes,
    /// A call request object, which the client library decodes.
    CallRequest,
    /// A log filter object, which the client library decodes.
    LogFilter,
}

impl Operation {
    /// The method name of the operation.
    pub open spec fn name(self) -> Seq<char> {
        match self {
            Operation::BlockByNumber => "eth_getBlockByNumber"@,
            Operation::BlockByHash => "eth_getBlockByHash"@,
            Operation::Balance => "eth_getBalance"@,
            Operation::Code => "eth_getCode"@,
            Operation::StorageAt => "eth_getStorageAt"@,
            Operation::TransactionCount => "eth_getTransactionCount"@,
            Operation::BlockTransactionCountByHash => "eth_getBlockTransactionCountByHash"@,
            Operation::BlockTransactionCountByNumber => "eth_getBlockTransactionCountByNumber"@,
            Operation::GasPrice => "eth_gasPrice"@,
            Operation::ChainId => "eth_chainId"@,
            Operation::SendRawTransaction => "eth_sendRawTransaction"@,
            Operation::TransactionReceipt => "eth_getTransactionReceipt"@,
            Operation::TransactionByHash => "eth_getTransactionByHash"@,
            Operation::TransactionByBlockHashAndIndex => "eth_getTransactionByBlockHashAndIndex"@,
            Operation::Logs => "eth_getLogs"@,
            Operation::NewFilter => "eth_newFilter"@,
            Operation::NewBlockFilter => "eth_newBlockFilter"@,
            Operation::NewPendingTransactionFilter => "eth_newPendingTransactionFilter"@,
            Operation::FilterChanges => "eth_getFilterChanges"@,
            Operation::UninstallFilter => "eth_uninstallFilter"@,
            Operation::Syncing => "eth_syncing"@,
            Operation::Coinbase => "eth_coinbase"@,
            Operation::Call => "eth_call"@,
            Operation::EstimateGas => "eth_estimateGas"@,
            Operation::MaxPriorityFee => "eth_maxPriorityFeePerGas"@,
            Operation::BlockReceipts => "eth_getBlockReceipts"@,
        }
    }

    /// The parameters of the operation, in order.
    pub open spec fn parameters(self) -> Seq<ParamKind> {
        match self {
            Operation::BlockByNumber => seq![ParamKind::BlockTag, ParamKind::Flag],
            Operation::BlockByHash => seq![ParamKind::Word, ParamKind::Flag],
            Operation::Balance => seq![ParamKind::Address, ParamKind::BlockTag],
            Operation::Code => seq![ParamKind::Address, ParamKind::BlockTag],
            Operation::StorageAt => seq![ParamKind::Address, ParamKind::Word, ParamKind::BlockTag],
            Operation::TransactionCount => seq![ParamKind::Address, ParamKind::BlockTag],
            Operation::BlockTransactionCountByHash => seq![ParamKind::Word],
            Operation::BlockTransactionCountByNumber => seq![ParamKind::BlockTag],
            Operation::GasPrice => Seq::empty(),
            Operation::ChainId => Seq::empty(),
            Operation::SendRawTransaction => seq![ParamKind::RawBytes],
            Operation::TransactionReceipt => seq![ParamKind::Word],
            Operation::TransactionByHash => seq![ParamKind::Word],
            Operation::TransactionByBlockHashAndIndex => seq![ParamKind::Word, ParamKind::Index],
            Operation::Logs => seq![ParamKind::LogFilter],
            Operation::NewFilter => seq![ParamKind::LogFilter],
            Operation::NewBlockFilter => Seq::empty(),
            Operation::NewPendingTransactionFilter => Seq::empty(),
            Operation::FilterChanges => seq![ParamKind::FilterId],
            Operation::UninstallFilter => seq![ParamKind::FilterId],
            Operation::Syncing => Seq::empty(),
            Operation::Coinbase => Seq::empty(),
            Operation::Call => seq![ParamKind::CallRequest, ParamKind::BlockTag],
            Operation::EstimateGas => seq![ParamKind::CallRequest],
            Operation::MaxPriorityFee => Seq::empty(),
            Operation::BlockReceipts => seq![ParamKind::BlockTag],
        }
    }

    /// The operation that goes by `name`, if any. Names match exactly.
    pub open spec fn named(name: Seq<char>) -> Option<Operation> {
        if name == "eth_getBlockByNumber"@ {
            Some(Operation::BlockByNumber)
        } else if name == "eth_getBlockByHash"@ {
            Some(Operation::BlockByHash)
        } else if name == "eth_getBalance"@ {
            Some(Operation::Balance)
        } else if name == "eth_getCode"@ {
            Some(Operation::Code)
        } else if name == "eth_getStorageAt"@ {
            Some(Operation::StorageAt)
        } else if name == "eth_getTransactionCount"@ {
            Some(Operation::TransactionCount)
        } else if name == "eth_getBlockTransactionCountByHash"@ {
            Some(Operation::BlockTransactionCountByHash)
        } else if name == "eth_getBlockTransactionCountByNumber"@ {
            Some(Operation::BlockTransactionCountByNumber)
        } else if name == "eth_gasPrice"@ {
            Some(Operation::GasPrice)
        } else if name == "eth_chainId"@ {
            Some(Operation::ChainId)
        } else if name == "eth_sendRawTransaction"@ {
            Some(Operation::SendRawTransaction)
        } else if name == "eth_getTransactionReceipt"@ {
            Some(Operation::TransactionReceipt)
        } else if name == "eth_getTransactionByHash"@ {
            Some(Operation::TransactionByHash)
        } else if name == "eth_getTransactionByBlockHashAndIndex"@ {
            Some(Operation::TransactionByBlockHashAndIndex)
        } else if name == "eth_getLogs"@ {
            Some(Operation::Logs)
        } else if name == "eth_newFilter"@ {
            Some(Operation::NewFilter)
        } else if name == "eth_newBlockFilter"@ {
            Some(Operation::NewBlockFilter)
        } else if name == "eth_newPendingTransactionFilter"@ {
            Some(Operation::NewPendingTransactionFilter)
        } else if name == "eth_getFilterChanges"@ {
            Some(Operation::FilterChanges)
        } else if name == "eth_uninstallFilter"@ {
            Some(Operation::UninstallFilter)
        } else if name == "eth_syncing"@ {
            Some(Operation::Syncing)
        } else if name == "eth_coinbase"@ {
            Some(Operation::Coinbase)
        } else if name == "eth_call"@ {
            Some(Operation::Call)
        } else if name == "eth_estimateGas"@ {
            Some(Operation::EstimateGas)
        } else if name == "eth_maxPriorityFeePerGas"@ {
            Some(Operation::MaxPriorityFee)
        } else if name == "eth_getBlockReceipts"@ {
            Some(Operation::BlockReceipts)
        } else {
            None
        }
    }

    /// Looks a method name up in the table.
    pub fn resolve(name: &str) -> (r: Option<Operation>)
        ensures
            r == Operation::named(name@),
    {
        if str_equal(name, "eth_getBlockByNumber") {
            Some(Operation::BlockByNumber)
        } else if str_equal(name, "eth_getBlockByHash") {
            Some(Operation::BlockByHash)
        } else if str_equal(name, "eth_getBalance") {
            Some(Operation::Balance)
        } else if str_equal(name, "eth_getCode") {
            Some(Operation::Code)
        } else if str_equal(name, "eth_getStorageAt") {
            Some(Operation::StorageAt)
        } else if str_equal(name, "eth_getTransactionCount") {
            Some(Operation::TransactionCount)
        } else if str_equal(name, "eth_getBlockTransactionCountByHash") {
            Some(Operation::BlockTransactionCountByHash)
        } else if str_equal(name, "eth_getBlockTransactionCountByNumber") {
            Some(Operation::BlockTransactionCountByNumber)
        } else if str_equal(name, "eth_gasPrice") {
            Some(Operation::GasPrice)
        } else if str_equal(name, "eth_chainId") {
            Some(Operation::ChainId)
        } else if str_equal(name, "eth_sendRawTransaction") {
            Some(Operation::SendRawTransaction)
        } else if str_equal(name, "eth_getTransactionReceipt") {
            Some(Operation::TransactionReceipt)
        } else if str_equal(name, "eth_getTransactionByHash") {
            Some(Operation::TransactionByHash)
        } else if str_equal(name, "eth_getTransactionByBlockHashAndIndex") {
            Some(Operation::TransactionByBlockHashAndIndex)
        } else if str_equal(name, "eth_getLogs") {
            Some(Operation::Logs)
        } else if str_equal(name, "eth_newFilter") {
            Some(Operation::NewFilter)
        } else if str_equal(name, "eth_newBlockFilter") {
            Some(Operation::NewBlockFilter)
        } else if str_equal(name, "eth_newPendingTransactionFilter") {
            Some(Operation::NewPendingTransactionFilter)
        } else if str_equal(name, "eth_getFilterChanges") {
            Some(Operation::FilterChanges)
        } else if str_equal(name, "eth_uninstallFilter") {
            Some(Operation::UninstallFilter)
        } else if str_equal(name, "eth_syncing") {
            Some(Operation::Syncing)
        } else if str_equal(name, "eth_coinbase") {
            Some(Operation::Coinbase)
        } else if str_equal(name, "eth_call") {
            Some(Operation::Call)
        } else if str_equal(name, "eth_estimateGas") {
            Some(Operation::EstimateGas)
        } else if str_equal(name, "eth_maxPriorityFeePerGas") {
            Some(Operation::MaxPriorityFee)
        } else if str_equal(name, "eth_getBlockReceipts") {
            Some(Operation::BlockReceipts)
        } else {
            None
        }
    }

    /// The parameters of the operation, in order.
    pub fn signature(self) -> (r: Vec<ParamKind>)
        ensures
            r@ == self.parameters(),
    {
        let mut kinds: Vec<ParamKind> = Vec::new();
        match self {
            Operation::BlockByNumber => {
                kinds.push(ParamKind::BlockTag);
                kinds.push(ParamKind::Flag);
            },
            Operation::BlockByHash => {
                kinds.push(ParamKind::Word);
                kinds.push(ParamKind::Flag);
            },
            Operation::Balance
            | Operation::Code
            | Operation::TransactionCount => {
                kinds.push(ParamKind::Address);
                kinds.push(ParamKind::BlockTag);
            },
            Operation::StorageAt => {
                kinds.push(ParamKind::Address);
                kinds.push(ParamKind::Word);
                kinds.push(ParamKind::BlockTag);
            },
            Operation::BlockTransactionCountByHash
            | Operation::TransactionReceipt
            | Operation::TransactionByHash => {
                kinds.push(ParamKind::Word);
            },
            Operation::BlockTransactionCountByNumber
            | Operation::BlockReceipts => {
                kinds.push(ParamKind::BlockTag);
            },
            Operation::GasPrice
            | Operation::ChainId
            | Operation::NewBlockFilter
            | Operation::NewPendingTransactionFilter
            | Operation::Syncing
            | Operation::Coinbase
            | Operation::MaxPriorityFee => {
            },
            Operation::SendRawTransaction => {
                kinds.push(ParamKind::RawBytes);
            },
            Operation::TransactionByBlockHashAndIndex => {
                kinds.push(ParamKind::Word);
                kinds.push(ParamKind::Index);
            },
            Operation::Logs
            | Operation::NewFilter => {
                kinds.push(ParamKind::LogFilter);
            },
            Operation::FilterChanges
            | Operation::UninstallFilter => {
                kinds.push(ParamKind::FilterId);
            },
            Operation::Call => {
                kinds.push(ParamKind::CallRequest);
                kinds.push(ParamKind::BlockTag);
            },
            Operation::EstimateGas => {
                kinds.push(ParamKind::CallRequest);
            },
        }
        kinds
    }
}

} // verus!
