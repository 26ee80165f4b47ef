//! Reading positional parameters: one reader for each kind of parameter, and
//! the arguments they produce.
//!
//! Two kinds of parameter, the call request and the log filter, are objects
//! whose shape only the client library knows. The host decodes such an object
//! and hands the verdict in; until it has, a reading of that parameter is
//! undecided.

use crate::hex::{
    byte_string, byte_string_failure, fixed_bytes, number, read_address, read_bytes, read_number,
    read_word, trim_prefixes, without_prefixes,
};
use crate::json::{Json, JsonView};
use crate::method::ParamKind;
use crate::text::str_equal;
use vstd::prelude::*;
use vstd::string::StringExecFns;

verus! {

/// A reference to a block. Only the most recent block can be named.
#[derive(Clone, Copy, Debug, PartialEq, Eq, Structural)]
pub enum BlockTag {
    Latest,
}

/// A parameter after it was read: the typed value that the client takes.
#[derive(Debug, PartialEq, Eq)]
pub enum Argument {
    Block(BlockTag),
    Address([u8; 20]),
    Word([u8; 32]),
    Flag(bool),
    Number(u64),
    Bytes(Vec<u8>),
    /// An object that the client library accepted, as it was sent.
    Object(Json),
}

/// The mathematical value of an `Argument`.
pub enum ArgumentView {
    Block(BlockTag),
    Address(Seq<u8>),
    Word(Seq<u8>),
    Flag(bool),
    Number(u64),
    Bytes(Seq<u8>),
    Object(JsonView),
}

impl View for Argument {
    type V = ArgumentView;

    open spec fn view(&self) -> ArgumentView {
        match self {
            Argument::Block(tag) => ArgumentView::Block(*tag),
            Argument::Address(bytes) => ArgumentView::Address(bytes@),
            Argument::Word(bytes) => ArgumentView::Word(bytes@),
            Argument::Flag(flag) => ArgumentView::Flag(*flag),
            Argument::Number(n) => ArgumentView::Number(*n),
            Argument::Bytes(bytes) => ArgumentView::Bytes(bytes@),
            Argument::Object(value) => ArgumentView::Object(value@),
        }
    }
}

impl ArgumentView {
    /// Whether the argument is of the type that a parameter of this kind is
    /// read into.
    pub open spec fn fits(self, kind: ParamKind) -> bool {
        match kind {
            ParamKind::BlockTag => self is Block,
            ParamKind::Address => self matches ArgumentView::Address(bytes) && bytes.len() == 20,
            ParamKind::Word => self matches ArgumentView::Word(bytes) && bytes.len() == 32,
            ParamKind::Flag => self is Flag,
            ParamKind::FilterId | ParamKind::Index => self is Number,
            ParamKind::RawBytes => self is Bytes,
            ParamKind::CallRequest | ParamKind::LogFilter => self is Object,
        }
    }
}

/// What the client library said of an object it was asked to decode.
#[derive(Debug, PartialEq, Eq)]
pub enum Verdict {
    /// The object has the expected shape.
    Accepted,
    /// The object was refused, with the library's description of the fault.
    Rejected(String),
}

/// The mathematical value of a `Verdict`.
pub enum VerdictView {
    Accepted,
    Rejected(Seq<char>),
}

impl View for Verdict {
    type V = VerdictView;

    open spec fn view(&self) -> VerdictView {
        match self {
            Verdict::Accepted => VerdictView::Accepted,
            Verdict::Rejected(reason) => VerdictView::Rejected(reason@),
        }
    }
}

/// The value of a verdict that may not have been given yet.
pub open spec fn verdict_view(verdict: Option<&Verdict>) -> Option<VerdictView> {
    match verdict {
        Some(v) => Some(v@),
        None => None,
    }
}

/// Why a parameter was not read.
#[derive(Debug, PartialEq, Eq)]
pub enum Fault {
    /// The parameter is refused, with this message.
    Invalid(String),
    /// The parameter is an object of this kind on which no verdict was given.
    Undecided(ParamKind, Json),
}

/// The mathematical value of a `Fault`.
pub enum FaultView {
    Invalid(Seq<char>),
    Undecided(ParamKind, JsonView),
}

impl View for Fault {
    type V = FaultView;

    open spec fn view(&self) -> FaultView {
        match self {
            Fault::Invalid(message) => FaultView::Invalid(message@),
            Fault::Undecided(kind, value) => FaultView::Undecided(*kind, value@),
        }
    }
}

/// The value of the reading of one parameter.
pub open spec fn reading_view(reading: Result<Argument, Fault>) -> Result<ArgumentView, FaultView> {
    match reading {
        Ok(argument) => Ok(argument@),
        Err(fault) => Err(fault@),
    }
}

/// The message for a block reference other than `latest`.
pub open spec fn bad_block_tag() -> Seq<char> {
    "Invalid params: only 'latest' block tag is currently supported"@
}

/// The message for a value that is no address.
pub open spec fn bad_address() -> Seq<char> {
    "Invalid params: invalid address format"@
}

/// The message for a value that is no 32-byte word.
pub open spec fn bad_word() -> Seq<char> {
    "Invalid params: invalid hash format"@
}

/// The message for a value that is no boolean.
pub open spec fn bad_flag() -> Seq<char> {
    "Invalid params: parameter must be a boolean"@
}

/// The message for a value that is no filter identifier.
pub open spec fn bad_filter_id() -> Seq<char> {
    "Invalid params: invalid filter id"@
}

/// The message for a value that is no position.
pub open spec fn bad_index() -> Seq<char> {
    "Invalid params: invalid index format"@
}

/// The message for raw bytes that are not given as a string.
pub open spec fn bad_raw_bytes() -> Seq<char> {
    "Invalid params: expected hex string"@
}

/// The start of the message for raw bytes and log filters that were refused.
pub open spec fn refused() -> Seq<char> {
    "Invalid params: "@
}

/// The start of the message for a call request that was refused.
pub open spec fn refused_call_request() -> Seq<char> {
    "Invalid params: invalid transaction request: "@
}

/// The reading of a fixed-width hexadecimal value.
pub open spec fn read_fixed(value: JsonView, width: nat) -> Option<Seq<u8>> {
    match value.as_str() {
        Some(text) => fixed_bytes(text, width),
        None => None,
    }
}

/// The reading of a hexadecimal number, after all leading `0x`.
pub open spec fn read_count(value: JsonView) -> Option<u64> {
    match value.as_str() {
        Some(text) => number(without_prefixes(text)),
        None => None,
    }
}

/// The reading of an object, given the verdict on it.
pub open spec fn read_object(
    kind: ParamKind,
    value: JsonView,
    verdict: Option<VerdictView>,
    prefix: Seq<char>,
) -> Result<ArgumentView, FaultView> {
    match verdict {
        None => Err(FaultView::Undecided(kind, value)),
        Some(VerdictView::Accepted) => Ok(ArgumentView::Object(value)),
        Some(VerdictView::Rejected(reason)) => Err(FaultView::Invalid(prefix + reason)),
    }
}

/// The reading of `value` as a parameter of the given kind.
pub open spec fn read(kind: ParamKind, value: JsonView, verdict: Option<VerdictView>) -> Result<
    ArgumentView,
    FaultView,
> {
    match kind {
        ParamKind::BlockTag => if value.as_str() == Some("latest"@) {
            Ok(ArgumentView::Block(BlockTag::Latest))
        } else {
            Err(FaultView::Invalid(bad_block_tag()))
        },
        ParamKind::Address => match read_fixed(value, 20) {
            Some(bytes) => Ok(ArgumentView::Address(bytes)),
            None => Err(FaultView::Invalid(bad_address())),
        },
        ParamKind::Word => match read_fixed(value, 32) {
            Some(bytes) => Ok(ArgumentView::Word(bytes)),
            None => Err(FaultView::Invalid(bad_word())),
        },
        ParamKind::Flag => match value.as_bool() {
            Some(flag) => Ok(ArgumentView::Flag(flag)),
            None => Err(FaultView::Invalid(bad_flag())),
        },
        ParamKind::FilterId => match read_count(value) {
            Some(n) => Ok(ArgumentView::Number(n)),
            None => Err(FaultView::Invalid(bad_filter_id())),
        },
        ParamKind::Index => match read_count(value) {
            Some(n) => Ok(ArgumentView::Number(n)),
            None => Err(FaultView::Invalid(bad_index())),
        },
        ParamKind::RawBytes => match value.as_str() {
            None => Err(FaultView::Invalid(bad_raw_bytes())),
            Some(text) => match byte_string(without_prefixes(text)) {
                Some(bytes) => Ok(ArgumentView::Bytes(bytes)),
                None => Err(
                    FaultView::Invalid(refused() + byte_string_failure(without_prefixes(text))),
                ),
            },
        },
        ParamKind::CallRequest => read_object(kind, value, verdict, refused_call_request()),
        ParamKind::LogFilter => read_object(kind, value, verdict, refused()),
    }
}

/// Reads a number: a string of hexadecimal digits after any leading `0x`.
fn decode_count(value: &Json) -> (r: Option<u64>)
    ensures
        r == read_count(value@),
{
    match value.as_str() {
        Some(text) => read_number(trim_prefixes(text)),
        None => None,
    }
}

/// A refusal with the given message.
fn invalid(message: &str) -> (r: Result<Argument, Fault>)
    ensures
        reading_view(r) == Err::<ArgumentView, FaultView>(FaultView::Invalid(message@)),
{
    Err(Fault::Invalid(message.to_owned()))
}

/// Reads an object, given the verdict on it.
fn decode_object(kind: ParamKind, value: &Json, verdict: Option<&Verdict>, prefix: &str) -> (r:
    Result<Argument, Fault>)
    ensures
        reading_view(r) == read_object(kind, value@, verdict_view(verdict), prefix@),
{
    match verdict {
        None => Err(Fault::Undecided(kind, value.clone())),
        Some(Verdict::Accepted) => Ok(Argument::Object(value.clone())),
        Some(Verdict::Rejected(reason)) => Err(
            Fault::Invalid(String::from_str(prefix).concat(reason.as_str())),
        ),
    }
}

/// Reads `value` as a parameter of the given kind.
///
/// A block reference must be the string `latest`. An address and a word are
/// strings of forty and sixty-four hexadecimal digits after an optional `0x`.
/// A flag is a JSON boolean. A filter identifier and a position are strings
/// of hexadecimal digits after any number of `0x`, with a value that fits 64
/// bits. Raw bytes are a string of an even number of hexadecimal digits after
/// any number of `0x`. A call request or a log filter is read with the
/// verdict that the host obtained from the client library; without a verdict
/// the reading is undecided and names the object to decode.
pub fn decode(kind: ParamKind, value: &Json, verdict: Option<&Verdict>) -> (r: Result<
    Argument,
    Fault,
>)
    ensures
        reading_view(r) == read(kind, value@, verdict_view(verdict)),
{
    match kind {
        ParamKind::BlockTag => {
            let latest = match value.as_str() {
                Some(text) => str_equal(text, "latest"),
                None => false,
            };
            if latest {
                Ok(Argument::Block(BlockTag::Latest))
            } else {
                invalid("Invalid params: only 'latest' block tag is currently supported")
            }
        },
        ParamKind::Address => {
            let found = match value.as_str() {
                Some(text) => read_address(text),
                None => None,
            };
            match found {
                Some(bytes) => Ok(Argument::Address(bytes)),
                None => invalid("Invalid params: invalid address format"),
            }
        },
        ParamKind::Word => {
            let found = match value.as_str() {
                Some(text) => read_word(text),
                None => None,
            };
            match found {
                Some(bytes) => Ok(Argument::Word(bytes)),
                None => invalid("Invalid params: invalid hash format"),
            }
        },
        ParamKind::Flag => match value.as_bool() {
            Some(flag) => Ok(Argument::Flag(flag)),
            None => invalid("Invalid params: parameter must be a boolean"),
        },
        ParamKind::FilterId => match decode_count(value) {
            Some(n) => Ok(Argument::Number(n)),
            None => invalid("Invalid params: invalid filter id"),
        },
        ParamKind::Index => match decode_count(value) {
            Some(n) => Ok(Argument::Number(n)),
            None => invalid("Invalid params: invalid index format"),
        },
        ParamKind::RawBytes => match value.as_str() {
            None => invalid("Invalid params: expected hex string"),
            Some(text) => match read_bytes(trim_prefixes(text)) {
                Ok(bytes) => Ok(Argument::Bytes(bytes)),
                Err(reason) => Err(
                    Fault::Invalid(String::from_str("Invalid params: ").concat(reason.as_str())),
                ),
            },
        },
        ParamKind::CallRequest => decode_object(
            kind,
            value,
            verdict,
            "Invalid params: invalid transaction request: ",
        ),
        ParamKind::LogFilter => decode_object(kind, value, verdict, "Invalid params: "),
    }
}

} // verus!
