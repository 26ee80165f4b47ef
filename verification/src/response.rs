//! Response envelopes: an echoed identifier and exactly one of a result or an
//! error, and the JSON document that carries them on the wire.

use crate::json::{lemma_object_view, member_views, optional_view, Json, JsonView, Number};
use vstd::prelude::*;

verus! {

/// The envelope was malformed.
pub const INVALID_REQUEST: i32 = -32600;

/// The method name is not in the table.
pub const METHOD_NOT_FOUND: i32 = -32601;

/// The parameters are missing or one of them could not be read.
pub const INVALID_PARAMS: i32 = -32602;

/// The client failed while it carried the operation out.
pub const INTERNAL_ERROR: i32 = -32603;

/// No client has been installed yet.
pub const NOT_INITIALIZED: i32 = -32000;

/// A structured error: a code and a message for the caller.
#[derive(Debug, PartialEq, Eq)]
pub struct RpcError {
    pub code: i32,
    pub message: String,
}

/// The mathematical value of an `RpcError`.
pub struct ErrorView {
    pub code: int,
    pub message: Seq<char>,
}

impl View for RpcError {
    type V = ErrorView;

    open spec fn view(&self) -> ErrorView {
        ErrorView { code: self.code as int, message: self.message@ }
    }
}

/// A response: the identifier of the request, if it had one, and either the
/// result or the error. A response cannot hold both.
#[derive(Debug, PartialEq, Eq)]
pub struct RpcResponse {
    pub id: Option<Json>,
    pub outcome: Result<Json, RpcError>,
}

/// The mathematical value of an `RpcResponse`.
pub struct ResponseView {
    pub id: Option<JsonView>,
    pub outcome: Result<JsonView, ErrorView>,
}

impl View for RpcResponse {
    type V = ResponseView;

    open spec fn view(&self) -> ResponseView {
        ResponseView {
            id: optional_view(self.id),
            outcome: match self.outcome {
                Ok(value) => Ok(value@),
                Err(error) => Err(error@),
            },
        }
    }
}

/// The JSON number that stands for an error code.
pub open spec fn code_number(code: int) -> Number {
    if code < 0 {
        Number::NegInt(code as i64)
    } else {
        Number::PosInt(code as u64)
    }
}

impl ErrorView {
    /// The error object: its code, then its message.
    pub open spec fn wire(self) -> JsonView {
        JsonView::Object(
            seq![
                ("code"@, JsonView::Number(code_number(self.code))),
                ("message"@, JsonView::String(self.message)),
            ],
        )
    }
}

impl ResponseView {
    /// The response that reports `error` to the request with identifier `id`.
    pub open spec fn failure(id: Option<JsonView>, code: int, message: Seq<char>) -> ResponseView {
        ResponseView { id, outcome: Err(ErrorView { code, message }) }
    }

    /// The response that carries `value` to the request with identifier `id`.
    pub open spec fn success(id: Option<JsonView>, value: JsonView) -> ResponseView {
        ResponseView { id, outcome: Ok(value) }
    }

    /// The code of the error, if the response carries one.
    pub open spec fn error_code(self) -> Option<int> {
        match self.outcome {
            Ok(_) => None,
            Err(error) => Some(error.code),
        }
    }

    /// The members of the response object, in order: the protocol version,
    /// the identifier if there is one, then the result or the error.
    pub open spec fn members(self) -> Seq<(Seq<char>, JsonView)> {
        let version = seq![("jsonrpc"@, JsonView::String("2.0"@))];
        let id = match self.id {
            Some(id) => seq![("id"@, id)],
            None => Seq::empty(),
        };
        let outcome = match self.outcome {
            Ok(value) => seq![("result"@, value)],
            Err(error) => seq![("error"@, error.wire())],
        };
        version + id + outcome
    }

    /// The response as a JSON document.
    pub open spec fn wire(self) -> JsonView {
        JsonView::Object(self.members())
    }
}

impl RpcError {
    /// An error with the given code and message.
    pub fn new(code: i32, message: String) -> (r: RpcError)
        ensures
            r@ == (ErrorView { code: code as int, message: message@ }),
    {
        RpcError { code, message }
    }

    /// The error object: its code, then its message.
    pub fn to_json(&self) -> (r: Json)
        ensures
            r@ == self@.wire(),
    {
        let number = if self.code < 0 {
            Number::NegInt(self.code as i64)
        } else {
            Number::PosInt(self.code as u64)
        };
        let mut members: Vec<(String, Json)> = Vec::new();
        members.push(("code".to_owned(), Json::Number(number)));
        members.push(("message".to_owned(), Json::String(self.message.clone())));
        proof {
            lemma_object_view(members);
            assert(member_views(members@) =~= self@.wire()->Object_0);
        }
        Json::Object(members)
    }
}

impl RpcResponse {
    /// The response that reports an error to the request with identifier `id`.
    pub fn failure(id: Option<Json>, code: i32, message: String) -> (r: RpcResponse)
        ensures
            r@ == ResponseView::failure(optional_view(id), code as int, message@),
    {
        RpcResponse { id, outcome: Err(RpcError { code, message }) }
    }

    /// The response that carries `value` to the request with identifier `id`.
    pub fn success(id: Option<Json>, value: Json) -> (r: RpcResponse)
        ensures
            r@ == ResponseView::success(optional_view(id), value@),
    {
        RpcResponse { id, outcome: Ok(value) }
    }

    /// The response as a JSON document: the protocol version, the identifier
    /// if there is one, then the result or the error.
    pub fn to_json(&self) -> (r: Json)
        ensures
            r@ == self@.wire(),
    {
        let mut members: Vec<(String, Json)> = Vec::new();
        members.push(("jsonrpc".to_owned(), Json::text("2.0")));
        match &self.id {
            Some(id) => {
                members.push(("id".to_owned(), id.clone()));
            },
            None => {},
        }
        match &self.outcome {
            Ok(value) => {
                members.push(("result".to_owned(), value.clone()));
            },
            Err(error) => {
                members.push(("error".to_owned(), error.to_json()));
            },
        }
        proof {
            lemma_object_view(members);
            assert(member_views(members@) =~= self@.members());
        }
        Json::Object(members)
    }
}

} // verus!
