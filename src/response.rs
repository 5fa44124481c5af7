//! What a response becomes: a success status has its body decoded as the
//! expected record, any other status has it decoded as the exchange's error
//! envelope. A body that fails to decode either way is a codec error, never an
//! exchange error.
use vstd::prelude::*;

use crate::auth::BadSecret;
use crate::json::{
    json_of_bytes, object_check, object_fault, parse_json, req_str, req_u64, str_member,
    u64_member, CodecError, CodecFault, FromJson, Json,
};
use crate::text::{dec_str, dec_text};
use crate::types::Balance;

verus! {

/// The error type of the library.
#[derive(Debug)]
pub enum Error {
    /// The request did not complete (connection, timeout, reading the body).
    Transport { message: String },
    /// The body is not the JSON that was expected.
    Codec(CodecError),
    /// The exchange refused the request with this code and message.
    Bitvavo { code: u64, message: String },
    /// The secret cannot key the signature.
    InvalidSecret(BadSecret),
    /// The exchange listed no balance for the asset asked for.
    UnknownAsset { symbol: String },
}

/// Whether an HTTP status reports success.
pub open spec fn is_success(status: u16) -> bool {
    200 <= status <= 299
}

/// The exchange's error envelope: `{"errorCode": <number>, "error": <text>}`.
#[derive(Debug)]
pub struct ErrorResponse {
    pub error_code: u64,
    pub error: String,
}

impl FromJson for ErrorResponse {
    open spec fn json_fault(j: Json) -> Option<CodecFault> {
        if object_fault(j, "ErrorResponse"@) is Some {
            object_fault(j, "ErrorResponse"@)
        } else if u64_member(j, "errorCode"@) is Err {
            Some(u64_member(j, "errorCode"@)->Err_0)
        } else if str_member(j, "error"@) is Err {
            Some(str_member(j, "error"@)->Err_0)
        } else {
            None
        }
    }

    open spec fn decodes(j: Json, v: Self) -> bool {
        &&& u64_member(j, "errorCode"@) == Ok::<u64, CodecFault>(v.error_code)
        &&& str_member(j, "error"@) == Ok::<Seq<char>, CodecFault>(v.error@)
    }

    fn from_json(j: &Json) -> (r: Result<Self, CodecError>) {
        object_check(j, "ErrorResponse")?;
        let error_code = req_u64(j, "errorCode")?;
        let error = req_str(j, "error")?;
        Ok(ErrorResponse { error_code, error })
    }
}

/// `r` is what a response with status `status` and the JSON document `j`
/// yields when a `T` is expected.
pub open spec fn outcome<T: FromJson>(status: u16, j: Json, r: Result<T, Error>) -> bool {
    if is_success(status) {
        match r {
            Ok(v) => T::json_fault(j) is None && T::decodes(j, v),
            Err(Error::Codec(e)) => T::json_fault(j) == Some(e@),
            Err(_) => false,
        }
    } else {
        match r {
            Ok(_) => false,
            Err(Error::Bitvavo { code, message }) => {
                &&& ErrorResponse::json_fault(j) is None
                &&& u64_member(j, "errorCode"@) == Ok::<u64, CodecFault>(code)
                &&& str_member(j, "error"@) == Ok::<Seq<char>, CodecFault>(message@)
            },
            Err(Error::Codec(e)) => ErrorResponse::json_fault(j) == Some(e@),
            Err(_) => false,
        }
    }
}

/// Classifies a response whose body is the JSON document `j`.
pub fn response_from_json<T: FromJson>(status: u16, j: &Json) -> (r: Result<T, Error>)
    ensures
        outcome::<T>(status, *j, r),
{
    if 200 <= status && status <= 299 {
        match T::from_json(j) {
            Ok(v) => Ok(v),
            Err(e) => Err(Error::Codec(e)),
        }
    } else {
        match ErrorResponse::from_json(j) {
            Ok(body) => Err(Error::Bitvavo { code: body.error_code, message: body.error }),
            Err(e) => Err(Error::Codec(e)),
        }
    }
}

/// Classifies a response from its status and body. A body that is not JSON
/// is a syntax error whatever the status.
pub fn response_from_request<T: FromJson>(status: u16, body: &[u8]) -> (r: Result<T, Error>)
    ensures
        match json_of_bytes(body@) {
            Some(j) => outcome::<T>(status, j, r),
            None => r matches Err(Error::Codec(CodecError::Syntax { .. })),
        },
{
    match parse_json(body) {
        Ok(j) => response_from_json(status, &j),
        Err(e) => Err(Error::Codec(CodecError::Syntax { message: e.to_string() })),
    }
}

/// The balance of one asset, from the list that the exchange returns for it:
/// its first entry. An empty list (an asset the exchange does not know) is an
/// error naming the asset.
pub fn first_balance(list: Vec<Balance>, symbol: &str) -> (r: Result<Balance, Error>)
    ensures
        list@.len() > 0 ==> (r matches Ok(b) && b == list@[0]),
        list@.len() == 0 ==> (r matches Err(Error::UnknownAsset { symbol: s }) && s@ == symbol@),
{
    let mut list = list;
    if list.len() == 0 {
        Err(Error::UnknownAsset { symbol: String::from_str(symbol) })
    } else {
        Ok(list.remove(0))
    }
}

/// The text of a codec error.
pub open spec fn codec_text(e: CodecFault) -> Seq<char> {
    match e {
        CodecFault::Syntax(m) => m,
        CodecFault::InvalidType(what, expected) => "invalid type for `"@ + what + "`: expected "@
            + expected,
        CodecFault::MissingField(field) => "missing field `"@ + field + "`"@,
        CodecFault::InvalidValue(value, expected) => "invalid value: string \""@ + value
            + "\", expected "@ + expected,
    }
}

impl CodecError {
    /// A description of the error.
    pub fn message(&self) -> (r: String)
        ensures
            r@ == codec_text(self@),
    {
        match self {
            CodecError::Syntax { message } => message.clone(),
            CodecError::InvalidType { what, expected } => {
                let mut s = String::from_str("invalid type for `");
                s.append(what.as_str());
                s.append("`: expected ");
                s.append(expected.as_str());
                s
            },
            CodecError::MissingField { field } => {
                let mut s = String::from_str("missing field `");
                s.append(field.as_str());
                s.append("`");
                s
            },
            CodecError::InvalidValue { value, expected } => {
                let mut s = String::from_str("invalid value: string \"");
                s.append(value.as_str());
                s.append("\", expected ");
                s.append(expected.as_str());
                s
            },
        }
    }
}

/// The text of an error.
pub open spec fn error_text(e: Error) -> Seq<char> {
    match e {
        Error::Transport { message } => "transport: "@ + message@,
        Error::Codec(c) => "codec: "@ + codec_text(c@),
        Error::Bitvavo { code, message } => "bitvavo: "@ + dec_str(code as nat) + ": "@ + message@,
        Error::InvalidSecret(_) => "invalid secret: invalid length"@,
        Error::UnknownAsset { symbol } => "unknown asset: "@ + symbol@,
    }
}

impl Error {
    /// A description of the error; it never holds the credentials.
    pub fn message(&self) -> (r: String)
        ensures
            r@ == error_text(*self),
    {
        match self {
            Error::Transport { message } => {
                let mut s = String::from_str("transport: ");
                s.append(message.as_str());
                s
            },
            Error::Codec(c) => {
                let mut s = String::from_str("codec: ");
                let m = c.message();
                s.append(m.as_str());
                s
            },
            Error::Bitvavo { code, message } => {
                let mut s = String::from_str("bitvavo: ");
                let d = dec_text(*code);
                s.append(d.as_str());
                s.append(": ");
                s.append(message.as_str());
                s
            },
            Error::InvalidSecret(_) => String::from_str("invalid secret: invalid length"),
            Error::UnknownAsset { symbol } => {
                let mut s = String::from_str("unknown asset: ");
                s.append(symbol.as_str());
                s
            },
        }
    }
}

} // verus!
