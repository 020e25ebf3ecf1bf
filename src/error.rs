use vstd::prelude::*;
use crate::json::Json;

verus! {

/// The error object that a provider reports for a failed call, and the
/// payload of a disconnect event.
#[derive(Debug, PartialEq, Eq)]
pub struct ProviderRPCError {
    pub code: i64,
    pub message: Option<String>,
    pub data: Option<Json>,
    pub stack: Option<Json>,
}

/// A classified failure of a provider call.
#[allow(inconsistent_fields)]
#[derive(Debug, PartialEq, Eq)]
pub enum Error {
    UserRejectedRequest { message: String },
    Unauthorised { message: String },
    UnsupportedMethod { message: String },
    Disconnected { message: String },
    ChainDisconnected { message: String },
    ProviderRpcError {
        code: i64,
        message: Option<String>,
        data: Option<Json>,
        stack: Option<Json>,
    },
    DeserialisationError(String),
}

/// The message a provider gave, or `default` where it gave none.
pub open spec fn message_text(m: Option<String>, default: Seq<char>) -> Seq<char> {
    match m {
        Some(s) => s@,
        None => default,
    }
}

/// Whether `r` is the classification of the raw error `e`.
pub open spec fn classifies(e: ProviderRPCError, r: Error) -> bool {
    if e.code == 4001 {
        r is UserRejectedRequest && r->UserRejectedRequest_message@ == message_text(
            e.message,
            "The user rejected the request."@,
        )
    } else if e.code == 4100 {
        r is Unauthorised && r->Unauthorised_message@ == message_text(
            e.message,
            "The requested method and/or account has not been authorized by the user."@,
        )
    } else if e.code == 4200 {
        r is UnsupportedMethod && r->UnsupportedMethod_message@ == message_text(
            e.message,
            "The Provider does not support the requested method."@,
        )
    } else if e.code == 4900 {
        r is Disconnected && r->Disconnected_message@ == message_text(
            e.message,
            "The Provider is disconnected from all chains."@,
        )
    } else if e.code == 4901 {
        r is ChainDisconnected && r->ChainDisconnected_message@ == message_text(
            e.message,
            "The Provider is not connected to the requested chain."@,
        )
    } else {
        r == (Error::ProviderRpcError {
            code: e.code,
            message: e.message,
            data: e.data,
            stack: e.stack,
        })
    }
}

fn message_or(m: Option<String>, default: &str) -> (r: String)
    ensures
        r@ == message_text(m, default@),
{
    match m {
        Some(s) => s,
        None => String::from_str(default),
    }
}

/// Maps a raw provider error to its classified form by its code; a code
/// outside the known table keeps every field of the raw error.
pub fn classify(e: ProviderRPCError) -> (r: Error)
    ensures
        classifies(e, r),
{
    let code = e.code;
    if code == 4001 {
        Error::UserRejectedRequest {
            message: message_or(e.message, "The user rejected the request."),
        }
    } else if code == 4100 {
        Error::Unauthorised {
            message: message_or(
                e.message,
                "The requested method and/or account has not been authorized by the user.",
            ),
        }
    } else if code == 4200 {
        Error::UnsupportedMethod {
            message: message_or(e.message, "The Provider does not support the requested method."),
        }
    } else if code == 4900 {
        Error::Disconnected {
            message: message_or(e.message, "The Provider is disconnected from all chains."),
        }
    } else if code == 4901 {
        Error::ChainDisconnected {
            message: message_or(e.message, "The Provider is not connected to the requested chain."),
        }
    } else {
        Error::ProviderRpcError { code: e.code, message: e.message, data: e.data, stack: e.stack }
    }
}

} // verus!
