//! The logic of the JSON-RPC 2.0 client for aria2: the secret token, the
//! method names, the parameters sent, the interpretation of a response and
//! the WebSocket address. The HTTP exchange itself is made by the binary.

use vstd::prelude::*;
use crate::text::{str_concat, replace_all, spec_replace};

verus! {

/// The token that authenticates calls: `token:<secret>`, or none where the
/// secret is empty.
pub fn secret_token(secret: &str) -> (r: Option<String>)
    ensures
        secret@.len() == 0 ==> r is None,
        secret@.len() > 0 ==> (r matches Some(t) && t@ == "token:"@ + secret@),
{
    if secret.is_empty() {
        None
    } else {
        Some(str_concat("token:", secret))
    }
}

/// The full name of an aria2 method: `aria2.<method>`.
pub fn method_name(method: &str) -> (r: String)
    ensures
        r@ == "aria2."@ + method@,
{
    str_concat("aria2.", method)
}

/// The parameters of a call: the secret token first, where one is set,
/// then the method's own parameters.
pub fn with_secret<T>(secret: Option<T>, params: Vec<T>) -> (r: Vec<T>)
    ensures
        r@ == match secret {
            Some(s) => seq![s] + params@,
            None => params@,
        },
{
    match secret {
        Some(s) => {
            let mut r: Vec<T> = Vec::new();
            r.push(s);
            let mut params = params;
            let ghost p = params@;
            r.append(&mut params);
            assert(r@ =~= seq![s] + p);
            r
        },
        None => params,
    }
}

/// An error object in an aria2 response.
#[derive(Debug)]
pub struct RpcFault {
    pub code: i64,
    pub message: String,
}

/// Why a call gave no result.
#[derive(Debug)]
pub enum RpcFailure {
    /// aria2 answered with an error.
    Remote { code: i64, message: String },
    /// aria2 answered with neither a result nor an error.
    EmptyResponse,
}

/// The outcome of a call from its response: its error where it carries one,
/// else its result, else a failure for the empty response.
pub fn call_outcome<T>(result: Option<T>, error: Option<RpcFault>) -> (r: Result<T, RpcFailure>)
    ensures
        match error {
            Some(f) => r matches Err(RpcFailure::Remote { code, message }) && code == f.code
                && message@ == f.message@,
            None => match result {
                Some(v) => r == Ok::<T, RpcFailure>(v),
                None => r matches Err(RpcFailure::EmptyResponse),
            },
        },
{
    match error {
        Some(f) => Err(RpcFailure::Remote { code: f.code, message: f.message }),
        None => match result {
            Some(v) => Ok(v),
            None => Err(RpcFailure::EmptyResponse),
        },
    }
}

/// The WebSocket URL derived from the RPC URL: `http://` becomes `ws://`
/// and `https://` becomes `wss://`, wherever they occur.
pub open spec fn spec_ws_url(url: Seq<char>) -> Seq<char> {
    spec_replace(
        spec_replace(spec_replace(url, "http://"@, "ws://"@), "https://"@, "wss://"@),
        "/jsonrpc"@,
        "/jsonrpc"@,
    )
}

/// Get the WebSocket URL derived from the RPC URL.
pub fn ws_url(url: &str) -> (r: String)
    ensures
        r@ == spec_ws_url(url@),
{
    let a = replace_all(url, "http://", "ws://");
    let b = replace_all(a.as_str(), "https://", "wss://");
    replace_all(b.as_str(), "/jsonrpc", "/jsonrpc")
}

} // verus!
