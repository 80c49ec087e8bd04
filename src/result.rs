//! Errors of the node and the error object that RPC callers see.
use vstd::prelude::*;

verus! {

/// A failure of the node, with the text that describes it.
#[derive(Clone, Debug, PartialEq, Eq)]
pub enum Error {
    Clap(String),
    Secio(String),
    Transport(String),
    Send(String),
    Network(String),
    Jsonrpc(String),
    Tokio(String),
    Io(String),
    Axon(String),
}

/// Code of every error that the broadcast endpoint reports.
pub const BROADCAST_ERROR_CODE: i32 = -1;

/// An error reported to an RPC caller: a numeric code and a reason.
#[derive(Clone, Debug)]
pub struct RpcError {
    code: i32,
    reason: String,
}

impl RpcError {
    pub fn new(code: i32, reason: String) -> (r: Self)
        ensures
            r.code() == code,
            r.reason() == reason,
    {
        RpcError { code, reason }
    }

    pub closed spec fn code(&self) -> i32 {
        self.code
    }

    pub closed spec fn reason(&self) -> String {
        self.reason
    }

    pub fn get_code(&self) -> (r: i32)
        ensures
            r == self.code(),
    {
        self.code
    }

    pub fn get_reason(&self) -> (r: &String)
        ensures
            *r == self.reason(),
    {
        &self.reason
    }
}

} // verus!
