//! The one error type that every sampler returns. The kind keeps the cause
//! (I/O, parse, subprocess, network, protocol) while the message carries a
//! human-readable description for the fault log.
use vstd::prelude::*;

verus! {

/// Cause of a sampler or emission failure.
#[derive(Clone, Copy, Debug, PartialEq, Eq, Structural)]
pub enum ErrorKind {
    Io,
    Parse,
    Subprocess,
    Network,
    Protocol,
}

/// A failure description: a kind and a UTF-8 message for the fault log.
#[derive(Clone, Debug)]
pub struct CliError {
    pub kind: ErrorKind,
    pub error_msg: Vec<u8>,
}

impl CliError {
    /// Build an error from a kind and a message.
    pub fn new(kind: ErrorKind, msg: Vec<u8>) -> (r: CliError)
        ensures
            r.kind == kind,
            r.error_msg@ == msg@,
    {
        CliError { kind, error_msg: msg }
    }

    /// Build an error from a kind and a borrowed message.
    pub fn from_msg(kind: ErrorKind, msg: &[u8]) -> (r: CliError)
        ensures
            r.kind == kind,
            r.error_msg@ == msg@,
    {
        let mut v: Vec<u8> = Vec::new();
        crate::text::push_bytes(&mut v, msg);
        CliError { kind, error_msg: v }
    }
}

} // verus!
