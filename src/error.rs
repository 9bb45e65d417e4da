use vstd::prelude::*;

verus! {

/// Error kinds of std's I/O, carried as they are.
#[verifier::external_type_specification]
#[verifier::external_body]
pub struct ExIoErrorKind(std::io::ErrorKind);

/// Relies on `std::io::ErrorKind` being `Copy`: a clone is the same kind.
pub assume_specification[ <std::io::ErrorKind as Clone>::clone ](k: &std::io::ErrorKind) -> (r:
    std::io::ErrorKind)
    ensures
        r == *k,
;

/// The numeric fields of a lockfile.
#[derive(Debug, Clone, Copy, PartialEq, Eq, Structural)]
pub enum NumericField {
    ProcessId,
    Port,
}

/// The error type of this crate.
#[derive(Debug, Clone)]
pub enum Error {
    Simple(StringError),
    IO(IOErrorWrapper),
    NFD(NFDErrorWrapper),
    /// The lockfile has fewer than five `:`-separated fields.
    MalformedDescriptor,
    /// A numeric lockfile field is not a non-negative integer that fits in a `usize`.
    NumericFieldInvalid(NumericField),
    /// A request to the local API failed.
    RequestFailed(ReqwestErrorWrapper),
    /// A response body could not be decoded; the text says why.
    DecodeFailed(String),
}

/// What a failed folder dialog reports, in plain values.
#[derive(Debug, Clone)]
pub enum NFDErrorWrapper {
    /// The path handed to the dialog held a nul byte at this position.
    NulError(usize),
    /// The dialog returned bytes that are not UTF-8; those before this index were.
    Utf8Error(usize),
    Error(String),
}

/// An I/O error reduced to its kind.
#[derive(Debug, Clone)]
pub enum IOErrorWrapper {
    Simple(std::io::ErrorKind),
}

/// What a failed HTTP request reports, in plain values.
#[derive(Debug, Clone)]
pub struct ReqwestErrorWrapper {
    pub url: Option<String>,
    pub is_builder: bool,
    pub is_redirect: bool,
    pub is_status: bool,
    pub is_timeout: bool,
    /// The HTTP status code, where the server answered.
    pub status: Option<u16>,
}

/// An error described by a fixed message.
#[derive(Debug, Clone)]
pub struct StringError {
    pub desc: &'static str,
}

impl StringError {
    pub fn new(desc: &'static str) -> (r: Self)
        ensures
            r.desc == desc,
    {
        Self { desc }
    }
}

} // verus!
