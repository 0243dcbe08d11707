//! Errors reported by glib (`GError`), held as plain values.

use vstd::prelude::*;
use vstd::string::StringSliceAdditionalSpecFns;
use vstd::utf8::{decode_utf8, valid_utf8};

use crate::utils::utf8_str;

verus! {

/// A glib error: its domain (e.g. `G_FILE_ERROR`), its code within that
/// domain (e.g. `G_FILE_ERROR_NOENT`) and its message, as bytes.
#[derive(Debug)]
pub struct Error {
    domain: u32,
    code: i32,
    message: Vec<u8>,
}

impl Error {
    /// The error's domain.
    pub closed spec fn spec_domain(&self) -> u32 {
        self.domain
    }

    /// The error's code.
    pub closed spec fn spec_code(&self) -> i32 {
        self.code
    }

    /// The error's message, as bytes.
    pub closed spec fn spec_message(&self) -> Seq<u8> {
        self.message@
    }

    /// Domain of this error, e.g. G_FILE_ERROR
    pub fn domain(&self) -> (r: u32)
        ensures
            r == self.spec_domain(),
    {
        self.domain
    }

    /// Error code for this error e.g. G_FILE_ERROR_NOENT
    pub fn code(&self) -> (r: i32)
        ensures
            r == self.spec_code(),
    {
        self.code
    }

    /// Returns the human-readable informative error message.
    ///
    /// The message must be valid UTF-8 (`try_message` tells).
    pub fn message(&self) -> (r: &str)
        requires
            valid_utf8(self.spec_message()),
        ensures
            r.spec_bytes() == self.spec_message(),
            r@ == decode_utf8(self.spec_message()),
    {
        match utf8_str(self.message_bytes()) {
            Some(s) => s,
            None => "",
        }
    }

    /// Returns the human-readable informative error message, or `None` where
    /// it is not valid UTF-8.
    pub fn try_message(&self) -> (r: Option<&str>)
        ensures
            r is Some <==> valid_utf8(self.spec_message()),
            r is Some ==> r->0.spec_bytes() == self.spec_message(),
            r is Some ==> r->0@ == decode_utf8(self.spec_message()),
    {
        utf8_str(self.message_bytes())
    }

    /// Returns the human-readable informative error message as a list of
    /// bytes.
    pub fn message_bytes(&self) -> (r: &[u8])
        ensures
            r@ == self.spec_message(),
    {
        self.message.as_slice()
    }
}

/// Creates an error from the fields of a `GError`.
pub fn new(domain: u32, code: i32, message: Vec<u8>) -> (r: Error)
    ensures
        r.spec_domain() == domain,
        r.spec_code() == code,
        r.spec_message() == message@,
{
    Error { domain, code, message }
}

} // verus!
