use crate::text::{spec_digits, u64_to_string};
use vstd::prelude::*;
use vstd::string::*;

verus! {

/// The status code every failure of a query operation carries: transport and
/// decode failures alike are reported as a generic server error.
pub const SERVER_ERROR_STATUS: u16 = 500;

/// A failure reported by one of the query operations: an HTTP status code
/// together with an optional human-readable message.
#[derive(Debug)]
pub struct Error {
    pub code: u16,
    pub message: Option<String>,
}

/// The one-line rendering of an error: the status code in decimal, then the
/// message where there is one.
pub open spec fn spec_error_display(code: u16, message: Option<String>) -> Seq<char> {
    match message {
        Some(m) => spec_digits(code as nat) + ": "@ + m@,
        None => spec_digits(code as nat),
    }
}

/// The shape of every failed query outcome: an error carrying the generic
/// server-error status and exactly the given message.
pub open spec fn spec_is_server_error<T>(r: Result<T, Error>, msg: Seq<char>) -> bool {
    &&& r matches Err(e)
    &&& e.code == SERVER_ERROR_STATUS
    &&& e.message matches Some(m)
    &&& m@ == msg
}

impl Error {
    /// Builds an error value from a status code and an optional message.
    pub fn new(code: u16, message: Option<String>) -> (r: Error)
        ensures
            r.code == code,
            r.message == message,
    {
        Error { code, message }
    }

    /// Renders the error as the status code in decimal, followed by the
    /// message where there is one.
    pub fn display_string(&self) -> (r: String)
        ensures
            r@ == spec_error_display(self.code, self.message),
    {
        let mut s = u64_to_string(self.code as u64);
        match &self.message {
            Some(m) => {
                s.append(": ");
                s.append(m.as_str());
            },
            None => {},
        }
        proof {
            assert(s@ =~= spec_error_display(self.code, self.message));
        }
        s
    }

    /// The message carried by this error, or the empty string when none is.
    pub fn description(&self) -> (r: &str)
        ensures
            match self.message {
                Some(m) => r@ == m@,
                None => r@ == ""@,
            },
    {
        match &self.message {
            Some(m) => m.as_str(),
            None => "",
        }
    }
}

} // verus!
