//! An error report that is filled in step by step.

use vstd::prelude::*;
use vstd::string::StringExecFns;

verus! {

/// An error: a code for programs, a status number, and a message for people.
#[derive(Debug)]
pub struct Error {
    pub code: String,
    pub status: u16,
    pub message: String,
}

impl Default for Error {
    /// The unknown error: code `UNKNOWN`, status 500.
    fn default() -> (e: Self)
        ensures
            e.code@ == "UNKNOWN"@,
            e.status == 500,
            e.message@ == "Unknown error has happened."@,
    {
        Error {
            code: String::from_str("UNKNOWN"),
            status: 500,
            message: String::from_str("Unknown error has happened."),
        }
    }
}

impl Error {
    /// The unknown error under the code `code`.
    pub fn new(code: &str) -> (e: Self)
        ensures
            e.code@ == code@,
            e.status == 500,
            e.message@ == "Unknown error has happened."@,
    {
        let mut err = Error {
            code: String::from_str("UNKNOWN"),
            status: 500,
            message: String::from_str("Unknown error has happened."),
        };
        err.code = String::from_str(code);
        err
    }

    /// Sets the status and hands the error back for the next step.
    pub fn status(&mut self, s: u16) -> (r: &mut Self)
        ensures
            r.status == s,
            r.code == old(self).code,
            r.message == old(self).message,
            *final(self) == *final(r),
    {
        self.status = s;
        self
    }

    /// Sets the message and hands the error back for the next step.
    pub fn message(&mut self, m: &str) -> (r: &mut Self)
        ensures
            r.message@ == m@,
            r.code == old(self).code,
            r.status == old(self).status,
            *final(self) == *final(r),
    {
        self.message = String::from_str(m);
        self
    }
}

} // verus!
