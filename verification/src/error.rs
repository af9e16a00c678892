//! The library's error type.

use vstd::prelude::*;

use crate::text::{concat, decimal_spec, i64_to_string, signed_decimal_spec};

verus! {

/// Everything that can go wrong while installing.
#[derive(Debug, Clone, PartialEq, Eq)]
pub enum Error {
    /// A file-system operation failed; holds the operating system's message.
    Io(String),
    /// A download or request failed; holds the HTTP client's message.
    Http(String),
    ConfigParse(String),
    ConfigWrite(String),
    /// A command exited unsuccessfully (`-1` when it had no exit code).
    Command { cmd: String, code: i32 },
    Unsupported(String),
    Msg(String),
}

/// The text an error is shown with.
pub open spec fn message_spec(e: Error) -> Seq<char> {
    match e {
        Error::Io(m) => "I/O error: "@ + m@,
        Error::Http(m) => "network error: "@ + m@,
        Error::ConfigParse(m) => "config parse error: "@ + m@,
        Error::ConfigWrite(m) => "config write error: "@ + m@,
        Error::Command { cmd, code } => "command `"@ + cmd@ + "` exited with code "@
            + signed_decimal_spec(code as int),
        Error::Unsupported(m) => "unsupported platform: "@ + m@,
        Error::Msg(m) => m@,
    }
}

impl Error {
    /// A free-form error message.
    pub fn msg(m: String) -> (e: Error)
        ensures
            e == Error::Msg(m),
    {
        Error::Msg(m)
    }

    /// The text the error is shown with.
    pub fn message(&self) -> (s: String)
        ensures
            s@ == message_spec(*self),
    {
        match self {
            Error::Io(m) => concat("I/O error: ", m.as_str()),
            Error::Http(m) => concat("network error: ", m.as_str()),
            Error::ConfigParse(m) => concat("config parse error: ", m.as_str()),
            Error::ConfigWrite(m) => concat("config write error: ", m.as_str()),
            Error::Command { cmd, code } => {
                let a = concat("command `", cmd.as_str());
                let b = concat(a.as_str(), "` exited with code ");
                let c = i64_to_string(*code as i64);
                concat(b.as_str(), c.as_str())
            },
            Error::Unsupported(m) => concat("unsupported platform: ", m.as_str()),
            Error::Msg(m) => m.clone(),
        }
    }
}

} // verus!
