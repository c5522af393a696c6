//! The ways a run of the tool can fail.

use vstd::prelude::*;
use vstd::string::*;

verus! {

/// Every failure is terminal for the whole invocation: the first error met
/// while fetching stops the run, and nothing is printed but its message.
#[derive(Debug)]
pub enum Error {
    /// No usernames were given on the command line.
    Usage,
    /// The API answered with an empty task list for this username.
    NotFound(String),
    /// The HTTP round trip itself failed (DNS, TLS, timeout, bad status).
    Transport(String),
    /// The response body did not decode as the expected JSON shape.
    Decode(String),
    /// The queried users do not share one task list length, so no table
    /// can align them positionally.
    TaskMismatch,
}

impl Error {
    /// The human-readable message for this error, as the binary prints it.
    pub open spec fn message_spec(&self) -> Seq<char> {
        match self {
            Error::Usage => "No arguments given!"@,
            Error::NotFound(u) => "User '"@ + u@ + "' does not exist!"@,
            Error::Transport(m) => m@,
            Error::Decode(m) => m@,
            Error::TaskMismatch => "Users do not share the same task list!"@,
        }
    }

    pub fn message(&self) -> (r: String)
        ensures
            r@ == self.message_spec(),
    {
        match self {
            Error::Usage => String::from_str("No arguments given!"),
            Error::NotFound(u) => {
                let mut s = String::from_str("User '");
                s.append(u.as_str());
                s.append("' does not exist!");
                s
            },
            Error::Transport(m) => m.clone(),
            Error::Decode(m) => m.clone(),
            Error::TaskMismatch => String::from_str("Users do not share the same task list!"),
        }
    }
}

} // verus!
