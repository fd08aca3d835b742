//! Configuration errors reported while parsing endpoint strings.

use vstd::prelude::*;

verus! {

/// Why an endpoint string was rejected.
///
/// A recognized endpoint has the shape `<scheme>://<value>`: when the
/// separator is absent the string carries no scheme at all, and when the
/// scheme token before the first separator is not one of the recognized
/// set the endpoint kind cannot be built from it.
#[derive(Debug, Clone, Copy, PartialEq, Eq, Structural)]
pub enum Error {
    /// The string contains no `://` separator.
    MissingProtocol,
    /// The scheme before the first `://` is not a recognized one.
    UnsupportedProtocol,
}

impl Error {
    /// A human-readable description of the error, for logging.
    pub fn message(&self) -> (out: String)
        ensures
            *self is MissingProtocol ==> out@ == "Protocol not specified"@,
            *self is UnsupportedProtocol ==> out@ == "Unsupported protocol"@,
    {
        match self {
            Error::MissingProtocol => String::from_str("Protocol not specified"),
            Error::UnsupportedProtocol => String::from_str("Unsupported protocol"),
        }
    }
}

} // verus!
