//! Fatal condition classifier.
//!
//! Every error a relay task can fail with is caught at the task's
//! boundary and shown to the classifier, and nothing else of it ever
//! reaches the accept loop. Almost every failure is local: one
//! connection's dial being refused, timing out, or breaking mid-stream
//! never brings down the service. The one exception is the
//! anonymity-routing circuit's time-to-live expiring, which means the
//! anonymity client's internal state is unrecoverable for every future
//! dial: continuing would silently degrade into failures for each
//! subsequent connection, so the process must terminate instead.

use vstd::prelude::*;

verus! {

/// Why a relay task failed, reduced to what the classifier and the logs
/// need. The network edge maps each transport's concrete error — an I/O
/// error, a SOCKS5 reply, an anonymity-routing failure — onto one of
/// these as it catches it.
#[derive(Debug, Clone, Copy, PartialEq, Eq, Structural)]
pub enum TransferError {
    /// The forward endpoint refused the connection.
    ConnectionRefused,
    /// A connection was reset by a peer.
    ConnectionReset,
    /// A dial or a transfer timed out.
    TimedOut,
    /// The SOCKS5 handshake failed.
    HandshakeFailed,
    /// The anonymity-routing circuit's time-to-live expired.
    CircuitTtlExpired,
    /// Any other I/O failure.
    Other,
}

/// The classifier's verdict on one relay task's failure.
#[derive(Debug, Clone, Copy, PartialEq, Eq, Structural)]
pub enum Verdict {
    /// Log the error and keep accepting: the failure is scoped to its
    /// connection.
    Local,
    /// Terminate the process with a non-zero exit status immediately.
    Fatal,
}

/// Classify one relay task's failure: fatal exactly for the expired
/// anonymity circuit, local for everything else.
pub fn classify(e: &TransferError) -> (v: Verdict)
    ensures
        (v is Fatal) <==> (*e is CircuitTtlExpired),
        (v is Local) <==> !(*e is CircuitTtlExpired),
{
    match e {
        TransferError::CircuitTtlExpired => Verdict::Fatal,
        _ => Verdict::Local,
    }
}

impl TransferError {
    /// A human-readable description of the failure, for logging.
    pub fn message(&self) -> (out: String)
        ensures
            *self is ConnectionRefused ==> out@ == "Connection refused"@,
            *self is ConnectionReset ==> out@ == "Connection reset by peer"@,
            *self is TimedOut ==> out@ == "Operation timed out"@,
            *self is HandshakeFailed ==> out@ == "SOCKS5 handshake failed"@,
            *self is CircuitTtlExpired ==> out@ == "TTL expired"@,
            *self is Other ==> out@ == "I/O error"@,
    {
        match self {
            TransferError::ConnectionRefused => String::from_str("Connection refused"),
            TransferError::ConnectionReset => String::from_str("Connection reset by peer"),
            TransferError::TimedOut => String::from_str("Operation timed out"),
            TransferError::HandshakeFailed => String::from_str("SOCKS5 handshake failed"),
            TransferError::CircuitTtlExpired => String::from_str("TTL expired"),
            TransferError::Other => String::from_str("I/O error"),
        }
    }
}

} // verus!
