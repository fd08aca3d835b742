//! Observability lines.
//!
//! The engine's outward-facing text: the startup lines naming the bound
//! listen endpoint and the forward target, and the per-connection lines
//! at the established and closed transitions, tagged with the connection
//! identifier. Emitting them — and choosing where they go — belongs to
//! the logging collaborator outside the library; their exact content is
//! built and proved here.

use vstd::prelude::*;

use crate::config::ForwardAddr;
use crate::config::ListenAddr;
use crate::config::forward_display;
use crate::config::listen_display;

verus! {

/// The decimal digit character for `d`.
pub open spec fn dec_digit(d: int) -> char {
    if d == 0 {
        '0'
    } else if d == 1 {
        '1'
    } else if d == 2 {
        '2'
    } else if d == 3 {
        '3'
    } else if d == 4 {
        '4'
    } else if d == 5 {
        '5'
    } else if d == 6 {
        '6'
    } else if d == 7 {
        '7'
    } else if d == 8 {
        '8'
    } else {
        '9'
    }
}

/// The decimal representation of `n`, most significant digit first, with
/// no leading zeros (and `0` written as one digit).
pub open spec fn dec_rep(n: nat) -> Seq<char>
    decreases n,
{
    if n < 10 {
        seq![dec_digit(n as int)]
    } else {
        dec_rep(n / 10) + seq![dec_digit((n % 10) as int)]
    }
}

/// The one-character string for a decimal digit.
fn digit_str(d: u64) -> (out: String)
    requires
        d < 10,
    ensures
        out@ == seq![dec_digit(d as int)],
{
    if d == 0 {
        proof {
            reveal_strlit("0");
            assert(("0")@ =~= seq![dec_digit(d as int)]);
        }
        String::from_str("0")
    } else if d == 1 {
        proof {
            reveal_strlit("1");
            assert(("1")@ =~= seq![dec_digit(d as int)]);
        }
        String::from_str("1")
    } else if d == 2 {
        proof {
            reveal_strlit("2");
            assert(("2")@ =~= seq![dec_digit(d as int)]);
        }
        String::from_str("2")
    } else if d == 3 {
        proof {
            reveal_strlit("3");
            assert(("3")@ =~= seq![dec_digit(d as int)]);
        }
        String::from_str("3")
    } else if d == 4 {
        proof {
            reveal_strlit("4");
            assert(("4")@ =~= seq![dec_digit(d as int)]);
        }
        String::from_str("4")
    } else if d == 5 {
        proof {
            reveal_strlit("5");
            assert(("5")@ =~= seq![dec_digit(d as int)]);
        }
        String::from_str("5")
    } else if d == 6 {
        proof {
            reveal_strlit("6");
            assert(("6")@ =~= seq![dec_digit(d as int)]);
        }
        String::from_str("6")
    } else if d == 7 {
        proof {
            reveal_strlit("7");
            assert(("7")@ =~= seq![dec_digit(d as int)]);
        }
        String::from_str("7")
    } else if d == 8 {
        proof {
            reveal_strlit("8");
            assert(("8")@ =~= seq![dec_digit(d as int)]);
        }
        String::from_str("8")
    } else {
        proof {
            reveal_strlit("9");
            assert(("9")@ =~= seq![dec_digit(d as int)]);
        }
        String::from_str("9")
    }
}

/// `n` written in decimal.
pub fn format_u64(n: u64) -> (out: String)
    ensures
        out@ == dec_rep(n as nat),
    decreases n,
{
    if n < 10 {
        digit_str(n)
    } else {
        let mut out = format_u64(n / 10);
        let last = digit_str(n % 10);
        out.append(last.as_str());
        out
    }
}

/// The builder of the engine's outward-facing text.
pub struct Logger;

impl Logger {
    /// The startup line naming the bound listen endpoint.
    pub fn listening_line(addr: &ListenAddr) -> (out: String)
        ensures
            out@ == "Listening on '"@ + listen_display(*addr) + "'."@,
    {
        let mut out = String::from_str("Listening on '");
        out.append(addr.display().as_str());
        out.append("'.");
        out
    }

    /// The startup line naming the forward target.
    pub fn forwarding_line(addr: &ForwardAddr) -> (out: String)
        ensures
            out@ == "Incoming connections will be forwarded to '"@ + forward_display(*addr)
                + "'."@,
    {
        let mut out = String::from_str("Incoming connections will be forwarded to '");
        out.append(addr.display().as_str());
        out.append("'.");
        out
    }

    /// The per-connection line at the established transition.
    pub fn connection_established_line(id: u64) -> (out: String)
        ensures
            out@ == "Connection #"@ + dec_rep(id as nat) + " established"@,
    {
        let mut out = String::from_str("Connection #");
        out.append(format_u64(id).as_str());
        out.append(" established");
        out
    }

    /// The per-connection line at the closed transition.
    pub fn connection_closed_line(id: u64) -> (out: String)
        ensures
            out@ == "Connection #"@ + dec_rep(id as nat) + " closed"@,
    {
        let mut out = String::from_str("Connection #");
        out.append(format_u64(id).as_str());
        out.append(" closed");
        out
    }

    /// The line reporting one relay task's failure.
    pub fn transfer_failed_line(msg: &str) -> (out: String)
        ensures
            out@ == "Transfer failed: "@ + msg@,
    {
        let mut out = String::from_str("Transfer failed: ");
        out.append(msg);
        out
    }
}

} // verus!
