//! Embedded anonymity-client launch configuration.
//!
//! One variant of the engine runs the anonymity-routing client as an
//! embedded daemon and reaches it the same way it reaches any SOCKS5
//! proxy: through the client's local SOCKS port. Launching the daemon is
//! outside work; the library holds the value that configures it — the
//! data directory and the SOCKS port — and the local proxy address the
//! engine then dials through.

use vstd::prelude::*;

use crate::logger::dec_rep;
use crate::logger::format_u64;

verus! {

/// The embedded anonymity client's launch configuration.
pub struct Tor {
    /// The daemon's data directory.
    pub data_dir: String,
    /// The local port the daemon's SOCKS5 listener is opened on.
    pub socks_port: u16,
}

impl Tor {
    /// A launch configuration with this data directory and SOCKS port.
    pub fn new(data_dir: String, socks_port: u16) -> (t: Tor)
        ensures
            t.data_dir == data_dir,
            t.socks_port == socks_port,
    {
        Tor { data_dir, socks_port }
    }

    /// The local SOCKS5 proxy address the engine dials through when the
    /// embedded client is in use: the loopback host and the SOCKS port.
    pub fn socks_endpoint(&self) -> (out: String)
        ensures
            out@ == "127.0.0.1:"@ + dec_rep(self.socks_port as nat),
    {
        let mut out = String::from_str("127.0.0.1:");
        out.append(format_u64(self.socks_port as u64).as_str());
        out
    }
}

} // verus!
