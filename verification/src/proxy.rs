//! Transport resolver.
//!
//! A [`ReverseProxy`] holds the engine's immutable configuration: the
//! listen endpoint, the forward endpoint, and at most one way of reaching
//! the latter other than dialing it directly (a SOCKS5 proxy address, or
//! the embedded anonymity-routing client). Its [`dial_plan`] method is
//! the transport-selection rule: it decides, once per connection, which
//! of the four dial paths the network edge must take, in a fixed
//! priority order. The dialing itself — connecting sockets, the SOCKS5
//! handshake, the anonymity-routed stream — happens outside the library;
//! exactly one path is chosen for every configuration.
//!
//! [`dial_plan`]: ReverseProxy::dial_plan

use vstd::prelude::*;

use crate::config::ForwardAddr;
use crate::config::ListenAddr;

verus! {

/// The engine's configuration, set once at startup and never mutated.
pub struct ReverseProxy {
    /// Where inbound connections are accepted.
    pub local_addr: ListenAddr,
    /// Where each accepted connection is relayed to.
    pub forward_addr: ForwardAddr,
    /// A SOCKS5 proxy to dial TCP forward endpoints through, if any.
    pub socks5_proxy: Option<String>,
    /// Whether to dial TCP forward endpoints through the embedded
    /// anonymity-routing client instead of the local network stack.
    pub tor: bool,
}

/// Which of the four dial paths the network edge must take for one
/// connection, with everything the dial needs.
#[derive(Debug)]
pub enum DialPlan {
    /// Connect to this filesystem socket path directly.
    Unix(String),
    /// Ask the anonymity-routing client to reach this host string; the
    /// client performs its own name resolution.
    Tor(String),
    /// SOCKS5 CONNECT through the proxy at the first address, naming the
    /// second — the forward host string — as the target; the proxy
    /// resolves it.
    Socks5(String, String),
    /// Connect to this host string using the local network stack.
    Direct(String),
}

/// The transport-selection rule as a relation between a configuration
/// and a chosen plan: a filesystem-socket forward endpoint is dialed
/// directly whatever else is configured; otherwise anonymity routing
/// wins over a SOCKS5 proxy, which wins over a direct dial.
pub open spec fn dial_plan_matches(p: &ReverseProxy, d: &DialPlan) -> bool {
    match p.forward_addr {
        ForwardAddr::Unix(path) => d matches DialPlan::Unix(q) && q@ == path@,
        ForwardAddr::Tcp(host) => {
            if p.tor {
                d matches DialPlan::Tor(h) && h@ == host@
            } else {
                match p.socks5_proxy {
                    Some(proxy) => d matches DialPlan::Socks5(pr, h) && pr@ == proxy@ && h@
                        == host@,
                    None => d matches DialPlan::Direct(h) && h@ == host@,
                }
            }
        },
    }
}

impl ReverseProxy {
    /// A configuration that relays `local_addr` to `forward_addr` by
    /// dialing it directly: no proxy, no anonymity routing.
    pub fn new(local_addr: ListenAddr, forward_addr: ForwardAddr) -> (p: ReverseProxy)
        ensures
            p.local_addr == local_addr,
            p.forward_addr == forward_addr,
            p.socks5_proxy is None,
            !p.tor,
    {
        ReverseProxy { local_addr, forward_addr, socks5_proxy: None, tor: false }
    }

    /// The same configuration with the SOCKS5 proxy set (or cleared).
    pub fn socks5_proxy(self, socks5_proxy: Option<String>) -> (p: ReverseProxy)
        ensures
            p.local_addr == self.local_addr,
            p.forward_addr == self.forward_addr,
            p.socks5_proxy == socks5_proxy,
            p.tor == self.tor,
    {
        ReverseProxy { socks5_proxy, ..self }
    }

    /// The same configuration with the embedded anonymity-routing client
    /// enabled or disabled.
    pub fn tor(self, enable: bool) -> (p: ReverseProxy)
        ensures
            p.local_addr == self.local_addr,
            p.forward_addr == self.forward_addr,
            p.socks5_proxy == self.socks5_proxy,
            p.tor == enable,
    {
        ReverseProxy { tor: enable, ..self }
    }

    /// Choose the dial path for one connection. Exactly one of the four
    /// paths is chosen, by the fixed priority the contract states.
    pub fn dial_plan(&self) -> (d: DialPlan)
        ensures
            dial_plan_matches(self, &d),
    {
        match &self.forward_addr {
            ForwardAddr::Unix(path) => DialPlan::Unix(path.clone()),
            ForwardAddr::Tcp(host) => {
                if self.tor {
                    DialPlan::Tor(host.clone())
                } else {
                    match &self.socks5_proxy {
                        Some(proxy) => DialPlan::Socks5(proxy.clone(), host.clone()),
                        None => DialPlan::Direct(host.clone()),
                    }
                }
            },
        }
    }
}

/// Transport selection precedence (law): whenever a SOCKS5 proxy and
/// anonymity routing are both configured — a combination upstream
/// validation should prevent — anonymity routing takes priority for a
/// TCP forward endpoint: the chosen plan dials through the anonymity
/// client, and through nothing else.
pub proof fn lemma_tor_takes_precedence(p: &ReverseProxy, d: &DialPlan)
    requires
        p.forward_addr is Tcp,
        p.tor,
        p.socks5_proxy is Some,
        dial_plan_matches(p, d),
    ensures
        d matches DialPlan::Tor(h) && h@ == p.forward_addr->Tcp_0@,
{
}

} // verus!
