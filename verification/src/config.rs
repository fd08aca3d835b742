//! Endpoint address model.
//!
//! Listen and forward endpoints are written `<scheme>://<value>`. The
//! recognized schemes are `tcp` (the value is a socket address for a
//! listen endpoint, a host string for a forward endpoint — resolution is
//! deferred to whoever dials) and `unix` (the value is a filesystem
//! path). A string without the `://` separator has no scheme at all; one
//! whose scheme token is not recognized is rejected as unsupported.

use vstd::prelude::*;

use crate::error::Error;

verus! {

/// The local endpoint the engine binds and accepts inbound connections on.
///
/// The TCP variant carries the socket-address text exactly as written
/// after the scheme; turning it into a bound socket happens at the
/// network edge, outside this library.
#[derive(Debug, Clone, PartialEq, Eq)]
pub enum ListenAddr {
    Tcp(String),
    Unix(String),
}

/// The remote endpoint accepted connections are relayed to.
///
/// The TCP variant holds a host string rather than a resolved address:
/// name resolution differs per transport (local resolver, SOCKS5 proxy,
/// or the anonymity-routing client), so it is deferred to the dialer.
#[derive(Debug, Clone, PartialEq, Eq)]
pub enum ForwardAddr {
    Tcp(String),
    Unix(String),
}

/// The three characters of the scheme separator stand at position `i`.
pub open spec fn sep_at(s: Seq<char>, i: int) -> bool {
    &&& 0 <= i
    &&& i + 3 <= s.len()
    &&& s[i] == ':'
    &&& s[i + 1] == '/'
    &&& s[i + 2] == '/'
}

/// The string contains a `://` separator somewhere.
pub open spec fn has_sep(s: Seq<char>) -> bool {
    exists|i: int| sep_at(s, i)
}

/// `i` is the position of the first `://` separator.
pub open spec fn first_sep_at(s: Seq<char>, i: int) -> bool {
    &&& sep_at(s, i)
    &&& forall|j: int| 0 <= j < i ==> !sep_at(s, j)
}

/// The scheme token for TCP endpoints.
pub open spec fn tcp_scheme() -> Seq<char> {
    seq!['t', 'c', 'p']
}

/// The scheme token for Unix-domain-socket endpoints.
pub open spec fn unix_scheme() -> Seq<char> {
    seq!['u', 'n', 'i', 'x']
}

/// The canonical prefix of a displayed TCP endpoint.
pub open spec fn tcp_prefix() -> Seq<char> {
    seq!['t', 'c', 'p', ':', '/', '/']
}

/// The canonical prefix of a displayed Unix-domain-socket endpoint.
pub open spec fn unix_prefix() -> Seq<char> {
    seq!['u', 'n', 'i', 'x', ':', '/', '/']
}

/// The canonical display form of a listen endpoint.
pub open spec fn listen_display(e: ListenAddr) -> Seq<char> {
    match e {
        ListenAddr::Tcp(a) => tcp_prefix() + a@,
        ListenAddr::Unix(p) => unix_prefix() + p@,
    }
}

/// The canonical display form of a forward endpoint.
pub open spec fn forward_display(e: ForwardAddr) -> Seq<char> {
    match e {
        ForwardAddr::Tcp(a) => tcp_prefix() + a@,
        ForwardAddr::Unix(p) => unix_prefix() + p@,
    }
}

/// Every string with a separator has a first one.
pub proof fn lemma_first_sep_exists(s: Seq<char>)
    requires
        has_sep(s),
    ensures
        exists|i: int| first_sep_at(s, i),
{
    let w: int = choose|w: int| sep_at(s, w);
    lemma_first_sep_below(s, w);
}

proof fn lemma_first_sep_below(s: Seq<char>, w: int)
    requires
        sep_at(s, w),
    ensures
        exists|i: int| first_sep_at(s, i),
    decreases w,
{
    if forall|j: int| 0 <= j < w ==> !sep_at(s, j) {
        assert(first_sep_at(s, w));
    } else {
        let j: int = choose|j: int| 0 <= j < w && sep_at(s, j);
        lemma_first_sep_below(s, j);
    }
}

/// Position of the first scheme separator, or `None` when there is none.
fn find_sep(s: &str) -> (r: Option<usize>)
    ensures
        match r {
            Some(i) => first_sep_at(s@, i as int),
            None => !has_sep(s@),
        },
{
    let n: usize = s.unicode_len();
    if n < 3 {
        return None;
    }
    let mut i: usize = 0;
    while i <= n - 3
        invariant
            3 <= n == s@.len(),
            i <= n - 2,
            forall|j: int| 0 <= j < i ==> !sep_at(s@, j),
        decreases n - i,
    {
        let c0 = s.get_char(i);
        let c1 = s.get_char(i + 1);
        let c2 = s.get_char(i + 2);
        if c0 == ':' && c1 == '/' && c2 == '/' {
            return Some(i);
        }
        i = i + 1;
    }
    None
}

/// What parsing must yield once the first separator is known to stand at
/// `i`: the scheme decides the variant, and the value — everything after
/// the separator — is carried over unchanged.
pub open spec fn listen_parse_at(s: Seq<char>, i: int, r: Result<ListenAddr, Error>) -> bool {
    let scheme = s.subrange(0, i);
    let value = s.subrange(i + 3, s.len() as int);
    if scheme == tcp_scheme() {
        r matches Ok(ListenAddr::Tcp(a)) && a@ == value
    } else if scheme == unix_scheme() {
        r matches Ok(ListenAddr::Unix(p)) && p@ == value
    } else {
        r == Err::<ListenAddr, Error>(Error::UnsupportedProtocol)
    }
}

/// The forward-endpoint mirror of [`listen_parse_at`].
pub open spec fn forward_parse_at(s: Seq<char>, i: int, r: Result<ForwardAddr, Error>) -> bool {
    let scheme = s.subrange(0, i);
    let value = s.subrange(i + 3, s.len() as int);
    if scheme == tcp_scheme() {
        r matches Ok(ForwardAddr::Tcp(a)) && a@ == value
    } else if scheme == unix_scheme() {
        r matches Ok(ForwardAddr::Unix(p)) && p@ == value
    } else {
        r == Err::<ForwardAddr, Error>(Error::UnsupportedProtocol)
    }
}

/// The scheme of `s` up to the first separator at `i` is `tcp`.
fn scheme_is_tcp(s: &str, i: usize) -> (r: bool)
    requires
        i + 3 <= s@.len(),
    ensures
        r == (s@.subrange(0, i as int) == tcp_scheme()),
{
    if i != 3 {
        assert(s@.subrange(0, i as int).len() != tcp_scheme().len());
        return false;
    }
    let r = s.get_char(0) == 't' && s.get_char(1) == 'c' && s.get_char(2) == 'p';
    if r {
        assert(s@.subrange(0, 3) =~= tcp_scheme());
    } else {
        assert(s@.subrange(0, 3) != tcp_scheme());
    }
    r
}

/// The scheme of `s` up to the first separator at `i` is `unix`.
fn scheme_is_unix(s: &str, i: usize) -> (r: bool)
    requires
        i + 3 <= s@.len(),
    ensures
        r == (s@.subrange(0, i as int) == unix_scheme()),
{
    if i != 4 {
        assert(s@.subrange(0, i as int).len() != unix_scheme().len());
        return false;
    }
    let r = s.get_char(0) == 'u' && s.get_char(1) == 'n' && s.get_char(2) == 'i' && s.get_char(3)
        == 'x';
    if r {
        assert(s@.subrange(0, 4) =~= unix_scheme());
    } else {
        assert(s@.subrange(0, 4) != unix_scheme());
    }
    r
}

impl ListenAddr {
    /// Parse `<scheme>://<value>` into a listen endpoint.
    ///
    /// Fails with [`Error::MissingProtocol`] exactly when the string has
    /// no `://` separator, and with [`Error::UnsupportedProtocol`] when
    /// the scheme before the first separator is neither `tcp` nor `unix`.
    pub fn from_str(s: &str) -> (r: Result<ListenAddr, Error>)
        ensures
            (r == Err::<ListenAddr, Error>(Error::MissingProtocol)) <==> !has_sep(s@),
            forall|i: int| #[trigger] first_sep_at(s@, i) ==> listen_parse_at(s@, i, r),
    {
        match find_sep(s) {
            None => Err(Error::MissingProtocol),
            Some(i) => {
                let n: usize = s.unicode_len();
                let value = String::from_str(s.substring_char(i + 3, n));
                let r = if scheme_is_tcp(s, i) {
                    Ok(ListenAddr::Tcp(value))
                } else if scheme_is_unix(s, i) {
                    Ok(ListenAddr::Unix(value))
                } else {
                    Err(Error::UnsupportedProtocol)
                };
                proof {
                    assert forall|k: int| #[trigger] first_sep_at(s@, k) implies listen_parse_at(
                        s@,
                        k,
                        r,
                    ) by {
                        assert(k == i as int);
                    }
                }
                r
            },
        }
    }

    /// The canonical display form `scheme://value`, used for logging.
    pub fn display(&self) -> (out: String)
        ensures
            out@ == listen_display(*self),
    {
        match self {
            ListenAddr::Tcp(a) => {
                let mut out = String::from_str("tcp://");
                proof {
                    reveal_strlit("tcp://");
                    assert(out@ =~= tcp_prefix());
                }
                out.append(a.as_str());
                out
            },
            ListenAddr::Unix(p) => {
                let mut out = String::from_str("unix://");
                proof {
                    reveal_strlit("unix://");
                    assert(out@ =~= unix_prefix());
                }
                out.append(p.as_str());
                out
            },
        }
    }
}

impl ForwardAddr {
    /// Parse `<scheme>://<value>` into a forward endpoint.
    ///
    /// Fails with [`Error::MissingProtocol`] exactly when the string has
    /// no `://` separator, and with [`Error::UnsupportedProtocol`] when
    /// the scheme before the first separator is neither `tcp` nor `unix`.
    pub fn from_str(s: &str) -> (r: Result<ForwardAddr, Error>)
        ensures
            (r == Err::<ForwardAddr, Error>(Error::MissingProtocol)) <==> !has_sep(s@),
            forall|i: int| #[trigger] first_sep_at(s@, i) ==> forward_parse_at(s@, i, r),
    {
        match find_sep(s) {
            None => Err(Error::MissingProtocol),
            Some(i) => {
                let n: usize = s.unicode_len();
                let value = String::from_str(s.substring_char(i + 3, n));
                let r = if scheme_is_tcp(s, i) {
                    Ok(ForwardAddr::Tcp(value))
                } else if scheme_is_unix(s, i) {
                    Ok(ForwardAddr::Unix(value))
                } else {
                    Err(Error::UnsupportedProtocol)
                };
                proof {
                    assert forall|k: int| #[trigger] first_sep_at(s@, k) implies forward_parse_at(
                        s@,
                        k,
                        r,
                    ) by {
                        assert(k == i as int);
                    }
                }
                r
            },
        }
    }

    /// The canonical display form `scheme://value`, used for logging.
    pub fn display(&self) -> (out: String)
        ensures
            out@ == forward_display(*self),
    {
        match self {
            ForwardAddr::Tcp(a) => {
                let mut out = String::from_str("tcp://");
                proof {
                    reveal_strlit("tcp://");
                    assert(out@ =~= tcp_prefix());
                }
                out.append(a.as_str());
                out
            },
            ForwardAddr::Unix(p) => {
                let mut out = String::from_str("unix://");
                proof {
                    reveal_strlit("unix://");
                    assert(out@ =~= unix_prefix());
                }
                out.append(p.as_str());
                out
            },
        }
    }
}

/// Displaying an endpoint and parsing the display back yields the same
/// variant with the same value: the canonical form loses nothing.
pub proof fn lemma_listen_display_round_trip(
    e: ListenAddr,
    shown: Seq<char>,
    r: Result<ListenAddr, Error>,
)
    requires
        shown == listen_display(e),
        (r == Err::<ListenAddr, Error>(Error::MissingProtocol)) <==> !has_sep(shown),
        forall|i: int| #[trigger] first_sep_at(shown, i) ==> listen_parse_at(shown, i, r),
    ensures
        match e {
            ListenAddr::Tcp(a) => r matches Ok(ListenAddr::Tcp(a2)) && a2@ == a@,
            ListenAddr::Unix(p) => r matches Ok(ListenAddr::Unix(p2)) && p2@ == p@,
        },
{
    match e {
        ListenAddr::Tcp(a) => {
            assert(first_sep_at(shown, 3));
            assert(shown.subrange(0, 3) =~= tcp_scheme());
            assert(shown.subrange(6, shown.len() as int) =~= a@);
        },
        ListenAddr::Unix(p) => {
            assert(first_sep_at(shown, 4));
            assert(shown.subrange(0, 4) =~= unix_scheme());
            assert(shown.subrange(0, 4) != tcp_scheme());
            assert(shown.subrange(7, shown.len() as int) =~= p@);
        },
    }
}

/// The forward-endpoint mirror of [`lemma_listen_display_round_trip`].
pub proof fn lemma_forward_display_round_trip(
    e: ForwardAddr,
    shown: Seq<char>,
    r: Result<ForwardAddr, Error>,
)
    requires
        shown == forward_display(e),
        (r == Err::<ForwardAddr, Error>(Error::MissingProtocol)) <==> !has_sep(shown),
        forall|i: int| #[trigger] first_sep_at(shown, i) ==> forward_parse_at(shown, i, r),
    ensures
        match e {
            ForwardAddr::Tcp(a) => r matches Ok(ForwardAddr::Tcp(a2)) && a2@ == a@,
            ForwardAddr::Unix(p) => r matches Ok(ForwardAddr::Unix(p2)) && p2@ == p@,
        },
{
    match e {
        ForwardAddr::Tcp(a) => {
            assert(first_sep_at(shown, 3));
            assert(shown.subrange(0, 3) =~= tcp_scheme());
            assert(shown.subrange(6, shown.len() as int) =~= a@);
        },
        ForwardAddr::Unix(p) => {
            assert(first_sep_at(shown, 4));
            assert(shown.subrange(0, 4) =~= unix_scheme());
            assert(shown.subrange(0, 4) != tcp_scheme());
            assert(shown.subrange(7, shown.len() as int) =~= p@);
        },
    }
}

} // verus!
