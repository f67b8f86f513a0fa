//! The guard that every download URL passes before a request is made: only
//! `http` and `https`, a bounded length, and no host that names this machine
//! or a private network.

use crate::text::{chars_of, has_prefix, lowercase_of, same_chars, to_lowercase};
use vstd::prelude::*;

verus! {

/// The longest URL that is accepted, in characters.
pub const MAX_URL_LENGTH: usize = 2048;

/// Why a URL was refused.
#[derive(Clone, Copy, Debug, PartialEq, Eq, Structural)]
pub enum UrlError {
    /// More than `MAX_URL_LENGTH` characters.
    TooLong,
    /// The text is not a URL.
    Malformed,
    /// The scheme is neither `http` nor `https`.
    BadScheme,
    /// The URL has no host.
    NoHost,
    /// The host names this machine.
    Localhost,
    /// The host is a literal address of a loopback, private or link-local net.
    PrivateAddress,
}

/// The kind of host that a parsed URL carries.
#[derive(Clone, Copy, Debug, PartialEq, Eq)]
pub enum HostKind {
    /// No host at all.
    Missing,
    /// A domain name.
    Domain,
    /// A literal IPv4 address, by its four octets.
    V4([u8; 4]),
    /// A literal IPv6 address, by its eight segments.
    V6([u16; 8]),
}

/// What the guard reads of a parsed URL.
pub struct UrlParts {
    /// The scheme, lowercase, without the colon.
    pub scheme: String,
    /// The host as it is written in the normalized URL, if there is one.
    pub host_text: Option<String>,
    /// The kind of host.
    pub host: HostKind,
}

/// The mathematical content of `UrlParts`.
pub struct UrlPartsView {
    pub scheme: Seq<char>,
    pub host_text: Option<Seq<char>>,
    pub host: HostKind,
}

impl View for UrlParts {
    type V = UrlPartsView;

    open spec fn view(&self) -> UrlPartsView {
        UrlPartsView {
            scheme: self.scheme@,
            host_text: match self.host_text {
                Some(h) => Some(h@),
                None => None,
            },
            host: self.host,
        }
    }
}

/// What `url::Url::parse` makes of the text `s`, as far as the guard reads
/// it: `None` where parsing fails, else the scheme (`Url::scheme`), the
/// host text (`Url::host_str`) and the kind of host (`Url::host`).
pub uninterp spec fn parsed_url(s: Seq<char>) -> Option<UrlPartsView>;

/// Parses `s` with `url::Url::parse` and copies out the scheme, the host
/// text and the kind of host with its address. The contract only names the
/// result: it is a function of the text alone.
#[verifier::external_body]
pub(crate) fn parse_url_parts(s: &str) -> (r: Option<UrlParts>)
    ensures
        match r {
            Some(p) => parsed_url(s@) == Some(p@),
            None => parsed_url(s@) is None,
        },
{
    let u = url::Url::parse(s).ok()?;
    let host = match u.host() {
        None => HostKind::Missing,
        Some(url::Host::Domain(_)) => HostKind::Domain,
        Some(url::Host::Ipv4(a)) => HostKind::V4(a.octets()),
        Some(url::Host::Ipv6(a)) => HostKind::V6(a.segments()),
    };
    Some(UrlParts { scheme: u.scheme().to_string(), host_text: u.host_str().map(String::from), host })
}

/// A lowercase host text that names this machine.
pub open spec fn localhost_text(h: Seq<char>) -> bool {
    h == "localhost"@ || h == "127.0.0.1"@ || h == "::1"@ || h == "0.0.0.0"@ || h == "[::1]"@ || h
        == "[::]"@ || crate::text::starts_with(h, "127."@)
}

/// An IPv4 address of a loopback, private or link-local net: `127/8`,
/// `10/8`, `172.16/12`, `192.168/16`, `169.254/16`.
pub open spec fn private_v4(a: u8, b: u8) -> bool {
    a == 10 || (a == 172 && 16 <= b && b <= 31) || (a == 192 && b == 168) || (a == 169 && b
        == 254) || a == 127
}

/// An IPv6 address that is `::1`, in `fc00::/7` or `fe80::/10`, or an
/// IPv4-mapped address (`::ffff:a.b.c.d`) whose IPv4 part is private.
pub open spec fn private_v6(
    s0: u16,
    s1: u16,
    s2: u16,
    s3: u16,
    s4: u16,
    s5: u16,
    s6: u16,
    s7: u16,
) -> bool {
    (s0 == 0 && s1 == 0 && s2 == 0 && s3 == 0 && s4 == 0 && s5 == 0 && s6 == 0 && s7 == 1) || (s0
        & 0xfe00) == 0xfc00 || (s0 & 0xffc0) == 0xfe80 || (s0 == 0 && s1 == 0 && s2 == 0 && s3 == 0
        && s4 == 0 && s5 == 0xffff && private_v4((s6 >> 8) as u8, (s6 & 0xff) as u8))
}

/// A host that is a literal address in the refused set.
pub open spec fn private_host(h: HostKind) -> bool {
    match h {
        HostKind::V4(o) => private_v4(o[0], o[1]),
        HostKind::V6(g) => private_v6(g[0], g[1], g[2], g[3], g[4], g[5], g[6], g[7]),
        _ => false,
    }
}

/// The verdict on a URL of `len` characters that parsed to `parts`: the
/// first of the six refusals that applies, else acceptance.
pub open spec fn url_verdict(len: nat, parts: Option<UrlPartsView>) -> Result<(), UrlError> {
    if len > MAX_URL_LENGTH {
        Err(UrlError::TooLong)
    } else {
        match parts {
            None => Err(UrlError::Malformed),
            Some(p) => if p.scheme != "http"@ && p.scheme != "https"@ {
                Err(UrlError::BadScheme)
            } else {
                match p.host_text {
                    None => Err(UrlError::NoHost),
                    Some(h) => if localhost_text(lowercase_of(h)) {
                        Err(UrlError::Localhost)
                    } else if private_host(p.host) {
                        Err(UrlError::PrivateAddress)
                    } else {
                        Ok(())
                    },
                }
            },
        }
    }
}

/// Whether a host text that is already lowercase names this machine:
/// `localhost`, `127.0.0.1`, `::1`, `0.0.0.0`, `[::1]`, `[::]`, or anything
/// that starts with `127.`.
pub fn is_localhost_lowered(host: &str) -> (b: bool)
    ensures
        b == localhost_text(host@),
{
    let h = chars_of(host);
    same_chars(&h, &chars_of("localhost")) || same_chars(&h, &chars_of("127.0.0.1")) || same_chars(
        &h,
        &chars_of("::1"),
    ) || same_chars(&h, &chars_of("0.0.0.0")) || same_chars(&h, &chars_of("[::1]")) || same_chars(
        &h,
        &chars_of("[::]"),
    ) || has_prefix(&h, &chars_of("127."))
}

/// Whether a host text names this machine, whatever its letter case.
pub fn is_localhost(host: &str) -> (b: bool)
    ensures
        b == localhost_text(lowercase_of(host@)),
{
    let lowered = to_lowercase(host);
    is_localhost_lowered(lowered.as_str())
}

/// Whether the IPv4 address `a.b.c.d` is loopback, private or link-local.
pub fn is_private_ipv4(a: u8, b: u8, c: u8, d: u8) -> (r: bool)
    ensures
        r == private_v4(a, b),
{
    a == 10 || (a == 172 && b >= 16 && b <= 31) || (a == 192 && b == 168) || (a == 169 && b == 254)
        || a == 127
}

/// Whether the IPv6 address with these segments is loopback, unique-local,
/// link-local, or an IPv4-mapped private address.
pub fn is_private_ipv6(
    s0: u16,
    s1: u16,
    s2: u16,
    s3: u16,
    s4: u16,
    s5: u16,
    s6: u16,
    s7: u16,
) -> (r: bool)
    ensures
        r == private_v6(s0, s1, s2, s3, s4, s5, s6, s7),
{
    if s0 == 0 && s1 == 0 && s2 == 0 && s3 == 0 && s4 == 0 && s5 == 0 && s6 == 0 && s7 == 1 {
        return true;
    }
    if (s0 & 0xfe00) == 0xfc00 {
        return true;
    }
    if (s0 & 0xffc0) == 0xfe80 {
        return true;
    }
    if s0 == 0 && s1 == 0 && s2 == 0 && s3 == 0 && s4 == 0 && s5 == 0xffff {
        return is_private_ipv4(
            (s6 >> 8) as u8,
            (s6 & 0xff) as u8,
            (s7 >> 8) as u8,
            (s7 & 0xff) as u8,
        );
    }
    false
}

/// Whether a host is a literal address in the refused set.
pub fn is_private_ip(host: HostKind) -> (r: bool)
    ensures
        r == private_host(host),
{
    match host {
        HostKind::V4(o) => is_private_ipv4(o[0], o[1], o[2], o[3]),
        HostKind::V6(g) => is_private_ipv6(g[0], g[1], g[2], g[3], g[4], g[5], g[6], g[7]),
        _ => false,
    }
}

/// Judges a URL of `len` characters from what parsing made of it.
pub fn check_url_parts(len: usize, parts: &Option<UrlParts>) -> (r: Result<(), UrlError>)
    ensures
        r == url_verdict(
            len as nat,
            match *parts {
                Some(p) => Some(p@),
                None => None,
            },
        ),
{
    if len > MAX_URL_LENGTH {
        return Err(UrlError::TooLong);
    }
    match parts {
        None => Err(UrlError::Malformed),
        Some(p) => {
            let scheme = chars_of(p.scheme.as_str());
            if !same_chars(&scheme, &chars_of("http")) && !same_chars(&scheme, &chars_of("https")) {
                return Err(UrlError::BadScheme);
            }
            match &p.host_text {
                None => Err(UrlError::NoHost),
                Some(h) => {
                    if is_localhost(h.as_str()) {
                        Err(UrlError::Localhost)
                    } else if is_private_ip(p.host) {
                        Err(UrlError::PrivateAddress)
                    } else {
                        Ok(())
                    }
                },
            }
        },
    }
}

/// Validates a download URL: at most 2048 characters, a well-formed URL,
/// scheme `http` or `https`, a host, and that host neither this machine nor
/// a literal loopback, private or link-local address.
pub fn validate_url(url: &str) -> (r: Result<(), UrlError>)
    ensures
        r == url_verdict(url@.len(), parsed_url(url@)),
{
    let len = chars_of(url).len();
    if len > MAX_URL_LENGTH {
        return Err(UrlError::TooLong);
    }
    let parts = parse_url_parts(url);
    check_url_parts(len, &parts)
}

/// A URL whose scheme is neither `http` nor `https` is refused.
pub proof fn lemma_other_schemes_fail(len: nat, p: UrlPartsView)
    requires
        p.scheme != "http"@,
        p.scheme != "https"@,
    ensures
        url_verdict(len, Some(p)) is Err,
{
}

/// A URL whose host is a literal address in a loopback, private or
/// link-local net is refused: `127/8`, `10/8`, `172.16/12`, `192.168/16`,
/// `169.254/16`, `::1`, `fc00::/7`, `fe80::/10`, and the IPv4-mapped forms
/// of the IPv4 nets.
pub proof fn lemma_private_hosts_fail(len: nat, p: UrlPartsView)
    requires
        private_host(p.host),
    ensures
        url_verdict(len, Some(p)) is Err,
{
}

} // verus!
