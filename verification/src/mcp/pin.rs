//! Pinned HTTP endpoint identities and pin availability for MCP artifacts.

use vstd::prelude::*;

use crate::digest::{hex_encode, hex_lower, sha256, sha256_digest};
use crate::mcp::error::{
    McpError, McpErrorKind, invalid_configuration, pin_mismatch, unavailable,
};
use crate::text::{
    ascii_lower_exec, ascii_lower_seq, chars_of, contains_char, decimal, decimal_exec, find_exec,
    find_first, has_parent_component, is_absolute_path, parse_u16_exec, parse_u16_spec,
    path_has_parent_component, path_is_absolute, push_all, rfind_char, rfind_char_exec, seq_eq,
    slice_chars, str_eq, string_from_chars,
};

verus! {

/// Transport used by a configured MCP server.
#[derive(Clone, Copy, Debug, PartialEq, Eq, Structural)]
pub enum McpTransport {
    Stdio,
    Http,
}

/// Result of verifying one MCP server against its lock pin.
#[derive(Debug, Clone)]
pub struct PinStatus {
    pub server_id: String,
    pub available: bool,
    pub transport: McpTransport,
    pub reason: Option<&'static str>,
}

/// Pinned HTTP endpoint identity.
#[derive(Debug, Clone)]
pub struct HttpIdentity {
    pub scheme: String,
    pub host: String,
    pub port: u16,
    pub path: String,
    pub loopback: bool,
}

/// Abstract identity: scheme, host, port, path and loopback flag.
pub type IdentityModel = (Seq<char>, Seq<char>, u16, Seq<char>, bool);

/// Splits what follows `scheme://` into the authority and the path, where
/// the path keeps its leading `/` and defaults to `/`.
pub open spec fn split_authority(rest: Seq<char>) -> (Seq<char>, Seq<char>) {
    match find_first(rest, seq!['/']) {
        Some(i) => (rest.take(i), rest.skip(i)),
        None => (rest, seq!['/']),
    }
}

/// Hosts that count as the local machine.
pub open spec fn is_loopback_host(host: Seq<char>) -> bool {
    host == "127.0.0.1"@ || host == "localhost"@ || host == "::1"@
}

/// Final checks on a host: non-empty, no space, and cleartext only on loopback.
pub open spec fn finish_identity(scheme: Seq<char>, host: Seq<char>, port: u16, path: Seq<char>) -> Option<
    IdentityModel,
> {
    if host.len() == 0 || host.contains(' ') {
        None
    } else if scheme == "http"@ && !is_loopback_host(host) {
        None
    } else {
        Some((scheme, host, port, path, is_loopback_host(host)))
    }
}

/// The restricted absolute `http(s)` URL grammar accepted for MCP endpoints.
pub open spec fn parse_identity(url: Seq<char>) -> Option<IdentityModel> {
    match find_first(url, "://"@) {
        None => None,
        Some(i) => {
            let scheme = ascii_lower_seq(url.take(i));
            let rest = url.skip(i + 3);
            let authority = split_authority(rest).0;
            let path = split_authority(rest).1;
            if scheme != "http"@ && scheme != "https"@ {
                None
            } else if authority.contains('@') || authority.len() == 0 {
                None
            } else {
                match rfind_char(authority, ':') {
                    Some(j) => match parse_u16_spec(authority.skip(j + 1)) {
                        None => None,
                        Some(port) => finish_identity(
                            scheme,
                            ascii_lower_seq(authority.take(j)),
                            port,
                            path,
                        ),
                    },
                    None => finish_identity(
                        scheme,
                        ascii_lower_seq(authority),
                        if scheme == "https"@ {
                            443
                        } else {
                            80
                        },
                        path,
                    ),
                }
            }
        },
    }
}

/// Lock digest material: `scheme://host:port/path`.
pub open spec fn pin_material_of(m: IdentityModel) -> Seq<char> {
    m.0 + "://"@ + m.1 + ":"@ + decimal(m.2 as nat) + m.3
}

impl HttpIdentity {
    /// The abstract identity held by this value.
    pub open spec fn model(&self) -> IdentityModel {
        (self.scheme@, self.host@, self.port, self.path@, self.loopback)
    }

    /// Parses a restricted absolute HTTP(S) URL.
    ///
    /// # Errors
    ///
    /// Returns `invalid_configuration` when the URL is not absolute
    /// HTTP/HTTPS, carries user information, has an empty host, a bad port,
    /// or uses cleartext HTTP towards a non-loopback host.
    pub fn parse(url: &str) -> (r: Result<Self, McpError>)
        ensures
            match r {
                Ok(id) => parse_identity(url@) == Some(id.model()),
                Err(e) => parse_identity(url@) is None && e.spec_kind()
                    == McpErrorKind::InvalidConfiguration,
            },
    {
        let u = chars_of(url);
        let n = u.len();
        let sep = chars_of("://");
        let i = match find_exec(&u, &sep) {
            Some(i) => i,
            None => return Err(invalid_configuration()),
        };
        assert(i + 3 <= u@.len()) by {
            reveal_strlit("://");
        }
        let scheme = ascii_lower_exec(&slice_chars(&u, 0, i));
        proof {
            assert(u@.subrange(0, i as int) =~= u@.take(i as int));
        }
        let rest = slice_chars(&u, i + 3, n);
        assert(rest@ =~= u@.skip(i + 3));
        let http = chars_of("http");
        let https = chars_of("https");
        let is_http = seq_eq(&scheme, &http);
        let is_https = seq_eq(&scheme, &https);
        if !is_http && !is_https {
            return Err(invalid_configuration());
        }
        let slash = chars_of("/");
        proof {
            reveal_strlit("/");
            assert(slash@ =~= seq!['/']);
        }
        let (authority, path) = match find_exec(&rest, &slash) {
            Some(k) => {
                let a = slice_chars(&rest, 0, k);
                let p = slice_chars(&rest, k, rest.len());
                assert(a@ =~= rest@.take(k as int));
                assert(p@ =~= rest@.skip(k as int));
                (a, p)
            },
            None => (rest.clone(), slash),
        };
        assert(authority@ == split_authority(rest@).0);
        assert(path@ == split_authority(rest@).1);
        if contains_char(&authority, '@') || authority.len() == 0 {
            return Err(invalid_configuration());
        }
        let (host, port) = match rfind_char_exec(&authority, ':') {
            Some(j) => {
                let digits = slice_chars(&authority, j + 1, authority.len());
                assert(digits@ =~= authority@.skip(j + 1));
                let port = match parse_u16_exec(&digits) {
                    Some(p) => p,
                    None => return Err(invalid_configuration()),
                };
                let h = slice_chars(&authority, 0, j);
                assert(h@ =~= authority@.take(j as int));
                (ascii_lower_exec(&h), port)
            },
            None => {
                let port: u16 = if is_https {
                    443
                } else {
                    80
                };
                (ascii_lower_exec(&authority), port)
            },
        };
        if host.len() == 0 || contains_char(&host, ' ') {
            return Err(invalid_configuration());
        }
        let loopback = seq_eq(&host, &chars_of("127.0.0.1")) || seq_eq(&host, &chars_of("localhost"))
            || seq_eq(&host, &chars_of("::1"));
        if is_http && !loopback {
            return Err(invalid_configuration());
        }
        let id = Self {
            scheme: string_from_chars(&scheme),
            host: string_from_chars(&host),
            port,
            path: string_from_chars(&path),
            loopback,
        };
        Ok(id)
    }

    /// The digest material that a lock pins for this endpoint.
    #[must_use]
    pub fn pin_material(&self) -> (r: String)
        ensures
            r@ == pin_material_of(self.model()),
    {
        let mut v = chars_of(self.scheme.as_str());
        push_all(&mut v, &chars_of("://"));
        push_all(&mut v, &chars_of(self.host.as_str()));
        push_all(&mut v, &chars_of(":"));
        push_all(&mut v, &decimal_exec(self.port as u64));
        push_all(&mut v, &chars_of(self.path.as_str()));
        string_from_chars(&v)
    }

    /// Production non-loopback endpoints require TLS; loopback may use HTTP.
    #[must_use]
    pub fn allows_connection(&self) -> (r: bool)
        ensures
            r == (self.scheme@ == "https"@ || self.loopback),
    {
        str_eq(self.scheme.as_str(), "https") || self.loopback
    }

    /// A redirect target is accepted only when it parses and keeps the
    /// pinned scheme, host and port.
    #[must_use]
    pub fn matches_redirect(&self, location: &str) -> (r: bool)
        ensures
            r == (match parse_identity(location@) {
                Some(other) => other.0 == self.scheme@ && other.1 == self.host@ && other.2
                    == self.port,
                None => false,
            }),
    {
        match Self::parse(location) {
            Ok(other) => str_eq(other.scheme.as_str(), self.scheme.as_str()) && str_eq(
                other.host.as_str(),
                self.host.as_str(),
            ) && other.port == self.port,
            Err(_) => false,
        }
    }
}

/// Computes the lock digest for an HTTP MCP URL: the lowercase hex SHA-256
/// of the UTF-8 pin material.
///
/// # Errors
///
/// Returns when the URL is not an absolute `http(s)` endpoint.
pub fn http_endpoint_sha256(url: &str) -> (r: Result<String, McpError>)
    ensures
        match r {
            Ok(d) => match parse_identity(url@) {
                Some(m) => d@ == hex_lower(
                    sha256_digest(vstd::utf8::encode_utf8(pin_material_of(m))),
                ),
                None => false,
            },
            Err(e) => parse_identity(url@) is None && e.spec_kind()
                == McpErrorKind::InvalidConfiguration,
        },
{
    let identity = HttpIdentity::parse(url)?;
    let material = identity.pin_material();
    let digest = sha256(material.as_str().as_bytes());
    Ok(hex_encode(digest.as_slice()))
}

/// Ensures a pin status is available or maps to a stable gateway error.
///
/// # Errors
///
/// Returns pin mismatch when the reason says so, and unavailable otherwise.
pub fn require_available(status: &PinStatus) -> (r: Result<(), McpError>)
    ensures
        status.available ==> r is Ok,
        !status.available ==> (r matches Err(e) && e.spec_kind() == (if status.reason matches Some(
            reason,
        ) && reason@ == "pin mismatch"@ {
            McpErrorKind::PinMismatch
        } else {
            McpErrorKind::Unavailable
        })),
{
    if status.available {
        Ok(())
    } else {
        let mismatch = match status.reason {
            Some(reason) => str_eq(reason, "pin mismatch"),
            None => false,
        };
        if mismatch {
            Err(pin_mismatch())
        } else {
            Err(unavailable())
        }
    }
}

/// Every identity that parses may be connected to: cleartext HTTP is only
/// accepted for loopback hosts.
pub proof fn parsed_identity_allows_connection(url: Seq<char>)
    requires
        parse_identity(url) is Some,
    ensures
        parse_identity(url) matches Some(m) && (m.0 == "https"@ || m.4),
{
}


proof fn lemma_lower_is_lower(s: Seq<char>)
    ensures
        ascii_lower_seq(ascii_lower_seq(s)) == ascii_lower_seq(s),
{
    assert(ascii_lower_seq(ascii_lower_seq(s)) =~= ascii_lower_seq(s));
}

/// What every parsed identity is: an `http` or `https` scheme, a non-empty
/// lowercase host without spaces, a path that starts with `/`, a loopback
/// flag that says whether the host is the local machine, and cleartext only
/// towards it; a URL without `://` never parses.
pub proof fn parsed_identities_are_well_formed(url: Seq<char>)
    ensures
        find_first(url, "://"@) is None ==> parse_identity(url) is None,
        find_first(url, "://"@) matches Some(i) ==> ({
            let scheme = ascii_lower_seq(url.take(i));
            let authority = split_authority(url.skip(i + 3)).0;
            &&& scheme != "http"@ && scheme != "https"@ ==> parse_identity(url) is None
            &&& authority.contains('@') || authority.len() == 0 ==> parse_identity(url) is None
            &&& (match rfind_char(authority, ':') {
                Some(j) => parse_u16_spec(authority.skip(j + 1)) is None,
                None => false,
            }) ==> parse_identity(url) is None
            &&& parse_identity(url) matches Some(m) ==> m.0 == scheme
        }),
        parse_identity(url) matches Some(m) ==> {
            &&& (m.0 == "http"@ || m.0 == "https"@)
            &&& m.1.len() > 0
            &&& !m.1.contains(' ')
            &&& ascii_lower_seq(m.1) == m.1
            &&& m.3.len() > 0 && m.3[0] == '/'
            &&& m.4 == is_loopback_host(m.1)
            &&& (m.0 == "https"@ || m.4)
        },
{
    if let Some(i) = find_first(url, "://"@) {
        let rest = url.skip(i + 3);
        crate::text::lemma_find_from(rest, seq!['/'], 0);
        if let Some(k) = find_first(rest, seq!['/']) {
            assert(rest.subrange(k, k + 1) == seq!['/']);
            assert(rest.skip(k)[0] == rest.subrange(k, k + 1)[0]);
        }
        let authority = split_authority(rest).0;
        match rfind_char(authority, ':') {
            Some(j) => lemma_lower_is_lower(authority.take(j)),
            None => lemma_lower_is_lower(authority),
        }
    }
}

/// The authority of a URL: what follows `scheme://`, up to the path.
pub open spec fn url_authority(url: Seq<char>, i: int) -> Seq<char> {
    split_authority(url.skip(i + 3)).0
}

/// A port written after the authority's last `:` is the identity's port,
/// whatever the scheme; the scheme's default (443 for https, 80 for http)
/// applies only when no port is written. The pin material then names that
/// port.
pub proof fn written_port_is_kept(url: Seq<char>, i: int, j: int, p: u16)
    requires
        find_first(url, "://"@) == Some(i),
        rfind_char(url_authority(url, i), ':') == Some(j),
        url_authority(url, i).skip(j + 1) == decimal(p as nat),
    ensures
        parse_identity(url) matches Some(m) ==> m.2 == p && pin_material_of(m) == m.0 + "://"@
            + m.1 + ":"@ + decimal(p as nat) + m.3,
{
    crate::text::lemma_parse_decimal(p);
}

/// Without a written port, the identity takes its scheme's default port.
pub proof fn default_port_applies_only_when_none_is_written(url: Seq<char>, i: int)
    requires
        find_first(url, "://"@) == Some(i),
        rfind_char(url_authority(url, i), ':') is None,
    ensures
        parse_identity(url) matches Some(m) ==> m.2 == (if m.0 == "https"@ {
            443u16
        } else {
            80u16
        }),
{
}

/// Checks the shape of a configured MCP executable path before the file
/// system is consulted: it must be absolute and name no parent directory.
///
/// # Errors
///
/// The unsafe-source reason otherwise.
pub fn check_mcp_executable_path(path: &str) -> (r: Result<(), &'static str>)
    ensures
        is_absolute_path(path@) && !has_parent_component(path@) ==> r is Ok,
        !(is_absolute_path(path@) && !has_parent_component(path@)) ==> (r matches Err(m) && m@
            == "MCP executable must be an absolute path without parent traversal"@),
{
    let v = chars_of(path);
    if !path_is_absolute(&v) || path_has_parent_component(&v) {
        return Err("MCP executable must be an absolute path without parent traversal");
    }
    Ok(())
}

} // verus!
