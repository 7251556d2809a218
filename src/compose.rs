//! Composing the target URL: a trusted origin joined with an untrusted path
//! and query, kept under the origin's authority.

use vstd::prelude::*;
use crate::envelope::opt_view;
use crate::error::ProxyError;

verus! {

/// The url crate's parsed URL, carried opaquely inside an `Origin`.
#[verifier::external_type_specification]
#[verifier::external_body]
pub struct ExUrl(url::Url);

/// A URL as plain values: its text, scheme, host and port (the scheme's
/// default port where none is written).
#[derive(Debug)]
pub struct UrlInfo {
    pub text: String,
    pub scheme: String,
    pub host: Option<String>,
    pub port: Option<u16>,
}

pub struct UrlView {
    pub text: Seq<char>,
    pub scheme: Seq<char>,
    pub host: Option<Seq<char>>,
    pub port: Option<u16>,
}

impl View for UrlInfo {
    type V = UrlView;

    open spec fn view(&self) -> UrlView {
        UrlView { text: self.text@, scheme: self.scheme@, host: opt_view(self.host), port: self.port }
    }
}

/// Two URLs name the same authority: scheme, host and port agree.
pub open spec fn same_authority(a: UrlView, b: UrlView) -> bool {
    a.scheme == b.scheme && a.host == b.host && a.port == b.port
}

/// What the url crate parses out of an absolute URL text, if it is one.
pub uninterp spec fn url_parse(text: Seq<char>) -> Option<UrlView>;

/// What the url crate resolves a reference to against a base URL given by its text.
pub uninterp spec fn url_join(base: Seq<char>, reference: Seq<char>) -> Option<UrlView>;

/// Why a URL could not be composed.
#[derive(Clone, Copy, Debug, PartialEq, Eq, Structural)]
pub enum ComposeError {
    /// The path and query do not resolve against the origin.
    Unresolvable,
    /// The path and query resolve to another scheme, host or port.
    ForeignAuthority,
}

/// The configured origin that every request is sent under.
pub struct Origin {
    url: url::Url,
    info: UrlInfo,
}

/// Relies on url::Url::parse; the parts are read with scheme, host_str and
/// port_or_known_default, and the text with as_str.
#[verifier::external_body]
fn parse_url(text: &str) -> (r: Option<(url::Url, UrlInfo)>)
    ensures
        match r {
            Some(p) => url_parse(text@) == Some(p.1@),
            None => url_parse(text@) is None,
        },
{
    let u = url::Url::parse(text).ok()?;
    let info = UrlInfo {
        text: u.as_str().to_string(),
        scheme: u.scheme().to_string(),
        host: u.host_str().map(|h| h.to_string()),
        port: u.port_or_known_default(),
    };
    Some((u, info))
}

/// Relies on url::Url::join; the parts are read as in `parse_url`. The base
/// is the origin's own parsed URL, whose text is `origin@.text`.
#[verifier::external_body]
fn join_url(origin: &Origin, reference: &str) -> (r: Option<UrlInfo>)
    ensures
        match r {
            Some(u) => url_join(origin@.text, reference@) == Some(u@),
            None => url_join(origin@.text, reference@) is None,
        },
{
    let u = origin.url.join(reference).ok()?;
    Some(UrlInfo {
        text: u.as_str().to_string(),
        scheme: u.scheme().to_string(),
        host: u.host_str().map(|h| h.to_string()),
        port: u.port_or_known_default(),
    })
}

impl View for Origin {
    type V = UrlView;

    closed spec fn view(&self) -> UrlView {
        self.info@
    }
}

impl Origin {
    /// Parses the origin; fails where the text is not an absolute URL.
    pub fn parse(text: &str) -> (r: Result<Origin, ProxyError>)
        ensures
            match r {
                Ok(o) => url_parse(text@) == Some(o@),
                Err(e) => url_parse(text@) is None && e == ProxyError::Config,
            },
    {
        match parse_url(text) {
            Some((url, info)) => Ok(Origin { url, info }),
            None => Err(ProxyError::Config),
        }
    }

    /// The origin's text.
    pub fn text(&self) -> (r: &str)
        ensures
            r@ == self@.text,
    {
        self.info.text.as_str()
    }
}

fn same_text(a: &Option<String>, b: &Option<String>) -> (r: bool)
    ensures
        r == (opt_view(*a) == opt_view(*b)),
{
    match (a, b) {
        (Some(x), Some(y)) => *x == *y,
        (None, None) => true,
        _ => false,
    }
}

/// Accepts a resolved URL only where it stays under the origin's authority.
pub fn confine(origin: &UrlInfo, joined: Option<UrlInfo>) -> (r: Result<UrlInfo, ComposeError>)
    ensures
        match joined {
            None => r == Err::<UrlInfo, ComposeError>(ComposeError::Unresolvable),
            Some(u) => if same_authority(u@, origin@) {
                r == Ok::<UrlInfo, ComposeError>(u)
            } else {
                r == Err::<UrlInfo, ComposeError>(ComposeError::ForeignAuthority)
            },
        },
{
    match joined {
        None => Err(ComposeError::Unresolvable),
        Some(u) => {
            let same_port = match (u.port, origin.port) {
                (Some(x), Some(y)) => x == y,
                (None, None) => true,
                _ => false,
            };
            if u.scheme == origin.scheme && same_text(&u.host, &origin.host) && same_port {
                Ok(u)
            } else {
                Err(ComposeError::ForeignAuthority)
            }
        },
    }
}

/// Resolves `path_query` against the origin; the result is never under
/// another scheme, host or port than the origin's.
pub fn compose(origin: &Origin, path_query: &str) -> (r: Result<UrlInfo, ComposeError>)
    ensures
        match url_join(origin@.text, path_query@) {
            None => r == Err::<UrlInfo, ComposeError>(ComposeError::Unresolvable),
            Some(u) => if same_authority(u, origin@) {
                r matches Ok(x) && x@ == u
            } else {
                r == Err::<UrlInfo, ComposeError>(ComposeError::ForeignAuthority)
            },
        },
        r matches Ok(x) ==> same_authority(x@, origin@),
{
    confine(&origin.info, join_url(origin, path_query))
}

} // verus!
