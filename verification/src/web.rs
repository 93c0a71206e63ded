//! A model of parsed URLs and URI references as plain values.
//!
//! The `url` and `http` crates do the actual parsing; what the discovery
//! logic reads from their results — the serialized text, the origin triple,
//! the reference components — is captured here as strings and integers, so
//! that everything downstream of the two parse calls is verified.

use vstd::prelude::*;

verus! {

/// Whether `url::Url::parse` accepts `s` as a complete absolute URL.
pub uninterp spec fn url_accepts(s: Seq<char>) -> bool;

/// The serialization (`Url::as_str`) of the URL parsed from `s`.
pub uninterp spec fn url_text(s: Seq<char>) -> Seq<char>;

/// The `(scheme, host, port)` triple of `Url::origin` for the URL parsed
/// from `s`; the port is the explicit one or the scheme's known default.
/// `None` stands for an opaque origin.
pub uninterp spec fn url_origin(s: Seq<char>) -> Option<(Seq<char>, Seq<char>, u16)>;

/// Whether `http::Uri::try_from` accepts `s` as a URI reference.
pub uninterp spec fn uri_accepts(s: Seq<char>) -> bool;

/// The scheme component of the URI reference parsed from `s`.
pub uninterp spec fn uri_scheme(s: Seq<char>) -> Option<Seq<char>>;

/// The authority component of the URI reference parsed from `s`.
pub uninterp spec fn uri_authority(s: Seq<char>) -> Option<Seq<char>>;

/// The path-and-query component of the URI reference parsed from `s`.
pub uninterp spec fn uri_path_query(s: Seq<char>) -> Option<Seq<char>>;

/// The scheme, host and port of a URL whose origin is a tuple.
#[derive(Debug)]
pub struct UrlOrigin {
    pub scheme: String,
    pub host: String,
    pub port: u16,
}

/// Mathematical image of [`UrlOrigin`].
pub struct OriginView {
    pub scheme: Seq<char>,
    pub host: Seq<char>,
    pub port: u16,
}

impl View for UrlOrigin {
    type V = OriginView;

    open spec fn view(&self) -> OriginView {
        OriginView { scheme: self.scheme@, host: self.host@, port: self.port }
    }
}

impl Clone for UrlOrigin {
    fn clone(&self) -> (r: Self)
        ensures
            r@ == self@,
    {
        UrlOrigin { scheme: self.scheme.clone(), host: self.host.clone(), port: self.port }
    }
}

/// An absolute URL: its serialization and, when the origin is not opaque,
/// its origin triple.
#[derive(Debug)]
pub struct WebUrl {
    pub text: String,
    pub origin: Option<UrlOrigin>,
}

/// Mathematical image of [`WebUrl`].
pub struct WebUrlView {
    pub text: Seq<char>,
    pub origin: Option<OriginView>,
}

impl View for WebUrl {
    type V = WebUrlView;

    open spec fn view(&self) -> WebUrlView {
        WebUrlView {
            text: self.text@,
            origin: match self.origin {
                Some(o) => Some(o@),
                None => None,
            },
        }
    }
}

impl Clone for WebUrl {
    fn clone(&self) -> (r: Self)
        ensures
            r@ == self@,
    {
        WebUrl {
            text: self.text.clone(),
            origin: match &self.origin {
                Some(o) => Some(o.clone()),
                None => None,
            },
        }
    }
}

impl WebUrl {
    /// Parse an absolute URL into its model.
    pub fn parse(s: &str) -> (r: Option<WebUrl>)
        ensures
            r is Some <==> url_accepts(s@),
            r matches Some(u) ==> u@ == url_view_of(s@),
    {
        parse_url(s)
    }

    /// The serialized form of the URL.
    pub fn as_str(&self) -> (r: &str)
        ensures
            r@ == self@.text,
    {
        self.text.as_str()
    }
}

/// The components a URI reference exposes: any of scheme, authority and
/// path-and-query may be absent.
#[derive(Debug)]
pub struct UriParts {
    pub scheme: Option<String>,
    pub authority: Option<String>,
    pub path_and_query: Option<String>,
}

/// Mathematical image of [`UriParts`].
pub struct UriPartsView {
    pub scheme: Option<Seq<char>>,
    pub authority: Option<Seq<char>>,
    pub path_and_query: Option<Seq<char>>,
}

pub open spec fn opt_string_view(o: Option<String>) -> Option<Seq<char>> {
    match o {
        Some(s) => Some(s@),
        None => None,
    }
}

impl View for UriParts {
    type V = UriPartsView;

    open spec fn view(&self) -> UriPartsView {
        UriPartsView {
            scheme: opt_string_view(self.scheme),
            authority: opt_string_view(self.authority),
            path_and_query: opt_string_view(self.path_and_query),
        }
    }
}

/// The origin triple of the URL parsed from `s`, as a view structure.
pub open spec fn origin_view_of(s: Seq<char>) -> Option<OriginView> {
    match url_origin(s) {
        Some(t) => Some(OriginView { scheme: t.0, host: t.1, port: t.2 }),
        None => None,
    }
}

/// The model of the URL parsed from `s`.
pub open spec fn url_view_of(s: Seq<char>) -> WebUrlView {
    WebUrlView { text: url_text(s), origin: origin_view_of(s) }
}

/// The model of the URI reference parsed from `s`.
pub open spec fn uri_view_of(s: Seq<char>) -> UriPartsView {
    UriPartsView {
        scheme: uri_scheme(s),
        authority: uri_authority(s),
        path_and_query: uri_path_query(s),
    }
}

/// Relies on `url::Url::parse`, which accepts exactly the strings it can
/// parse as complete absolute URLs; on `Url::as_str`, the parsed URL's
/// serialization; and on
/// `Url::origin`, which yields the scheme/host/port tuple for the special
/// schemes (ftp, http, https, ws, wss) and an opaque origin otherwise, the
/// port being the explicit one or the scheme's default.
#[verifier::external_body]
pub(crate) fn parse_url(s: &str) -> (r: Option<WebUrl>)
    ensures
        r is Some <==> url_accepts(s@),
        r matches Some(u) ==> u@.text == url_text(s@),
        r matches Some(u) ==> u@.origin == (match url_origin(s@) {
            Some(t) => Some((OriginView { scheme: t.0, host: t.1, port: t.2 })),
            None => None,
        }),
{
    let u = match url::Url::parse(s) {
        Ok(u) => u,
        Err(_) => return None,
    };
    let origin = match u.origin() {
        url::Origin::Tuple(scheme, host, port) => Some(
            UrlOrigin { scheme, host: host.to_string(), port },
        ),
        url::Origin::Opaque(_) => None,
    };
    Some(WebUrl { text: u.as_str().to_string(), origin })
}

/// Relies on `http::Uri::try_from`, which accepts exactly the strings it
/// can represent as URI references, and on `Uri::scheme_str`, `Uri::authority` and
/// `Uri::path_and_query`, which expose the components the reference carries.
#[verifier::external_body]
pub(crate) fn parse_uri(s: &str) -> (r: Option<UriParts>)
    ensures
        r is Some <==> uri_accepts(s@),
        r matches Some(p) ==> p@.scheme == uri_scheme(s@),
        r matches Some(p) ==> p@.authority == uri_authority(s@),
        r matches Some(p) ==> p@.path_and_query == uri_path_query(s@),
{
    let u = match http::Uri::try_from(s) {
        Ok(u) => u,
        Err(_) => return None,
    };
    Some(
        UriParts {
            scheme: u.scheme_str().map(|v| v.to_string()),
            authority: u.authority().map(|v| v.as_str().to_string()),
            path_and_query: u.path_and_query().map(|v| v.as_str().to_string()),
        },
    )
}

} // verus!
