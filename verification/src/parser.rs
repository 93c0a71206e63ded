//! Classify a candidate reference and resolve it against the base URL, and
//! the discovery entry point that sequences the two scanners.
//!
//! Classification: a candidate that parses standalone as a complete URL is
//! `Abs`; otherwise one that parses as a URI reference is `Rel`; anything
//! else is `Unknown` and keeps the base for a last-resort reconstruction.
//! An empty candidate is rejected as an error rather than resolved to the
//! base URL.
//!
//! Resolution: an `Abs` reference is returned unchanged. A `Rel` reference
//! exposing scheme and authority is rebuilt as `scheme://authority` plus
//! its path-and-query, if any; one exposing only a path-and-query is joined
//! with the base URL's origin, writing the port only when it is not the
//! scheme's default (80 for http, 443 for https). An `Unknown` reference is
//! joined with its base's origin the same way, its raw text standing as the
//! path-and-query. Every rebuilt string must parse as a URL to be returned.

use vstd::prelude::*;

use crate::header::{headers_candidate, parse_link_headers};
use crate::markup::{markup_choice, parse_link_tags, rel_links_of};
use crate::result::{Error, ParseError};
use crate::text::{chars_eq, chars_string, dec_str, push_chars, push_dec, str_chars};
use crate::web::{
    parse_uri, parse_url, uri_accepts, uri_view_of, url_accepts, url_view_of, OriginView,
    UriParts, UriPartsView, WebUrl, WebUrlView,
};

verus! {

/// A discovery result: the endpoint URL, or none advertised, or a parse
/// error.
pub type ParserResponse = Result<Option<WebUrl>, Error>;

/// A classified candidate reference.
#[derive(Debug)]
pub enum Refkind {
    /// The candidate is itself a complete URL.
    Abs(WebUrl),
    /// The candidate is a URI reference carrying partial components.
    Rel(UriParts),
    /// The candidate parses as neither; the base is kept for
    /// reconstruction.
    Unknown(WebUrl, String),
}

/// Mathematical image of [`Refkind`].
pub enum RefkindView {
    /// Image of [`Refkind::Abs`].
    Abs(WebUrlView),
    /// Image of [`Refkind::Rel`].
    Rel(UriPartsView),
    /// Image of [`Refkind::Unknown`].
    Unknown(WebUrlView, Seq<char>),
}

impl View for Refkind {
    type V = RefkindView;

    open spec fn view(&self) -> RefkindView {
        match self {
            Refkind::Abs(u) => RefkindView::Abs(u@),
            Refkind::Rel(p) => RefkindView::Rel(p@),
            Refkind::Unknown(b, raw) => RefkindView::Unknown(b@, raw@),
        }
    }
}

/// Classification failure.
#[derive(Debug, Clone, Copy, PartialEq, Eq, Structural)]
pub enum ParseRefError {
    /// The candidate was empty.
    InvalidInput,
}

/// How a candidate is classified against a base URL.
pub open spec fn classify_spec(base: WebUrlView, c: Seq<char>) -> Result<
    RefkindView,
    ParseRefError,
> {
    if c.len() == 0 {
        Err(ParseRefError::InvalidInput)
    } else if url_accepts(c) {
        Ok(RefkindView::Abs(url_view_of(c)))
    } else if uri_accepts(c) {
        Ok(RefkindView::Rel(uri_view_of(c)))
    } else {
        Ok(RefkindView::Unknown(base, c))
    }
}

/// The view of a classification result.
pub open spec fn refkind_result_view(r: Result<Refkind, ParseRefError>) -> Result<
    RefkindView,
    ParseRefError,
> {
    match r {
        Ok(rk) => Ok(rk@),
        Err(e) => Err(e),
    }
}

/// The view of a resolution or discovery result.
pub open spec fn response_view(r: Result<Option<WebUrl>, Error>) -> Result<
    Option<WebUrlView>,
    Error,
> {
    match r {
        Ok(Some(u)) => Ok(Some(u@)),
        Ok(None) => Ok(None),
        Err(e) => Err(e),
    }
}

/// The characters `://`.
pub open spec fn sep_lit() -> Seq<char> {
    seq![':', '/', '/']
}

/// The characters `http`.
pub open spec fn http_lit() -> Seq<char> {
    seq!['h', 't', 't', 'p']
}

/// The characters `https`.
pub open spec fn https_lit() -> Seq<char> {
    seq!['h', 't', 't', 'p', 's']
}

/// Whether an origin's port is the default one of its scheme.
pub open spec fn default_port(o: OriginView) -> bool {
    (o.scheme == http_lit() && o.port == 80) || (o.scheme == https_lit() && o.port == 443)
}

/// The text of an origin: scheme, `://`, host, and the port unless it is
/// the scheme's default.
pub open spec fn origin_text(o: OriginView) -> Seq<char> {
    o.scheme + sep_lit() + o.host + (if default_port(o) {
        Seq::<char>::empty()
    } else {
        seq![':'] + dec_str(o.port as int)
    })
}

/// Validate a rebuilt string: it resolves to the URL it parses as, or fails
/// as an invalid URL.
pub open spec fn wrap_text(t: Seq<char>) -> Result<Option<WebUrlView>, Error> {
    if url_accepts(t) {
        Ok(Some(url_view_of(t)))
    } else {
        Err(Error::Parse(ParseError::InvalidUrl))
    }
}

/// Join a path-and-query with the origin of `u`; a URL without a tuple
/// origin offers no basis, so the reconstruction fails.
pub open spec fn join_origin(u: WebUrlView, pq: Seq<char>) -> Result<Option<WebUrlView>, Error> {
    match u.origin {
        Some(o) => wrap_text(origin_text(o) + pq),
        None => Err(Error::Parse(ParseError::InvalidHeader)),
    }
}

/// How a classified reference resolves against a base URL.
pub open spec fn resolve_spec(base: WebUrlView, rk: RefkindView) -> Result<
    Option<WebUrlView>,
    Error,
> {
    match rk {
        RefkindView::Abs(u) => Ok(Some(u)),
        RefkindView::Rel(p) => if p.scheme is Some && p.authority is Some {
            wrap_text(
                p.scheme.unwrap() + sep_lit() + p.authority.unwrap() + (match p.path_and_query {
                    Some(pq) => pq,
                    None => Seq::<char>::empty(),
                }),
            )
        } else if p.path_and_query is Some {
            join_origin(base, p.path_and_query.unwrap())
        } else {
            Err(Error::Parse(ParseError::InvalidHeader))
        },
        RefkindView::Unknown(b, raw) => join_origin(b, raw),
    }
}

/// How one candidate answers a discovery: classification failure is an
/// invalid value, otherwise the reference resolves.
pub open spec fn respond_spec(base: WebUrlView, c: Seq<char>) -> Result<Option<WebUrlView>, Error> {
    match classify_spec(base, c) {
        Ok(rk) => resolve_spec(base, rk),
        Err(_) => Err(Error::Parse(ParseError::InvalidValue)),
    }
}

/// The whole discovery: the header candidate if there is one, else the
/// markup candidate, else no endpoint; a found candidate must resolve.
pub open spec fn discover_spec(base: WebUrlView, hs: Seq<Seq<char>>, body: Seq<char>) -> Result<
    Option<WebUrlView>,
    Error,
> {
    match headers_candidate(hs) {
        Some(c) => respond_spec(base, c),
        None => match markup_choice(rel_links_of(body)) {
            Some(c) => respond_spec(base, c),
            None => Ok(None),
        },
    }
}

impl Refkind {
    /// Classify a candidate string against the base URL `src`; an empty
    /// candidate is rejected.
    pub fn from_parts(src: &WebUrl, v: &str) -> (r: Result<Refkind, ParseRefError>)
        ensures
            refkind_result_view(r) == classify_spec(src@, v@),
    {
        if v.is_empty() {
            return Err(ParseRefError::InvalidInput);
        }
        match parse_url(v) {
            Some(u) => {
                return Ok(Refkind::Abs(u));
            },
            None => {},
        }
        match parse_uri(v) {
            Some(p) => {
                return Ok(Refkind::Rel(p));
            },
            None => {},
        }
        Ok(Refkind::Unknown(src.clone(), v.to_owned()))
    }

    /// Resolve this reference against the base URL `base`.
    pub fn into_response(&self, base: &WebUrl) -> (r: ParserResponse)
        ensures
            response_view(r) == resolve_spec(base@, self@),
    {
        match self {
            Refkind::Abs(u) => Ok(Some(u.clone())),
            Refkind::Rel(p) => {
                if p.scheme.is_some() && p.authority.is_some() {
                    let mut t: Vec<char> = Vec::new();
                    let sch = str_chars(p.scheme.as_ref().unwrap().as_str());
                    push_chars(&mut t, &sch);
                    t.push(':');
                    t.push('/');
                    t.push('/');
                    let auth = str_chars(p.authority.as_ref().unwrap().as_str());
                    push_chars(&mut t, &auth);
                    match &p.path_and_query {
                        Some(pq) => {
                            let pqc = str_chars(pq.as_str());
                            push_chars(&mut t, &pqc);
                            proof {
                                assert(t@ =~= p@.scheme.unwrap() + sep_lit()
                                    + p@.authority.unwrap() + p@.path_and_query.unwrap());
                            }
                        },
                        None => {
                            proof {
                                assert(t@ =~= p@.scheme.unwrap() + sep_lit()
                                    + p@.authority.unwrap() + Seq::<char>::empty());
                            }
                        },
                    }
                    wrap_candidate(&t)
                } else {
                    match &p.path_and_query {
                        Some(pq) => join_with_origin(base, pq),
                        None => Err(Error::Parse(ParseError::InvalidHeader)),
                    }
                }
            },
            Refkind::Unknown(b, raw) => join_with_origin(b, raw),
        }
    }
}

/// Whether the origin's port is the default for its scheme.
fn is_default_port(o: &crate::web::UrlOrigin) -> (b: bool)
    ensures
        b == default_port(o@),
{
    let sch = str_chars(o.scheme.as_str());
    let http_l: Vec<char> = vec!['h', 't', 't', 'p'];
    let https_l: Vec<char> = vec!['h', 't', 't', 'p', 's'];
    proof {
        assert(http_l@ =~= http_lit());
        assert(https_l@ =~= https_lit());
    }
    (chars_eq(&sch, &http_l) && o.port == 80) || (chars_eq(&sch, &https_l) && o.port == 443)
}

/// Validate a rebuilt candidate string as a URL.
fn wrap_candidate(t: &Vec<char>) -> (r: Result<Option<WebUrl>, Error>)
    ensures
        response_view(r) == wrap_text(t@),
{
    let s = chars_string(t);
    match parse_url(s.as_str()) {
        Some(u) => Ok(Some(u)),
        None => Err(Error::Parse(ParseError::InvalidUrl)),
    }
}

/// Join a path-and-query with the origin of `u` and validate the result.
fn join_with_origin(u: &WebUrl, pq: &String) -> (r: Result<Option<WebUrl>, Error>)
    ensures
        response_view(r) == join_origin(u@, pq@),
{
    match &u.origin {
        Some(o) => {
            let mut t: Vec<char> = Vec::new();
            let sch = str_chars(o.scheme.as_str());
            push_chars(&mut t, &sch);
            t.push(':');
            t.push('/');
            t.push('/');
            let host = str_chars(o.host.as_str());
            push_chars(&mut t, &host);
            if !is_default_port(o) {
                t.push(':');
                push_dec(o.port, &mut t);
            }
            let pqc = str_chars(pq.as_str());
            push_chars(&mut t, &pqc);
            proof {
                assert(t@ =~= origin_text(o@) + pq@);
            }
            wrap_candidate(&t)
        },
        None => Err(Error::Parse(ParseError::InvalidHeader)),
    }
}

/// Classify and resolve one candidate.
fn respond(base: &WebUrl, c: &String) -> (r: Result<Option<WebUrl>, Error>)
    ensures
        response_view(r) == respond_spec(base@, c@),
{
    match Refkind::from_parts(base, c.as_str()) {
        Ok(rk) => rk.into_response(base),
        Err(_) => Err(Error::Parse(ParseError::InvalidValue)),
    }
}

/// LAW: when no header value carries a relation parameter whose lowercase
/// value contains `webmention`, and no selected markup element passes the
/// acceptance stage, discovery returns no endpoint — and that is success,
/// not an error.
pub proof fn lemma_no_relation_no_endpoint(base: WebUrlView, hs: Seq<Seq<char>>, body: Seq<char>)
    requires
        forall|i: int| 0 <= i < hs.len() ==> !crate::header::header_mentions(#[trigger] hs[i]),
        forall|k: int|
            0 <= k < rel_links_of(body).len() ==> !((#[trigger] rel_links_of(body)[k]).0
                == crate::header::wm_lit() && rel_links_of(body)[k].1 is Some),
    ensures
        discover_spec(base, hs, body) == Ok::<Option<WebUrlView>, Error>(None),
{
    assert forall|i: int| 0 <= i < hs.len() implies crate::header::header_candidate(
        #[trigger] hs[i],
    ) is None by {
        crate::header::lemma_no_match_no_candidate(hs[i]);
    }
    crate::header::lemma_headers_all_none(hs);
    crate::markup::lemma_markup_no_accept(rel_links_of(body));
}

/// LAW: an absolute-URL candidate resolves to exactly the URL it parses
/// as; no recombination with the base happens.
pub proof fn lemma_absolute_candidate_round_trip(base: WebUrlView, c: Seq<char>)
    requires
        c.len() > 0,
        url_accepts(c),
    ensures
        classify_spec(base, c) == Ok::<RefkindView, ParseRefError>(
            RefkindView::Abs(url_view_of(c)),
        ),
        respond_spec(base, c) == Ok::<Option<WebUrlView>, Error>(Some(url_view_of(c))),
{
}

/// LAW: a path-only reference is joined with the base URL's origin, and
/// the rebuilt text carries the base's port exactly when that port is not
/// the default of the base's scheme.
pub proof fn lemma_base_port_in_reconstruction(base: WebUrlView, o: OriginView, pq: Seq<char>)
    requires
        base.origin == Some(o),
    ensures
        default_port(o) ==> resolve_spec(
            base,
            RefkindView::Rel(
                (UriPartsView { scheme: None, authority: None, path_and_query: Some(pq) }),
            ),
        ) == wrap_text(o.scheme + sep_lit() + o.host + pq),
        !default_port(o) ==> resolve_spec(
            base,
            RefkindView::Rel(
                (UriPartsView { scheme: None, authority: None, path_and_query: Some(pq) }),
            ),
        ) == wrap_text(o.scheme + sep_lit() + o.host + seq![':'] + dec_str(o.port as int) + pq),
{
    if default_port(o) {
        assert(origin_text(o) + pq =~= o.scheme + sep_lit() + o.host + pq);
    } else {
        assert(origin_text(o) + pq =~= o.scheme + sep_lit() + o.host + seq![':'] + dec_str(
            o.port as int,
        ) + pq);
    }
}

/// LAW: an empty candidate is rejected with a distinct error; it never
/// resolves, and never silently stands for no endpoint.
pub proof fn lemma_empty_candidate_is_error(base: WebUrlView, c: Seq<char>)
    requires
        c.len() == 0,
    ensures
        classify_spec(base, c) == Err::<RefkindView, ParseRefError>(ParseRefError::InvalidInput),
        respond_spec(base, c) == Err::<Option<WebUrlView>, Error>(
            Error::Parse(ParseError::InvalidValue),
        ),
{
}

/// LAW: a discovery whose header scan yields an empty candidate fails with
/// the invalid-value error rather than returning no endpoint.
pub proof fn lemma_empty_header_candidate_fails(base: WebUrlView, hs: Seq<Seq<char>>, body: Seq<char>)
    requires
        headers_candidate(hs) == Some(Seq::<char>::empty()),
    ensures
        discover_spec(base, hs, body) == Err::<Option<WebUrlView>, Error>(
            Error::Parse(ParseError::InvalidValue),
        ),
{
    lemma_empty_candidate_is_error(base, Seq::<char>::empty());
}

/// Discover the Webmention endpoint a fetched resource advertises.
///
/// `url` is the base URL after redirects, `headers` the ordered raw `Link`
/// header values, `body` the response text. The header candidate, if any,
/// is resolved immediately — the body is never consulted as a fallback for
/// a resolution failure. `Ok(None)` means no endpoint is advertised.
pub fn parse(url: &WebUrl, headers: Vec<String>, body: String) -> (r: ParserResponse)
    ensures
        response_view(r) == discover_spec(url@, headers.deep_view(), body@),
{
    let found = match parse_link_headers(headers) {
        Ok(c) => c,
        Err(e) => {
            return Err(e);
        },
    };
    if let Some(c) = found {
        return respond(url, &c);
    }
    let found = match parse_link_tags(body) {
        Ok(c) => c,
        Err(e) => {
            return Err(e);
        },
    };
    if let Some(c) = found {
        return respond(url, &c);
    }
    Ok(None)
}

} // verus!
