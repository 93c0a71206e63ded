//! A client configuration with a validating builder: a required source URL
//! and optional target URLs.
//!
//! Running the configured operations needs the network and lives with the
//! caller; building and validating the configuration is pure and verified.

use vstd::prelude::*;

use crate::result::{ClientError, Error, ParseError};
use crate::web::{parse_url, url_accepts, url_view_of, WebUrl, WebUrlView};

verus! {

/// The views of a list of URLs.
pub open spec fn urls_view(s: Seq<WebUrl>) -> Seq<WebUrlView> {
    s.map_values(|u: WebUrl| u@)
}

/// Options collected while building a client.
#[derive(Debug)]
pub struct Options {
    source: Option<WebUrl>,
    targets: Option<Vec<WebUrl>>,
}

/// Mathematical image of [`Options`].
pub struct OptionsView {
    pub source: Option<WebUrlView>,
    pub targets: Option<Seq<WebUrlView>>,
}

impl View for Options {
    type V = OptionsView;

    closed spec fn view(&self) -> OptionsView {
        OptionsView {
            source: match self.source {
                Some(u) => Some(u@),
                None => None,
            },
            targets: match self.targets {
                Some(ts) => Some(urls_view(ts@)),
                None => None,
            },
        }
    }
}

/// A client: the source URL to discover from, and the targets to notify.
#[derive(Debug)]
pub struct Client {
    pub source: WebUrl,
    pub targets: Option<Vec<WebUrl>>,
}

/// Mathematical image of [`Client`].
pub struct ClientView {
    pub source: WebUrlView,
    pub targets: Option<Seq<WebUrlView>>,
}

impl View for Client {
    type V = ClientView;

    open spec fn view(&self) -> ClientView {
        ClientView {
            source: self.source@,
            targets: match self.targets {
                Some(ts) => Some(urls_view(ts@)),
                None => None,
            },
        }
    }
}

/// A validating builder for [`Client`].
#[derive(Debug)]
pub struct Builder {
    inner: Result<Options, Error>,
}

impl View for Builder {
    type V = Result<OptionsView, Error>;

    closed spec fn view(&self) -> Result<OptionsView, Error> {
        match &self.inner {
            Ok(o) => Ok(o@),
            Err(e) => Err(*e),
        }
    }
}

/// An empty set of options.
pub open spec fn fresh_options() -> Result<OptionsView, Error> {
    Ok(OptionsView { source: None, targets: None })
}

/// What setting the source does: on a live builder, a parseable URL becomes
/// the source and anything else poisons the builder; a poisoned builder
/// keeps its error.
pub open spec fn builder_source_spec(b: Result<OptionsView, Error>, s: Seq<char>) -> Result<
    OptionsView,
    Error,
> {
    match b {
        Ok(o) => if url_accepts(s) {
            Ok(OptionsView { source: Some(url_view_of(s)), targets: o.targets })
        } else {
            Err(Error::Parse(ParseError::InvalidUrl))
        },
        Err(e) => Err(e),
    }
}

/// What appending a target does: on a live builder, a parseable URL is
/// appended to the targets, starting the list if there was none.
pub open spec fn builder_target_spec(b: Result<OptionsView, Error>, s: Seq<char>) -> Result<
    OptionsView,
    Error,
> {
    match b {
        Ok(o) => if url_accepts(s) {
            Ok(
                OptionsView {
                    source: o.source,
                    targets: Some(
                        (match o.targets {
                            Some(ts) => ts,
                            None => Seq::<WebUrlView>::empty(),
                        }).push(url_view_of(s)),
                    ),
                },
            )
        } else {
            Err(Error::Parse(ParseError::InvalidUrl))
        },
        Err(e) => Err(e),
    }
}

/// What building does: a client needs a source; a poisoned builder keeps
/// its error.
pub open spec fn builder_build_spec(b: Result<OptionsView, Error>) -> Result<ClientView, Error> {
    match b {
        Ok(o) => match o.source {
            Some(s) => Ok(ClientView { source: s, targets: o.targets }),
            None => Err(Error::Client(ClientError::InvalidParam)),
        },
        Err(e) => Err(e),
    }
}

/// The view of a build result.
pub open spec fn client_result_view(r: Result<Client, Error>) -> Result<ClientView, Error> {
    match r {
        Ok(c) => Ok(c@),
        Err(e) => Err(e),
    }
}

impl Default for Builder {
    /// A builder with no options set.
    fn default() -> (r: Self)
        ensures
            r@ == fresh_options(),
    {
        Builder { inner: Ok(Options { source: None, targets: None }) }
    }
}

impl Builder {
    /// Create a new builder, which is used to construct a client.
    pub fn new() -> (r: Self)
        ensures
            r@ == fresh_options(),
    {
        Builder::default()
    }

    /// Set the source URL for the client.
    pub fn source(self, source: &str) -> (r: Self)
        ensures
            r@ == builder_source_spec(self@, source@),
    {
        match self.inner {
            Ok(o) => match parse_url(source) {
                Some(u) => Builder { inner: Ok(Options { source: Some(u), targets: o.targets }) },
                None => Builder { inner: Err(Error::Parse(ParseError::InvalidUrl)) },
            },
            Err(e) => Builder { inner: Err(e) },
        }
    }

    /// Append a target URL to the client.
    pub fn target(self, target: &str) -> (r: Self)
        ensures
            r@ == builder_target_spec(self@, target@),
    {
        match self.inner {
            Ok(o) => match parse_url(target) {
                Some(u) => {
                    let mut ts: Vec<WebUrl> = match o.targets {
                        Some(ts) => ts,
                        None => Vec::new(),
                    };
                    let ghost before = urls_view(ts@);
                    proof {
                        assert(before =~= (match o@.targets {
                            Some(t0) => t0,
                            None => Seq::<WebUrlView>::empty(),
                        }));
                    }
                    ts.push(u);
                    proof {
                        assert(urls_view(ts@) =~= before.push(u@));
                    }
                    Builder { inner: Ok(Options { source: o.source, targets: Some(ts) }) }
                },
                None => Builder { inner: Err(Error::Parse(ParseError::InvalidUrl)) },
            },
            Err(e) => Builder { inner: Err(e) },
        }
    }

    /// Validate the options and instantiate a client; the source is
    /// required.
    pub fn build(self) -> (r: Result<Client, Error>)
        ensures
            client_result_view(r) == builder_build_spec(self@),
    {
        match self.inner {
            Ok(o) => match o.source {
                Some(s) => Ok(Client { source: s, targets: o.targets }),
                None => Err(Error::Client(ClientError::InvalidParam)),
            },
            Err(e) => Err(e),
        }
    }
}

impl Client {
    /// Create a new client via its builder.
    pub fn builder() -> (r: Builder)
        ensures
            r@ == fresh_options(),
    {
        Builder::new()
    }

    /// Create a new client with the source URL preconfigured.
    pub fn source(source: &str) -> (r: Builder)
        ensures
            r@ == builder_source_spec(fresh_options(), source@),
    {
        Builder::new().source(source)
    }
}

} // verus!
