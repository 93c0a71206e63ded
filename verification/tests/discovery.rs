use webmention::client::Client;
use webmention::header::{parse_link_header, parse_link_headers};
use webmention::markup::{parse_link_tags, select_markup_candidate, MarkupLink};
use webmention::parser::{parse, Refkind};
use webmention::result::{Error, ParseError};
use webmention::web::WebUrl;

fn base(s: &str) -> WebUrl {
    WebUrl::parse(s).unwrap()
}

// Classification of a candidate that is itself a complete URL.
#[test]
fn refkind_from_valid_url() {
    let src = base("https://webmention.rocks");
    let rel = Refkind::from_parts(&src, "https://webmention.rocks").unwrap();
    let inner = match rel {
        Refkind::Abs(u) => u.as_str().to_string(),
        _ => panic!("expected an absolute reference"),
    };
    assert_eq!(inner, src.as_str().to_string());
}

// Classification of a candidate that is only a URI reference.
#[test]
fn refkind_from_invalid_url() {
    let src = base("https://webmention.rocks");
    let rel = Refkind::from_parts(&src, "/test/1?query=true").unwrap();
    let inner = match rel {
        Refkind::Rel(parts) => parts.path_and_query.unwrap(),
        _ => panic!("expected a relative reference"),
    };
    assert_eq!(inner, "/test/1?query=true".to_string());
}

// An empty candidate is rejected at classification.
#[test]
fn refkind_from_invalid_ref() {
    let src = base("https://webmention.rocks");
    let rel = Refkind::from_parts(&src, "");
    assert!(rel.is_err());
}

// The builder normalizes the source URL and keeps the targets.
#[test]
fn mod_build_client() {
    let c = Client::builder()
        .source("https://webmention.rocks")
        .target("https://webmention.rocks/update/1")
        .build()
        .unwrap();

    assert_eq!(c.source.as_str().to_string(), "https://webmention.rocks/".to_string());
    assert_eq!(
        c.targets.unwrap()[0].as_str().to_string(),
        "https://webmention.rocks/update/1".to_string()
    );
}

// Query strings survive building.
#[test]
fn build_client_with_query() {
    let c = Client::builder()
        .source("https://webmention.rocks?query=yes")
        .target("https://webmention.rocks/update/1?query=yes")
        .build()
        .unwrap();

    assert_eq!(
        c.source.as_str().to_string(),
        "https://webmention.rocks/?query=yes".to_string()
    );
    assert_eq!(
        c.targets.unwrap()[0].as_str().to_string(),
        "https://webmention.rocks/update/1?query=yes".to_string()
    );
}

// A client without a source does not build.
#[test]
fn build_invalid_client() {
    let c = Client::builder().build();
    assert_eq!(c.is_err(), true);
}

// A source that is not a URL poisons the builder.
#[test]
fn build_client_bad_source() {
    let c = Client::builder().source("not a url").build();
    assert!(matches!(c, Err(Error::Parse(ParseError::InvalidUrl))));
}

// Scenario: an absolute candidate in a header resolves to itself.
#[test]
fn discovery_header_absolute() {
    let b = base("https://example.org/a");
    let headers = vec!["<https://example.org/a/endpoint>; rel=\"webmention\"".to_string()];
    let res = parse(&b, headers, String::new()).unwrap().unwrap();
    assert_eq!(res.as_str(), "https://example.org/a/endpoint");
}

// Scenario: with no headers, a relative markup candidate is joined with
// the base origin.
#[test]
fn discovery_markup_relative() {
    let b = base("https://example.org/a");
    let body = "<html><head><link rel=\"webmention\" href=\"/a/endpoint\"></head></html>";
    let res = parse(&b, Vec::new(), body.to_string()).unwrap().unwrap();
    assert_eq!(res.as_str(), "https://example.org/a/endpoint");
}

// Scenario: the header path matches by substring, so a multi-token
// relation value still yields the candidate.
#[test]
fn discovery_header_substring_rel() {
    let b = base("https://example.org/a");
    let headers = vec!["<https://example.org/a/endpoint>; rel=\"webmention important\"".to_string()];
    let res = parse(&b, headers, String::new()).unwrap().unwrap();
    assert_eq!(res.as_str(), "https://example.org/a/endpoint");
}

// Scenario: an absolute candidate bypasses recombination with the base,
// query string and all.
#[test]
fn discovery_absolute_bypasses_base() {
    let b = base("https://example.org/a?x=1");
    let headers = vec!["<https://example.org/b/endpoint?query=yes>; rel=\"webmention\"".to_string()];
    let res = parse(&b, headers, String::new()).unwrap().unwrap();
    assert_eq!(res.as_str(), "https://example.org/b/endpoint?query=yes");
}

// Scenario: when header and body both advertise endpoints, the header
// wins and the body is never consulted.
#[test]
fn discovery_header_beats_markup() {
    let b = base("https://example.org/a");
    let headers = vec!["</h-endpoint>; rel=\"webmention\"".to_string()];
    let body = "<link rel=\"webmention\" href=\"/b-endpoint\">";
    let res = parse(&b, headers, body.to_string()).unwrap().unwrap();
    assert_eq!(res.as_str(), "https://example.org/h-endpoint");
}

// Scenario: a malformed header (rel with no value) yields no candidate
// from that header; later headers are still scanned.
#[test]
fn discovery_malformed_header_continues() {
    let b = base("https://example.org/a");
    let headers = vec![
        "<https://example.org/bad>; rel".to_string(),
        "<https://example.org/a/endpoint>; rel=\"webmention\"".to_string(),
    ];
    let res = parse(&b, headers, String::new()).unwrap().unwrap();
    assert_eq!(res.as_str(), "https://example.org/a/endpoint");
}

// Scenario: a malformed header falls through to the markup scan.
#[test]
fn discovery_malformed_header_falls_through() {
    let b = base("https://example.org/a");
    let headers = vec!["<https://example.org/bad>; rel".to_string()];
    let body = "<link rel=\"webmention\" href=\"/a/endpoint\">";
    let res = parse(&b, headers, body.to_string()).unwrap().unwrap();
    assert_eq!(res.as_str(), "https://example.org/a/endpoint");
}

// With no webmention relation anywhere, discovery succeeds with nothing.
#[test]
fn discovery_nothing_advertised() {
    let b = base("https://example.org/a");
    let headers = vec!["<https://example.org/style.css>; rel=\"stylesheet\"".to_string()];
    let body = "<html><body><a href=\"/x\">x</a></body></html>";
    let res = parse(&b, headers, body.to_string()).unwrap();
    assert!(res.is_none());
}

// When several header values match, the last one decides.
#[test]
fn discovery_last_header_wins() {
    let b = base("https://example.org/a");
    let headers = vec![
        "<https://example.org/first>; rel=\"webmention\"".to_string(),
        "<https://example.org/second>; rel=\"webmention\"".to_string(),
    ];
    let res = parse(&b, headers, String::new()).unwrap().unwrap();
    assert_eq!(res.as_str(), "https://example.org/second");
}

// Within one header value, the first matching entry decides.
#[test]
fn header_first_entry_wins() {
    let header = "<https://example.org/one>; rel=\"webmention\", <https://example.org/two>; rel=\"webmention\"".to_string();
    let res = parse_link_header(&header).unwrap().unwrap();
    assert_eq!(res, "https://example.org/one");
}

// A malformed entry before any match aborts the whole header value.
#[test]
fn header_abort_before_match() {
    let header = "<https://example.org/one>; rel, <https://example.org/two>; rel=\"webmention\"".to_string();
    let res = parse_link_header(&header).unwrap();
    assert!(res.is_none());
}

// The relation value is matched case-insensitively on the header path.
#[test]
fn header_rel_value_case_insensitive() {
    let headers = vec!["<https://example.org/a/endpoint>; rel=\"WebMention\"".to_string()];
    let res = parse_link_headers(headers).unwrap().unwrap();
    assert_eq!(res, "https://example.org/a/endpoint");
}

// A rel parameter standing after other parameters still matches.
#[test]
fn header_rel_after_other_params() {
    let headers =
        vec!["<https://example.org/a/endpoint>; title=\"x\"; rel=\"webmention\"".to_string()];
    let res = parse_link_headers(headers).unwrap().unwrap();
    assert_eq!(res, "https://example.org/a/endpoint");
}

// The markup acceptance stage requires an exact rel: a multi-valued
// attribute passes selection but fails acceptance.
#[test]
fn markup_exact_match_required() {
    let body = "<link rel=\"webmention someother\" href=\"/x\"><link rel=\"webmention\" href=\"/y\">";
    let res = parse_link_tags(body.to_string()).unwrap().unwrap();
    assert_eq!(res, "/y");
}

// A body with only multi-valued rel attributes yields no candidate.
#[test]
fn markup_multivalued_only_is_none() {
    let body = "<link rel=\"webmention someother\" href=\"/x\">";
    let res = parse_link_tags(body.to_string()).unwrap();
    assert!(res.is_none());
}

// An element without href is passed over in favor of a later complete one.
#[test]
fn markup_missing_href_skipped() {
    let body = "<a rel=\"webmention\"></a><a rel=\"webmention\" href=\"/z\">z</a>";
    let res = parse_link_tags(body.to_string()).unwrap().unwrap();
    assert_eq!(res, "/z");
}

// The acceptance stage, on already-extracted elements.
#[test]
fn markup_selection_order() {
    let links = vec![
        MarkupLink { rel: "webmention x".to_string(), href: Some("/a".to_string()) },
        MarkupLink { rel: "webmention".to_string(), href: None },
        MarkupLink { rel: "webmention".to_string(), href: Some("/b".to_string()) },
    ];
    let res = select_markup_candidate(&links).unwrap();
    assert_eq!(res, "/b");
}

// An empty candidate fails with the distinct invalid-value error.
#[test]
fn discovery_empty_candidate_is_error() {
    let b = base("https://example.org/a");
    let body = "<link rel=\"webmention\" href=\"\">";
    let res = parse(&b, Vec::new(), body.to_string());
    assert!(matches!(res, Err(Error::Parse(ParseError::InvalidValue))));
}

// A base with a non-default port keeps the port in the resolved URL.
#[test]
fn discovery_keeps_explicit_port() {
    let b = base("https://example.org:8080/a");
    let body = "<link rel=\"webmention\" href=\"/ep\">";
    let res = parse(&b, Vec::new(), body.to_string()).unwrap().unwrap();
    assert_eq!(res.as_str(), "https://example.org:8080/ep");
}

// A default port (80 for http) is omitted from the resolved URL.
#[test]
fn discovery_omits_default_port() {
    let b = base("http://example.org:80/a");
    let body = "<link rel=\"webmention\" href=\"/ep\">";
    let res = parse(&b, Vec::new(), body.to_string()).unwrap().unwrap();
    assert_eq!(res.as_str(), "http://example.org/ep");
}

// A candidate that parses as nothing is joined with the base origin as a
// last resort; when even that is no URL, the invalid-URL error comes out.
#[test]
fn discovery_unresolvable_candidate() {
    let b = base("https://example.org/a");
    let body = "<a rel=\"webmention\" href=\"a b\">x</a>";
    let res = parse(&b, Vec::new(), body.to_string());
    assert!(matches!(res, Err(Error::Parse(ParseError::InvalidUrl))));
}

// A base whose origin is opaque offers no basis for reconstruction.
#[test]
fn discovery_opaque_base_origin() {
    let b = base("data:text/plain,hello");
    let body = "<link rel=\"webmention\" href=\"/ep\">";
    let res = parse(&b, Vec::new(), body.to_string());
    assert!(matches!(res, Err(Error::Parse(ParseError::InvalidHeader))));
}

// An entry with no parameters at all cannot match.
#[test]
fn header_entry_without_parameters() {
    let header = "https://example.org/x".to_string();
    let res = parse_link_header(&header).unwrap();
    assert!(res.is_none());
}

// An empty header value yields nothing.
#[test]
fn header_empty_value() {
    let res = parse_link_header(&String::new()).unwrap();
    assert!(res.is_none());
}

// The largest port value survives reconstruction.
#[test]
fn discovery_keeps_large_port() {
    let b = base("https://example.org:65535/a");
    let body = "<link rel=\"webmention\" href=\"/ep\">";
    let res = parse(&b, Vec::new(), body.to_string()).unwrap().unwrap();
    assert_eq!(res.as_str(), "https://example.org:65535/ep");
}
