//! The header scanner: find a Webmention candidate in raw `Link` header
//! values.
//!
//! Each header value is stripped of angle brackets, quotes and white space,
//! then split on commas into link entries. An entry is split on semicolons
//! into a URI token followed by parameters; a parameter with key `rel` whose
//! value's lowercase form contains `webmention` makes the entry match, and
//! the first matching entry of a header value wins. A `rel` parameter with
//! no value aborts that header value's scan. Across header values the *last*
//! one producing a candidate wins.

use vstd::prelude::*;

use crate::result::Error;
use crate::text::{
    chars_eq, chars_string, contains_chars, has_sub, split, split_chars, str_chars, strip,
    strip_chars,
};
use crate::web::opt_string_view;

verus! {

/// What the characters `lowercase` turns a string into; the result of
/// `str::to_lowercase` depends on the characters alone.
pub uninterp spec fn lower_of(s: Seq<char>) -> Seq<char>;

/// Relies on `str::to_lowercase`: the lowercase mapping of the character
/// sequence, depending on the characters alone.
#[verifier::external_body]
fn lowercase(s: &str) -> (r: String)
    ensures
        r@ == lower_of(s@),
{
    s.to_lowercase()
}

/// The characters of the parameter key `rel`.
pub open spec fn rel_lit() -> Seq<char> {
    seq!['r', 'e', 'l']
}

/// The characters of the relation `webmention`.
pub open spec fn wm_lit() -> Seq<char> {
    seq!['w', 'e', 'b', 'm', 'e', 'n', 't', 'i', 'o', 'n']
}

/// The key of a parameter: what stands before the first `=`, or the whole
/// parameter when it has no `=`.
pub open spec fn param_key(p: Seq<char>) -> Seq<char> {
    match p.index_of_first('=') {
        Some(i) => p.take(i),
        None => p,
    }
}

/// The value of a parameter: what stands after the first `=`, if any.
pub open spec fn param_value(p: Seq<char>) -> Option<Seq<char>> {
    match p.index_of_first('=') {
        Some(i) => Some(p.skip(i + 1)),
        None => None,
    }
}

/// A `rel` parameter whose value's lowercase form contains `webmention`.
pub open spec fn rel_param_matches(p: Seq<char>) -> bool {
    &&& param_key(p) == rel_lit()
    &&& match param_value(p) {
        Some(v) => has_sub(lower_of(v), wm_lit()),
        None => false,
    }
}

/// A malformed `rel` parameter: the key alone, with no value.
pub open spec fn rel_param_unvalued(p: Seq<char>) -> bool {
    param_key(p) == rel_lit() && param_value(p) is None
}

/// What scanning one parameter decides.
pub enum ParamScan {
    /// The parameter makes its entry match.
    Hit,
    /// The parameter aborts the scan of its header value.
    Abort,
    /// The parameter decides nothing.
    Miss,
}

/// The decision one parameter contributes.
pub open spec fn param_step(p: Seq<char>) -> ParamScan {
    if rel_param_matches(p) {
        ParamScan::Hit
    } else if rel_param_unvalued(p) {
        ParamScan::Abort
    } else {
        ParamScan::Miss
    }
}

/// The first decisive parameter of a list wins.
pub open spec fn params_scan(ps: Seq<Seq<char>>) -> ParamScan
    decreases ps.len(),
{
    if ps.len() == 0 {
        ParamScan::Miss
    } else {
        match param_step(ps[0]) {
            ParamScan::Hit => ParamScan::Hit,
            ParamScan::Abort => ParamScan::Abort,
            ParamScan::Miss => params_scan(ps.drop_first()),
        }
    }
}

/// A link entry split on semicolons: the URI token, then the parameters.
pub open spec fn entry_pieces(e: Seq<char>) -> Seq<Seq<char>> {
    split(e, ';')
}

/// The URI token of a link entry.
pub open spec fn entry_uri(e: Seq<char>) -> Seq<char> {
    entry_pieces(e)[0]
}

/// What scanning one entry decides; an entry without parameters decides
/// nothing.
pub open spec fn entry_scan(e: Seq<char>) -> ParamScan {
    if entry_pieces(e).len() < 2 {
        ParamScan::Miss
    } else {
        params_scan(entry_pieces(e).drop_first())
    }
}

/// The candidate of a list of entries: the URI token of the first matching
/// entry, none once an entry aborts the scan.
pub open spec fn entries_scan(es: Seq<Seq<char>>) -> Option<Seq<char>>
    decreases es.len(),
{
    if es.len() == 0 {
        None
    } else {
        match entry_scan(es[0]) {
            ParamScan::Hit => Some(entry_uri(es[0])),
            ParamScan::Abort => None,
            ParamScan::Miss => entries_scan(es.drop_first()),
        }
    }
}

/// The candidate one raw header value yields.
pub open spec fn header_candidate(v: Seq<char>) -> Option<Seq<char>> {
    entries_scan(split(strip(v), ','))
}

/// The candidate a list of header values yields: the last header value with
/// a candidate wins.
pub open spec fn headers_candidate(hs: Seq<Seq<char>>) -> Option<Seq<char>>
    decreases hs.len(),
{
    if hs.len() == 0 {
        None
    } else {
        match header_candidate(hs.last()) {
            Some(u) => Some(u),
            None => headers_candidate(hs.drop_last()),
        }
    }
}

/// Whether some entry of the header value carries a matching `rel`
/// parameter at all.
pub open spec fn header_mentions(v: Seq<char>) -> bool {
    exists|i: int, j: int|
        {
            &&& 0 <= i < split(strip(v), ',').len()
            &&& 1 <= j < entry_pieces(split(strip(v), ',')[i]).len()
            &&& rel_param_matches(entry_pieces(split(strip(v), ',')[i])[j])
        }
}

/// A parameter list with no matching `rel` parameter never produces a hit.
pub proof fn lemma_params_scan_no_hit(ps: Seq<Seq<char>>)
    requires
        forall|j: int| 0 <= j < ps.len() ==> !rel_param_matches(#[trigger] ps[j]),
    ensures
        params_scan(ps) != ParamScan::Hit,
    decreases ps.len(),
{
    if ps.len() > 0 {
        assert(!rel_param_matches(ps[0]));
        if param_step(ps[0]) == ParamScan::Miss {
            assert(forall|j: int|
                0 <= j < ps.drop_first().len() ==> !rel_param_matches(
                    #[trigger] ps.drop_first()[j],
                )) by {
                assert(forall|j: int|
                    0 <= j < ps.drop_first().len() ==> ps.drop_first()[j] == ps[j + 1]);
            }
            lemma_params_scan_no_hit(ps.drop_first());
        }
    }
}

/// An entry list in which no entry carries a matching `rel` parameter
/// yields no candidate.
pub proof fn lemma_entries_scan_no_hit(es: Seq<Seq<char>>)
    requires
        forall|i: int, j: int|
            0 <= i < es.len() && 1 <= j < entry_pieces(#[trigger] es[i]).len()
                ==> !rel_param_matches(#[trigger] entry_pieces(es[i])[j]),
    ensures
        entries_scan(es) is None,
    decreases es.len(),
{
    if es.len() > 0 {
        let e = es[0];
        if entry_pieces(e).len() >= 2 {
            let ps = entry_pieces(e).drop_first();
            assert(forall|j: int| 0 <= j < ps.len() ==> !rel_param_matches(#[trigger] ps[j])) by {
                assert(forall|j: int| 0 <= j < ps.len() ==> ps[j] == entry_pieces(es[0])[j + 1]);
            }
            lemma_params_scan_no_hit(ps);
        }
        if entry_scan(e) == ParamScan::Miss {
            assert(forall|i: int, j: int|
                0 <= i < es.drop_first().len() && 1 <= j < entry_pieces(
                    #[trigger] es.drop_first()[i],
                ).len() ==> !rel_param_matches(#[trigger] entry_pieces(es.drop_first()[i])[j]))
                by {
                assert(forall|i: int|
                    0 <= i < es.drop_first().len() ==> #[trigger] es.drop_first()[i] == es[i + 1]);
            }
            lemma_entries_scan_no_hit(es.drop_first());
        }
    }
}

/// LAW: a header value in which no relation parameter's lowercase value
/// contains `webmention` yields no candidate.
pub proof fn lemma_no_match_no_candidate(v: Seq<char>)
    requires
        !header_mentions(v),
    ensures
        header_candidate(v) is None,
{
    let es = split(strip(v), ',');
    assert(forall|i: int, j: int|
        0 <= i < es.len() && 1 <= j < entry_pieces(#[trigger] es[i]).len() ==> !rel_param_matches(
            #[trigger] entry_pieces(es[i])[j],
        ));
    lemma_entries_scan_no_hit(es);
}

/// A list of header values of which none yields a candidate yields none
/// overall.
pub proof fn lemma_headers_all_none(hs: Seq<Seq<char>>)
    requires
        forall|i: int| 0 <= i < hs.len() ==> header_candidate(#[trigger] hs[i]) is None,
    ensures
        headers_candidate(hs) is None,
    decreases hs.len(),
{
    if hs.len() > 0 {
        assert(header_candidate(hs.last()) is None);
        assert(forall|i: int|
            0 <= i < hs.drop_last().len() ==> header_candidate(
                #[trigger] hs.drop_last()[i],
            ) is None) by {
            assert(forall|i: int| 0 <= i < hs.drop_last().len() ==> hs.drop_last()[i] == hs[i]);
        }
        lemma_headers_all_none(hs.drop_last());
    }
}

/// LAW: when several header values yield a candidate, the last one that
/// does determines the result; earlier candidates are overridden.
pub proof fn lemma_last_matching_header_wins(hs: Seq<Seq<char>>, i: int)
    requires
        0 <= i < hs.len(),
        header_candidate(hs[i]) is Some,
        forall|j: int| i < j < hs.len() ==> header_candidate(#[trigger] hs[j]) is None,
    ensures
        headers_candidate(hs) == header_candidate(hs[i]),
    decreases hs.len(),
{
    if i == hs.len() - 1 {
        assert(hs.last() == hs[i]);
    } else {
        assert(header_candidate(hs.last()) is None);
        assert(hs.drop_last()[i] == hs[i]);
        assert(forall|j: int|
            i < j < hs.drop_last().len() ==> header_candidate(
                #[trigger] hs.drop_last()[j],
            ) is None) by {
            assert(forall|j: int| 0 <= j < hs.drop_last().len() ==> hs.drop_last()[j] == hs[j]);
        }
        lemma_last_matching_header_wins(hs.drop_last(), i);
    }
}

/// The characters of `webmention`, for searching.
pub(crate) fn wm_needle() -> (r: Vec<char>)
    ensures
        r@ == wm_lit(),
{
    let r: Vec<char> = vec!['w', 'e', 'b', 'm', 'e', 'n', 't', 'i', 'o', 'n'];
    proof {
        assert(r@ =~= wm_lit());
    }
    r
}

/// Whether `k` is exactly the key `rel`.
fn is_rel_key(k: &Vec<char>) -> (b: bool)
    ensures
        b == (k@ == rel_lit()),
{
    let lit: Vec<char> = vec!['r', 'e', 'l'];
    proof {
        assert(lit@ =~= rel_lit());
    }
    chars_eq(k, &lit)
}

/// Split a parameter at its first `=` into key and optional value.
fn param_split(p: &Vec<char>) -> (r: (Vec<char>, Option<Vec<char>>))
    ensures
        r.0@ == param_key(p@),
        (match r.1 {
            Some(v) => Some(v@),
            None => None::<Seq<char>>,
        }) == param_value(p@),
{
    let mut i: usize = 0;
    while i < p.len()
        invariant
            i <= p@.len(),
            forall|k: int| 0 <= k < i ==> p@[k] != '=',
        decreases p@.len() - i,
    {
        if p[i] == '=' {
            proof {
                p@.index_of_first_ensures('=');
                assert(p@.contains('='));
                let f = p@.index_of_first('=').unwrap();
                assert(f == i);
            }
            let key = crate::text::sub_chars(p, 0, i);
            let value = crate::text::sub_chars(p, i + 1, p.len());
            proof {
                assert(key@ =~= param_key(p@));
                assert(value@ =~= param_value(p@).unwrap());
            }
            return (key, Some(value));
        }
        i += 1;
    }
    proof {
        p@.index_of_first_ensures('=');
        if p@.contains('=') {
            let w = choose|k: int| 0 <= k < p@.len() && p@[k] == '=';
            assert(false);
        }
    }
    let key = crate::text::sub_chars(p, 0, p.len());
    proof {
        assert(key@ =~= p@);
    }
    (key, None)
}

/// Scan a single raw `Link` header value.
///
/// Returns the URI token of the first entry carrying a matching `rel`
/// parameter, none when no entry matches or a malformed `rel` parameter
/// aborts the scan; a `rel` parameter is examined wherever it stands among
/// an entry's parameters. Never returns an error.
pub fn parse_link_header(v: &String) -> (r: Result<Option<String>, Error>)
    ensures
        r matches Ok(c) && opt_string_view(c) == header_candidate(v@),
{
    let needle = wm_needle();
    let chars = str_chars(v.as_str());
    let stripped = strip_chars(&chars);
    let entries = split_chars(&stripped, ',');
    let ghost es = split(strip(v@), ',');
    proof {
        assert(entries.deep_view() == es);
        assert(es.skip(0) =~= es);
    }
    let mut i: usize = 0;
    while i < entries.len()
        invariant
            es == split(strip(v@), ','),
            entries.deep_view() == es,
            entries@.len() == es.len(),
            i <= es.len(),
            needle@ == wm_lit(),
            entries_scan(es) == entries_scan(es.skip(i as int)),
        decreases es.len() - i,
    {
        let ghost ent = es[i as int];
        proof {
            assert(entries@[i as int].deep_view() =~= entries@[i as int]@);
            assert(entries@[i as int]@ == ent);
            assert(es.skip(i as int)[0] == ent);
            assert(es.skip(i as int).drop_first() =~= es.skip(i + 1));
        }
        let pieces = split_chars(&entries[i], ';');
        proof {
            assert(pieces.deep_view() == entry_pieces(ent));
        }
        if pieces.len() >= 2 {
            proof {
                assert(entry_pieces(ent).drop_first() =~= entry_pieces(ent).skip(1));
            }
            let mut j: usize = 1;
            while j < pieces.len()
                invariant
                    es == split(strip(v@), ','),
                    entries_scan(es) == entries_scan(es.skip(i as int)),
                    i < es.len(),
                    ent == es[i as int],
                    es.skip(i as int)[0] == ent,
                    es.skip(i as int).drop_first() =~= es.skip(i + 1),
                    needle@ == wm_lit(),
                    pieces.deep_view() == entry_pieces(ent),
                    pieces@.len() == entry_pieces(ent).len(),
                    2 <= pieces@.len(),
                    1 <= j <= pieces@.len(),
                    params_scan(entry_pieces(ent).drop_first()) == params_scan(
                        entry_pieces(ent).skip(j as int),
                    ),
                decreases pieces@.len() - j,
            {
                let ghost prm = entry_pieces(ent)[j as int];
                proof {
                    assert(pieces@[j as int].deep_view() =~= pieces@[j as int]@);
                    assert(pieces@[j as int]@ == prm);
                    assert(entry_pieces(ent).skip(j as int)[0] == prm);
                    assert(entry_pieces(ent).skip(j as int).drop_first() =~= entry_pieces(
                        ent,
                    ).skip(j + 1));
                }
                let (key, val) = param_split(&pieces[j]);
                if is_rel_key(&key) {
                    match val {
                        None => {
                            proof {
                                assert(rel_param_unvalued(prm));
                                assert(param_step(prm) == ParamScan::Abort);
                                assert(entry_scan(ent) == ParamScan::Abort);
                                assert(entries_scan(es.skip(i as int)) is None);
                            }
                            return Ok(None);
                        },
                        Some(value) => {
                            let vs = chars_string(&value);
                            let lowered = lowercase(vs.as_str());
                            let lchars = str_chars(lowered.as_str());
                            if contains_chars(&lchars, &needle) {
                                let uri = chars_string(&pieces[0]);
                                proof {
                                    assert(rel_param_matches(prm));
                                    assert(param_step(prm) == ParamScan::Hit);
                                    assert(entry_scan(ent) == ParamScan::Hit);
                                    assert(pieces@[0].deep_view() =~= pieces@[0]@);
                                    assert(uri@ == entry_uri(ent));
                                    assert(entries_scan(es.skip(i as int)) == Some(uri@));
                                }
                                return Ok(Some(uri));
                            }
                            proof {
                                assert(!rel_param_matches(prm));
                                assert(!rel_param_unvalued(prm));
                                assert(param_step(prm) == ParamScan::Miss);
                            }
                        },
                    }
                } else {
                    proof {
                        assert(param_step(prm) == ParamScan::Miss);
                    }
                }
                proof {
                    assert(params_scan(entry_pieces(ent).skip(j as int)) == params_scan(
                        entry_pieces(ent).skip(j + 1),
                    ));
                }
                j += 1;
            }
            proof {
                assert(entry_pieces(ent).skip(pieces@.len() as int).len() == 0);
                assert(params_scan(entry_pieces(ent).drop_first()) == ParamScan::Miss);
                assert(entry_scan(ent) == ParamScan::Miss);
            }
        } else {
            proof {
                assert(entry_scan(ent) == ParamScan::Miss);
            }
        }
        proof {
            assert(entries_scan(es.skip(i as int)) == entries_scan(es.skip(i + 1)));
        }
        i += 1;
    }
    proof {
        assert(es.skip(es.len() as int).len() == 0);
    }
    Ok(None)
}

/// Scan an ordered list of raw `Link` header values; the candidate of the
/// last header value that yields one wins. Never returns an error.
pub fn parse_link_headers(value: Vec<String>) -> (r: Result<Option<String>, Error>)
    ensures
        r matches Ok(c) && opt_string_view(c) == headers_candidate(value.deep_view()),
{
    let ghost hs = value.deep_view();
    let mut res: Option<String> = None;
    let mut i: usize = 0;
    while i < value.len()
        invariant
            hs == value.deep_view(),
            value@.len() == hs.len(),
            i <= hs.len(),
            opt_string_view(res) == headers_candidate(hs.take(i as int)),
        decreases hs.len() - i,
    {
        proof {
            assert(value@[i as int].deep_view() == value@[i as int]@);
            assert(hs.take(i + 1).last() == value@[i as int]@);
            assert(hs.take(i + 1).drop_last() =~= hs.take(i as int));
        }
        let c = match parse_link_header(&value[i]) {
            Ok(c) => c,
            Err(e) => {
                return Err(e);
            },
        };
        if let Some(u) = c {
            res = Some(u);
        }
        i += 1;
    }
    proof {
        assert(hs.take(hs.len() as int) =~= hs);
    }
    Ok(res)
}

} // verus!
