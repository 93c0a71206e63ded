//! The markup scanner: find a Webmention candidate in HTML body text when
//! the headers yielded none.
//!
//! Matching happens in two stages, as the header-based discovery does not:
//! the selection stage picks, in document order, every element whose `rel`
//! attribute value contains `webmention` as a substring; the acceptance
//! stage takes the first selected element whose `rel` attribute equals
//! `webmention` exactly, case-sensitively, and which carries an `href`
//! attribute. An empty `href` value is a valid candidate. Multi-valued
//! `rel` attributes therefore pass selection but fail acceptance.

use vstd::prelude::*;

use crate::header::{wm_lit, wm_needle};
use crate::result::Error;
use crate::text::{chars_eq, str_chars};
use crate::web::opt_string_view;

verus! {

/// One element the selection stage picked: its `rel` attribute value and
/// its `href` attribute value, if any.
#[derive(Debug)]
pub struct MarkupLink {
    pub rel: String,
    pub href: Option<String>,
}

impl View for MarkupLink {
    type V = (Seq<char>, Option<Seq<char>>);

    open spec fn view(&self) -> (Seq<char>, Option<Seq<char>>) {
        (self.rel@, opt_string_view(self.href))
    }
}

/// The views of a list of selected elements.
pub open spec fn links_view(ls: Seq<MarkupLink>) -> Seq<(Seq<char>, Option<Seq<char>>)> {
    ls.map_values(|l: MarkupLink| l@)
}

/// The `(rel, href)` attribute pairs, in document order, of the elements of
/// the HTML document `body` whose `rel` attribute value contains
/// `webmention`; a function of the body text alone.
pub uninterp spec fn rel_links_of(body: Seq<char>) -> Seq<(Seq<char>, Option<Seq<char>>)>;

/// The candidate among the selected elements: the `href` of the first one
/// whose `rel` is exactly `webmention` and which has an `href` at all.
pub open spec fn markup_choice(ls: Seq<(Seq<char>, Option<Seq<char>>)>) -> Option<Seq<char>>
    decreases ls.len(),
{
    if ls.len() == 0 {
        None
    } else if ls[0].0 == wm_lit() && ls[0].1 is Some {
        Some(ls[0].1.unwrap())
    } else {
        markup_choice(ls.drop_first())
    }
}

/// LAW: when no selected element has an exactly matching `rel` attribute
/// together with an `href` attribute, the markup yields no candidate.
pub proof fn lemma_markup_no_accept(ls: Seq<(Seq<char>, Option<Seq<char>>)>)
    requires
        forall|k: int|
            0 <= k < ls.len() ==> !((#[trigger] ls[k]).0 == wm_lit() && ls[k].1 is Some),
    ensures
        markup_choice(ls) is None,
    decreases ls.len(),
{
    if ls.len() > 0 {
        assert(!(ls[0].0 == wm_lit() && ls[0].1 is Some));
        assert(forall|k: int|
            0 <= k < ls.drop_first().len() ==> !((#[trigger] ls.drop_first()[k]).0 == wm_lit()
                && ls.drop_first()[k].1 is Some)) by {
            assert(forall|k: int|
                0 <= k < ls.drop_first().len() ==> ls.drop_first()[k] == ls[k + 1]);
        }
        lemma_markup_no_accept(ls.drop_first());
    }
}

/// Relies on scraper's HTML parsing and CSS selection: `Html::parse_document`
/// builds the document tree from the text alone, and selecting
/// `[rel*=webmention]` yields, in document order, exactly the elements whose
/// `rel` attribute value contains `webmention`; each element is handed out
/// as its `rel` and `href` attribute values.
#[verifier::external_body]
fn scan_rel_elements(body: &str) -> (r: Vec<MarkupLink>)
    ensures
        links_view(r@) == rel_links_of(body@),
{
    let tree = scraper::Html::parse_document(body);
    let sel = scraper::Selector::parse("[rel*=webmention]").unwrap();
    tree.select(&sel)
        .map(|el| MarkupLink {
            rel: el.value().attr("rel").unwrap_or("").to_string(),
            href: el.value().attr("href").map(|v| v.to_string()),
        })
        .collect()
}

/// Apply the acceptance stage to the selected elements: the first with an
/// exactly matching `rel` and a present `href` yields the candidate.
pub fn select_markup_candidate(links: &Vec<MarkupLink>) -> (r: Option<String>)
    ensures
        opt_string_view(r) == markup_choice(links_view(links@)),
{
    let needle = wm_needle();
    let ghost lv = links_view(links@);
    proof {
        assert(lv.skip(0) =~= lv);
    }
    let mut i: usize = 0;
    while i < links.len()
        invariant
            lv == links_view(links@),
            links@.len() == lv.len(),
            i <= lv.len(),
            needle@ == wm_lit(),
            markup_choice(lv) == markup_choice(lv.skip(i as int)),
        decreases lv.len() - i,
    {
        proof {
            assert(lv.skip(i as int)[0] == links@[i as int]@);
            assert(lv.skip(i as int).drop_first() =~= lv.skip(i + 1));
        }
        let rel_chars = str_chars(links[i].rel.as_str());
        if chars_eq(&rel_chars, &needle) {
            match &links[i].href {
                Some(h) => {
                    let out = h.clone();
                    proof {
                        assert(markup_choice(lv.skip(i as int)) == Some(out@));
                    }
                    return Some(out);
                },
                None => {},
            }
        }
        i += 1;
    }
    proof {
        assert(lv.skip(lv.len() as int).len() == 0);
    }
    None
}

/// Scan HTML body text for a Webmention candidate. Never returns an error.
pub fn parse_link_tags(value: String) -> (r: Result<Option<String>, Error>)
    ensures
        r matches Ok(c) && opt_string_view(c) == markup_choice(rel_links_of(value@)),
{
    let links = scan_rel_elements(value.as_str());
    Ok(select_markup_candidate(&links))
}

} // verus!
