//! The issue links lambda: the links of all issues listed on a series page.
use crate::scrape::{
    elements_view, option_view, select_elements, selected_elements, Element, ElementView,
    ScrapeError,
};
use crate::text::views;
use vstd::prelude::*;
use vstd::string::*;

verus! {

/// The site that the issue links are relative to.
pub const CORE_URL: &'static str = "https://comicbookroundup.com";

/// The issue links of a series page.
pub const ISSUE_LINK_SELECTOR: &'static str = "div.section > table > tbody > tr > td.issue > a";

/// The attribute that holds a link.
pub const LINK_ATTRIBUTE: &'static str = "href";

/// The request body of the lambda.
pub struct LambdaRequest {
    pub url: String,
}

/// The answer of the lambda: the absolute links of the issues.
pub struct LambdaResponse {
    pub urls: Vec<String>,
}

/// The series page that the request asks for: the url of its body, or the
/// empty string where the body holds none.
pub fn parse_url_from_request(request: Option<LambdaRequest>) -> (url: String)
    ensures
        url@ == match request {
            Some(r) => r.url@,
            None => Seq::<char>::empty(),
        },
{
    match request {
        Some(r) => r.url,
        None => String::new(),
    }
}

/// The text of each optional link of a sequence.
pub open spec fn links_view(v: Seq<Option<String>>) -> Seq<Option<Seq<char>>> {
    v.map_values(|o: Option<String>| option_view(o))
}

/// The link of each selected element, where it has one.
pub open spec fn links_of(els: Seq<ElementView>) -> Seq<Option<Seq<char>>> {
    els.map_values(|e: ElementView| e.1)
}

/// The link of each selected issue element, where it has one.
pub fn issue_links_from(elements: &Vec<Element>) -> (links: Vec<Option<String>>)
    ensures
        links_view(links@) == links_of(elements_view(elements@)),
{
    let mut links: Vec<Option<String>> = Vec::new();
    let mut i: usize = 0;
    while i < elements.len()
        invariant
            i <= elements@.len(),
            links_view(links@) == links_of(elements_view(elements@)).take(i as int),
        decreases elements@.len() - i,
    {
        let link = elements[i].attribute.clone();
        let ghost before = links_view(links@);
        links.push(link);
        assert(links_view(links@) =~= before.push(option_view(link)));
        assert(links_of(elements_view(elements@)).take(i + 1) =~= links_of(
            elements_view(elements@),
        ).take(i as int).push(elements@[i as int]@.1));
        i = i + 1;
    }
    assert(links_of(elements_view(elements@)).take(elements@.len() as int) =~= links_of(
        elements_view(elements@),
    ));
    links
}

/// The issue links of the series page `response_str`, each where the issue
/// element has one, in the order of the page.
pub fn parse_comic_issue_urls(response_str: &str) -> (r: Result<Vec<Option<String>>, ScrapeError>)
    ensures
        match selected_elements(response_str@, ISSUE_LINK_SELECTOR@, LINK_ATTRIBUTE@) {
            None => r == Err::<Vec<Option<String>>, ScrapeError>(ScrapeError::InvalidSelector),
            Some(els) => r matches Ok(links) && links_view(links@) == links_of(els),
        },
{
    let elements = match select_elements(response_str, ISSUE_LINK_SELECTOR, LINK_ATTRIBUTE) {
        Ok(v) => v,
        Err(e) => return Err(e),
    };
    Ok(issue_links_from(&elements))
}

/// The absolute links: `CORE_URL` before each link that is present, the
/// missing ones left out.
pub open spec fn absolute_urls(links: Seq<Option<Seq<char>>>) -> Seq<Seq<char>>
    decreases links.len(),
{
    if links.len() == 0 {
        Seq::empty()
    } else {
        let rest = absolute_urls(links.drop_last());
        match links.last() {
            Some(link) => rest.push(CORE_URL@ + link),
            None => rest,
        }
    }
}

/// The answer of the lambda for the issue links `urls`: `CORE_URL` before
/// each link that is present, the missing ones left out.
pub fn lambda_response(urls: &Vec<Option<String>>) -> (response: LambdaResponse)
    ensures
        views(response.urls@) == absolute_urls(links_view(urls@)),
{
    let mut out: Vec<String> = Vec::new();
    let mut i: usize = 0;
    while i < urls.len()
        invariant
            i <= urls@.len(),
            views(out@) == absolute_urls(links_view(urls@).take(i as int)),
        decreases urls@.len() - i,
    {
        assert(links_view(urls@).take(i + 1).drop_last() =~= links_view(urls@).take(i as int));
        match &urls[i] {
            Some(link) => {
                let mut url = String::from_str(CORE_URL);
                url.append(link.as_str());
                let ghost before = views(out@);
                out.push(url);
                assert(views(out@) =~= before.push(url@));
            },
            None => {},
        }
        i = i + 1;
    }
    assert(links_view(urls@).take(urls@.len() as int) =~= links_view(urls@));
    LambdaResponse { urls: out }
}

/// The number of links that are present.
pub open spec fn present_count(links: Seq<Option<Seq<char>>>) -> nat
    decreases links.len(),
{
    if links.len() == 0 {
        0
    } else {
        present_count(links.drop_last()) + if links.last() is Some {
            1nat
        } else {
            0nat
        }
    }
}

/// Law: the answer holds one absolute link per link that is present, and
/// each of them starts with `CORE_URL`.
pub proof fn law_absolute_urls(links: Seq<Option<Seq<char>>>)
    ensures
        absolute_urls(links).len() == present_count(links),
        forall|k: int|
            0 <= k < absolute_urls(links).len() ==> (#[trigger] absolute_urls(links)[k]).subrange(
                0,
                CORE_URL@.len() as int,
            ) == CORE_URL@,
    decreases links.len(),
{
    if links.len() > 0 {
        law_absolute_urls(links.drop_last());
        let rest = absolute_urls(links.drop_last());
        match links.last() {
            Some(link) => {
                assert((CORE_URL@ + link).subrange(0, CORE_URL@.len() as int) =~= CORE_URL@);
                assert forall|k: int| 0 <= k < absolute_urls(links).len() implies (
                #[trigger] absolute_urls(links)[k]).subrange(0, CORE_URL@.len() as int)
                    == CORE_URL@ by {
                    if k < rest.len() {
                        assert(absolute_urls(links)[k] == rest[k]);
                    }
                }
            },
            None => {},
        }
    }
}

/// Law: each present link, in the order of the page, becomes the answer's
/// link at the position given by the number of present links before it:
/// `CORE_URL` followed by the link.
pub proof fn law_absolute_urls_in_order(links: Seq<Option<Seq<char>>>)
    ensures
        forall|j: int|
            #![trigger links[j]]
            0 <= j < links.len() && links[j] is Some ==> {
                &&& present_count(links.take(j)) < absolute_urls(links).len()
                &&& absolute_urls(links)[present_count(links.take(j)) as int] == CORE_URL@
                    + links[j].unwrap()
            },
    decreases links.len(),
{
    law_absolute_urls(links);
    if links.len() > 0 {
        let init = links.drop_last();
        law_absolute_urls_in_order(init);
        law_absolute_urls(init);
        assert forall|j: int|
            #![trigger links[j]]
            0 <= j < links.len() && links[j] is Some implies {
                &&& present_count(links.take(j)) < absolute_urls(links).len()
                &&& absolute_urls(links)[present_count(links.take(j)) as int] == CORE_URL@
                    + links[j].unwrap()
            } by {
            if j < links.len() - 1 {
                assert(links.take(j) =~= init.take(j));
                assert(init[j] == links[j]);
            } else {
                assert(links.take(j) =~= init);
            }
        }
    }
}

} // verus!
