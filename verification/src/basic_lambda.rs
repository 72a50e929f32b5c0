//! The basic lambda: the link of the series that a comic issue page belongs to.
use crate::scrape::{
    elements_view, select_elements, string_result_view, selected_elements, Element, ElementView,
    ScrapeError,
};
use vstd::prelude::*;
use vstd::string::*;

verus! {

/// The issue page that the basic lambda reads.
pub const PAGE_URL: &'static str =
    "https://comicbookroundup.com/comic-books/reviews/marvel-comics/immortal-x-men-(2022)/8";

/// The CSS selector of the series link on an issue page.
pub const SERIES_SELECTOR: &'static str = "div.series-buttons a.series";

/// The attribute that holds a link.
pub const LINK_ATTRIBUTE: &'static str = "href";

/// What is answered when the page has no series link.
pub const NO_SERIES: &'static str = "N/A";

/// What the handler answers when the page cannot be read.
pub const NAME_ERROR_MESSAGE: &'static str = "Some error retrieving name";

/// The series link among the selected elements: the link of the first
/// element, or `NO_SERIES` when nothing was selected.
pub open spec fn series_link_of(els: Seq<ElementView>) -> Seq<char> {
    if els.len() == 0 {
        NO_SERIES@
    } else {
        els[0].1.unwrap()
    }
}

/// The series link among the elements that `SERIES_SELECTOR` selected.
pub fn series_link(elements: &Vec<Element>) -> (link: String)
    requires
        elements@.len() > 0 ==> elements@[0].attribute is Some,
    ensures
        link@ == series_link_of(elements_view(elements@)),
        elements@.len() == 0 ==> link@ == "N/A"@,
        elements@.len() > 0 ==> link@ == elements@[0].attribute.unwrap()@,
{
    if elements.len() == 0 {
        String::from_str(NO_SERIES)
    } else {
        match &elements[0].attribute {
            Some(link) => link.clone(),
            None => String::from_str(NO_SERIES),
        }
    }
}

/// What reading the series link of `page` gives.
pub open spec fn parse_name_outcome(page: Seq<char>) -> Result<Seq<char>, ScrapeError> {
    match selected_elements(page, SERIES_SELECTOR@, LINK_ATTRIBUTE@) {
        None => Err(ScrapeError::InvalidSelector),
        Some(els) => if els.len() > 0 && els[0].1 is None {
            Err(ScrapeError::MissingAttribute)
        } else {
            Ok(series_link_of(els))
        },
    }
}

/// The link of the series that the issue page `response` belongs to, or
/// `NO_SERIES` where the page has none. A first series element without a
/// link is reported as `MissingAttribute`.
pub fn parse_name(response: &str) -> (r: Result<String, ScrapeError>)
    ensures
        string_result_view(r) == parse_name_outcome(response@),
{
    let elements = match select_elements(response, SERIES_SELECTOR, LINK_ATTRIBUTE) {
        Ok(v) => v,
        Err(e) => return Err(e),
    };
    if elements.len() > 0 && elements[0].attribute.is_none() {
        return Err(ScrapeError::MissingAttribute);
    }
    Ok(series_link(&elements))
}

/// The body that the handler answers: the series link, or
/// `NAME_ERROR_MESSAGE` where the page could not be read.
pub fn name_or_error_message(parsed: Result<String, ScrapeError>) -> (body: String)
    ensures
        body@ == match parsed {
            Ok(name) => name@,
            Err(_) => NAME_ERROR_MESSAGE@,
        },
{
    match parsed {
        Ok(name) => name,
        Err(_) => String::from_str(NAME_ERROR_MESSAGE),
    }
}

} // verus!
