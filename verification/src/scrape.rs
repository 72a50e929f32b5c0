//! The two outside engines the scraping logic rests on, behind trusted
//! items: scraper's CSS queries on an HTML document, and regex captures.
//! Everything past the calls works on the plain values defined here.
use crate::text::{contains_seq, first_digit_run, first_number, narrow_digits, views};
use vstd::prelude::*;

verus! {

#[verifier::external_type_specification]
#[verifier::external_body]
pub struct ExSelectorErrorKind(scraper::error::SelectorErrorKind);

#[verifier::external_type_specification]
#[verifier::external_body]
pub struct ExRegexError(regex::Error);

/// What the scraping logic reads of one element that a CSS selector matched.
pub struct Element {
    /// The element's descendant text nodes, in document order.
    pub text: Vec<String>,
    /// The value of the requested attribute, where the element carries it.
    pub attribute: Option<String>,
}

/// The text of an optional string.
pub open spec fn option_view(o: Option<String>) -> Option<Seq<char>> {
    match o {
        Some(s) => Some(s@),
        None => None,
    }
}

/// The text of a result that carries a string.
pub open spec fn string_result_view(r: Result<String, ScrapeError>) -> Result<Seq<char>, ScrapeError> {
    match r {
        Ok(s) => Ok(s@),
        Err(e) => Err(e),
    }
}

/// The text of a result that may carry a string.
pub open spec fn option_result_view(r: Result<Option<String>, ScrapeError>) -> Result<
    Option<Seq<char>>,
    ScrapeError,
> {
    match r {
        Ok(o) => Ok(option_view(o)),
        Err(e) => Err(e),
    }
}

/// An element as plain values: its text nodes and its attribute.
pub type ElementView = (Seq<Seq<char>>, Option<Seq<char>>);

impl View for Element {
    type V = ElementView;

    open spec fn view(&self) -> ElementView {
        (views(self.text@), option_view(self.attribute))
    }
}

/// The plain values of each element of a sequence.
pub open spec fn elements_view(v: Seq<Element>) -> Seq<ElementView> {
    v.map_values(|e: Element| e@)
}

/// The ways in which reading a page can fail.
#[derive(Debug, Clone, Copy, PartialEq, Eq, Structural)]
pub enum ScrapeError {
    /// A CSS selector did not parse.
    InvalidSelector,
    /// A regular expression did not compile.
    InvalidPattern,
    /// An element that the logic reads a link from has no such attribute.
    MissingAttribute,
    /// An element that the logic reads text from has no text node.
    MissingText,
    /// A regular expression that must match some text did not, or matched
    /// without the group that is read.
    NoMatch,
}

/// What scraper's query gives for `selector` on the HTML `document`: `None`
/// where the selector does not parse; otherwise, for each element selected,
/// in the order of `Html::select`, its descendant text nodes and the value
/// of its attribute named `attribute`.
pub uninterp spec fn selected_elements(
    document: Seq<char>,
    selector: Seq<char>,
    attribute: Seq<char>,
) -> Option<Seq<(Seq<Seq<char>>, Option<Seq<char>>)>>;

/// Runs scraper's CSS query: `scraper::Selector::parse(selector)`, then
/// `scraper::Html::parse_document(document)`, `Html::select`, and for each
/// element `ElementRef::text` and `Element::attr(attribute)`.
/// Trusted: the error comes exactly when the selector does not parse, and
/// the elements are what `selected_elements` names for the three strings
/// (the parse and the query depend on them alone). Nothing is claimed of
/// what that name is on given strings.
#[verifier::external_body]
fn query_document(document: &str, selector: &str, attribute: &str) -> (r: Result<
    Vec<Element>,
    scraper::error::SelectorErrorKind,
>)
    ensures
        match r {
            Ok(v) => selected_elements(document@, selector@, attribute@) == Some(
                elements_view(v@),
            ),
            Err(_) => selected_elements(document@, selector@, attribute@) is None,
        },
{
    let selector = scraper::Selector::parse(selector)?;
    let html = scraper::Html::parse_document(document);
    Ok(html.select(&selector).map(|e| Element {
        text: e.text().map(|t| t.to_string()).collect(),
        attribute: e.value().attr(attribute).map(|a| a.to_string()),
    }).collect())
}

/// The elements that `selector` selects in `document`, each with its text
/// nodes and its attribute named `attribute`.
pub fn select_elements(document: &str, selector: &str, attribute: &str) -> (r: Result<
    Vec<Element>,
    ScrapeError,
>)
    ensures
        match selected_elements(document@, selector@, attribute@) {
            None => r == Err::<Vec<Element>, ScrapeError>(ScrapeError::InvalidSelector),
            Some(els) => r matches Ok(v) && elements_view(v@) == els,
        },
{
    match query_document(document, selector, attribute) {
        Ok(v) => Ok(v),
        Err(_) => Err(ScrapeError::InvalidSelector),
    }
}

/// What the regex crate gives for `pattern` on `haystack`: `None` where the
/// pattern does not compile; `Some(None)` where it does not match;
/// otherwise `Some(Some(g))`, with `g` the text of the capture group named
/// `group` in the first match, or `None` where that group took no part.
pub uninterp spec fn regex_capture(
    pattern: Seq<char>,
    group: Seq<char>,
    haystack: Seq<char>,
) -> Option<Option<Option<Seq<char>>>>;

/// The text of a capture as plain values.
pub open spec fn capture_view(c: Option<Option<String>>) -> Option<Option<Seq<char>>> {
    match c {
        None => None,
        Some(g) => Some(option_view(g)),
    }
}

/// The pattern whose capture is the first run of digits.
pub open spec fn digit_run_pattern() -> Seq<char> {
    r"(?x)(?P<count>\d+)"@
}

/// The group of `digit_run_pattern`.
pub open spec fn digit_run_group() -> Seq<char> {
    "count"@
}

/// The pattern whose capture is the first number.
pub open spec fn number_pattern() -> Seq<char> {
    r"(?x)(?P<score>\d+\.\d|\d+)"@
}

/// The group of `number_pattern`.
pub open spec fn number_group() -> Seq<char> {
    "score"@
}

/// What a capture gives where the text `found` is looked for: no match
/// where there is none, otherwise a match whose group holds `found`.
pub open spec fn found_capture(found: Option<Seq<char>>) -> Option<Option<Seq<char>>> {
    match found {
        None => None,
        Some(t) => Some(Some(t)),
    }
}

/// Runs `regex::Regex::new(pattern)`, then `Regex::captures(haystack)` and
/// `Captures::name(group)`.
/// Trusted: the error comes exactly when the pattern does not compile, and
/// otherwise the result is what `regex_capture` names for the three
/// strings; a captured text is a substring of the haystack (the regex
/// documentation: a `Match` is a range of the haystack). Of two patterns
/// the capture is stated, on a haystack whose characters all lie below
/// U+0660 (where the regex class `\d`, Unicode `Nd`, is `0`-`9`): the
/// pattern `(?x)(?P<count>\d+)` captures in `count` the first run of digits,
/// taken whole (leftmost-first, greedy); the pattern
/// `(?x)(?P<score>\d+\.\d|\d+)` captures in `score` the first run of
/// digits, taken whole, with a `.` and one digit where they follow (the
/// first alternative is preferred at the leftmost start, which is the first
/// digit); both capture nothing on a haystack without a digit; and both
/// compile (the call fails only on other patterns). Nothing else
/// is claimed of which text a pattern captures.
#[verifier::external_body]
fn regex_captures(pattern: &str, group: &str, haystack: &str) -> (r: Result<
    Option<Option<String>>,
    regex::Error,
>)
    ensures
        match r {
            Ok(c) => regex_capture(pattern@, group@, haystack@) == Some(capture_view(c)),
            Err(_) => regex_capture(pattern@, group@, haystack@) is None,
        },
        r matches Ok(Some(Some(g))) ==> contains_seq(haystack@, g@),
        r is Ok || (pattern@ != digit_run_pattern() && pattern@ != number_pattern()),
        r matches Ok(c) ==> (pattern@ == digit_run_pattern() && group@ == digit_run_group()
            && narrow_digits(haystack@) ==> capture_view(c) == found_capture(
            first_digit_run(haystack@),
        )),
        r matches Ok(c) ==> (pattern@ == number_pattern() && group@ == number_group()
            && narrow_digits(haystack@) ==> capture_view(c) == found_capture(
            first_number(haystack@),
        )),
{
    let re = regex::Regex::new(pattern)?;
    Ok(match re.captures(haystack) {
        Some(caps) => Some(caps.name(group).map(|m| m.as_str().to_string())),
        None => None,
    })
}

/// The text that the group named `group` of `pattern` captures in its first
/// match in `haystack`, as `regex_capture` says, with a pattern that does
/// not compile reported as `InvalidPattern`.
pub fn capture(pattern: &str, group: &str, haystack: &str) -> (r: Result<
    Option<Option<String>>,
    ScrapeError,
>)
    ensures
        match regex_capture(pattern@, group@, haystack@) {
            None => r == Err::<Option<Option<String>>, ScrapeError>(ScrapeError::InvalidPattern),
            Some(c) => r matches Ok(v) && capture_view(v) == c,
        },
        r matches Ok(Some(Some(g))) ==> contains_seq(haystack@, g@),
        r is Ok || (pattern@ != digit_run_pattern() && pattern@ != number_pattern()),
        r matches Ok(c) ==> (pattern@ == digit_run_pattern() && group@ == digit_run_group()
            && narrow_digits(haystack@) ==> capture_view(c) == found_capture(
            first_digit_run(haystack@),
        )),
        r matches Ok(c) ==> (pattern@ == number_pattern() && group@ == number_group()
            && narrow_digits(haystack@) ==> capture_view(c) == found_capture(
            first_number(haystack@),
        )),
{
    match regex_captures(pattern, group, haystack) {
        Ok(c) => Ok(c),
        Err(_) => Err(ScrapeError::InvalidPattern),
    }
}

} // verus!
