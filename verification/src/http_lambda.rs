//! The issue details lambda: reads the series id, the title, the credits,
//! the publisher, the release date, the cover price and the review counts
//! and scores out of a comic issue page.
use crate::scrape::{
    capture, digit_run_group, digit_run_pattern, number_group, number_pattern, elements_view, option_result_view, option_view, regex_capture, select_elements,
    selected_elements, Element, ElementView, ScrapeError,
};
use crate::text::{
    concat_all, concat_texts, contains, contains_seq, has_digit, is_first_digit_run,
    is_first_number, join_with, law_first_digit_run, law_first_number, law_join_split,
    narrow_digits,
    law_split_pieces_free_of_separator,
    lemma_split_from_nonempty, split_by, split_on, views,
};
use vstd::prelude::*;
use vstd::string::*;

verus! {

/// The page read when the request names none.
pub const DEFAULT_URL: &'static str =
    "https://comicbookroundup.com/comic-books/reviews/marvel-comics/immortal-x-men-(2022)/8";

/// The attribute that holds a link.
pub const LINK_ATTRIBUTE: &'static str = "href";

/// The series link, whose last path segment is the series id.
pub const ID_SELECTOR: &'static str = "div.series-buttons a.series";

/// The issue title.
pub const NAME_SELECTOR: &'static str = ".issue div.container div.right h1 span";

/// The labelled details of the issue (writer, artist, publisher, ...).
pub const INFO_SELECTOR: &'static str = ".issue div.container div.right div.left span";

/// The review tabs, which hold the review counts.
pub const TABS_SELECTOR: &'static str = ".divider div.container ul.tabs li";

/// The rating boxes, which hold the review scores.
pub const SCORE_SELECTOR: &'static str = ".issue div.container div.right div.right div";

/// A review count: the first run of digits.
pub const COUNT_PATTERN: &'static str = r"(?x)(?P<count>\d+)";

/// The group of `COUNT_PATTERN` that is read.
pub const COUNT_GROUP: &'static str = "count";

/// A review score: digits with one decimal, or digits alone.
pub const SCORE_PATTERN: &'static str = r"(?x)(?P<score>\d+\.\d|\d+)";

/// The group of `SCORE_PATTERN` that is read.
pub const SCORE_GROUP: &'static str = "score";

/// The score given where a rating box holds no number.
pub const NO_SCORE: &'static str = "0";

/// What separates the names of a credit list.
pub const LIST_SEPARATOR: &'static str = ", ";

/// What separates the segments of a link.
pub const PATH_SEPARATOR: &'static str = "/";

/// The request body of the lambda.
pub struct LambdaRequest {
    pub url: String,
}

/// The page that the request asks for: the url of its body, or
/// `DEFAULT_URL` where the body holds none.
pub fn parse_url_from_request(request: Option<LambdaRequest>) -> (url: String)
    ensures
        url@ == match request {
            Some(r) => r.url@,
            None => DEFAULT_URL@,
        },
{
    match request {
        Some(r) => r.url,
        None => String::from_str(DEFAULT_URL),
    }
}

/// The series id and the title of an issue.
pub struct IdName {
    pub id: Option<String>,
    pub name: Option<String>,
}

impl View for IdName {
    type V = (Option<Seq<char>>, Option<Seq<char>>);

    open spec fn view(&self) -> (Option<Seq<char>>, Option<Seq<char>>) {
        (option_view(self.id), option_view(self.name))
    }
}

/// The last segment of a link.
pub open spec fn last_segment(link: Seq<char>) -> Seq<char> {
    split_on(link, PATH_SEPARATOR@).last()
}

/// The series id: the last segment of the link of the first series element.
pub open spec fn id_of(els: Seq<ElementView>) -> Option<Seq<char>> {
    if els.len() == 0 {
        None
    } else {
        Some(last_segment(els[0].1.unwrap()))
    }
}

/// The title: the text of the first title element.
pub open spec fn name_of(els: Seq<ElementView>) -> Option<Seq<char>> {
    if els.len() == 0 {
        None
    } else {
        Some(concat_all(els[0].0))
    }
}

/// The last segment of `link` (`link.split('/').last()`).
pub fn last_path_segment(link: &str) -> (segment: String)
    ensures
        segment@ == last_segment(link@),
{
    proof {
        reveal_strlit("/");
    }
    let mut parts = split_by(link, PATH_SEPARATOR);
    proof {
        lemma_split_from_nonempty(link@, PATH_SEPARATOR@, 0);
    }
    let n = parts.len();
    parts.remove(n - 1)
}

/// Law: the series id holds no `/`, and the link ends with it.
pub proof fn law_last_segment(link: Seq<char>)
    ensures
        !contains_seq(last_segment(link), PATH_SEPARATOR@),
        last_segment(link).len() <= link.len(),
        link.subrange(link.len() - last_segment(link).len(), link.len() as int) == last_segment(
            link,
        ),
{
    reveal_strlit("/");
    law_split_pieces_free_of_separator(link, PATH_SEPARATOR@);
    lemma_split_from_nonempty(link, PATH_SEPARATOR@, 0);
    lemma_last_piece_is_suffix(link, PATH_SEPARATOR@, 0);
}

/// The last piece of `s[start..]` split on `sep` is a suffix of `s`.
proof fn lemma_last_piece_is_suffix(s: Seq<char>, sep: Seq<char>, start: int)
    requires
        sep.len() > 0,
        0 <= start <= s.len(),
    ensures
        crate::text::split_from(s, sep, start).last().len() <= s.len() - start,
        s.subrange(
            s.len() - crate::text::split_from(s, sep, start).last().len(),
            s.len() as int,
        ) == crate::text::split_from(s, sep, start).last(),
    decreases s.len() - start,
{
    crate::text::lemma_find_from(s, sep, start);
    match crate::text::find_from(s, sep, start) {
        None => {},
        Some(i) => {
            lemma_split_from_nonempty(s, sep, i + sep.len());
            lemma_last_piece_is_suffix(s, sep, i + sep.len());
        },
    }
}

/// The series id and title among the selected series and title elements.
pub fn id_name_from(id_elements: &Vec<Element>, name_elements: &Vec<Element>) -> (r: IdName)
    requires
        id_elements@.len() > 0 ==> id_elements@[0].attribute is Some,
    ensures
        r@ == (id_of(elements_view(id_elements@)), name_of(elements_view(name_elements@))),
        r.name is Some <==> name_elements@.len() > 0,
        r.name matches Some(n) ==> n@ == concat_all(views(name_elements@[0].text@)),
        r.id is Some <==> id_elements@.len() > 0,
        r.id matches Some(id) ==> {
            let link = id_elements@[0].attribute.unwrap()@;
            &&& !contains_seq(id@, "/"@)
            &&& id@.len() <= link.len()
            &&& link.subrange(link.len() - id@.len(), link.len() as int) == id@
            &&& id@ == split_on(link, "/"@).last()
        },
{
    proof {
        if id_elements@.len() > 0 {
            law_last_segment(id_elements@[0].attribute.unwrap()@);
        }
    }
    let name = if name_elements.len() == 0 {
        None
    } else {
        Some(concat_texts(&name_elements[0].text))
    };
    let id = if id_elements.len() == 0 {
        None
    } else {
        match &id_elements[0].attribute {
            Some(link) => Some(last_path_segment(link.as_str())),
            None => None,
        }
    };
    IdName { id, name }
}

/// What reading the series id and title of `page` gives.
pub open spec fn parse_name_outcome(page: Seq<char>) -> Result<
    (Option<Seq<char>>, Option<Seq<char>>),
    ScrapeError,
> {
    match selected_elements(page, ID_SELECTOR@, LINK_ATTRIBUTE@) {
        None => Err(ScrapeError::InvalidSelector),
        Some(ids) => match selected_elements(page, NAME_SELECTOR@, LINK_ATTRIBUTE@) {
            None => Err(ScrapeError::InvalidSelector),
            Some(names) => if ids.len() > 0 && ids[0].1 is None {
                Err(ScrapeError::MissingAttribute)
            } else {
                Ok((id_of(ids), name_of(names)))
            },
        },
    }
}

/// The series id and the title of the issue page `response`. A first series
/// element without a link is reported as `MissingAttribute`.
pub fn parse_name(response: &str) -> (r: Result<IdName, ScrapeError>)
    ensures
        match r {
            Ok(id_name) => parse_name_outcome(response@) == Ok::<
                (Option<Seq<char>>, Option<Seq<char>>),
                ScrapeError,
            >(id_name@),
            Err(e) => parse_name_outcome(response@) == Err::<
                (Option<Seq<char>>, Option<Seq<char>>),
                ScrapeError,
            >(e),
        },
{
    let ids = match select_elements(response, ID_SELECTOR, LINK_ATTRIBUTE) {
        Ok(v) => v,
        Err(e) => return Err(e),
    };
    let names = match select_elements(response, NAME_SELECTOR, LINK_ATTRIBUTE) {
        Ok(v) => v,
        Err(e) => return Err(e),
    };
    if ids.len() > 0 && ids[0].attribute.is_none() {
        return Err(ScrapeError::MissingAttribute);
    }
    Ok(id_name_from(&ids, &names))
}

/// The text of an element holds `field`.
pub open spec fn text_contains(e: ElementView, field: Seq<char>) -> bool {
    contains_seq(concat_all(e.0), field)
}

/// The index of the first element at or after `k` whose text holds `field`.
pub open spec fn first_containing_from(els: Seq<ElementView>, field: Seq<char>, k: int) -> Option<
    int,
>
    decreases els.len() - k,
{
    if k < 0 || k >= els.len() {
        None
    } else if text_contains(els[k], field) {
        Some(k)
    } else {
        first_containing_from(els, field, k + 1)
    }
}

/// The index of the first element whose text holds `field`.
pub open spec fn first_containing(els: Seq<ElementView>, field: Seq<char>) -> Option<int> {
    first_containing_from(els, field, 0)
}

/// Law: `first_containing` finds the first element whose text holds the
/// field, and finds none only where no element's text holds it.
pub proof fn law_first_containing(els: Seq<ElementView>, field: Seq<char>)
    ensures
        match first_containing(els, field) {
            Some(k) => {
                &&& 0 <= k < els.len()
                &&& text_contains(els[k], field)
                &&& forall|j: int| 0 <= j < k ==> !text_contains(#[trigger] els[j], field)
            },
            None => forall|j: int| 0 <= j < els.len() ==> !text_contains(#[trigger] els[j], field),
        },
{
    lemma_first_containing_from(els, field, 0);
}

proof fn lemma_first_containing_from(els: Seq<ElementView>, field: Seq<char>, k: int)
    requires
        0 <= k,
    ensures
        match first_containing_from(els, field, k) {
            Some(i) => {
                &&& k <= i < els.len()
                &&& text_contains(els[i], field)
                &&& forall|j: int| k <= j < i ==> !text_contains(#[trigger] els[j], field)
            },
            None => forall|j: int| k <= j < els.len() ==> !text_contains(#[trigger] els[j], field),
        },
    decreases els.len() - k,
{
    if k < els.len() && !text_contains(els[k], field) {
        lemma_first_containing_from(els, field, k + 1);
    }
}

/// The index of the first element whose text holds `field`.
pub fn find_containing(elements: &Vec<Element>, field: &str) -> (r: Option<usize>)
    ensures
        match r {
            Some(k) => k < elements@.len() && first_containing(elements_view(elements@), field@)
                == Some(k as int),
            None => first_containing(elements_view(elements@), field@) is None,
        },
{
    let ghost ev = elements_view(elements@);
    let mut k: usize = 0;
    while k < elements.len()
        invariant
            k <= elements@.len(),
            ev == elements_view(elements@),
            first_containing(ev, field@) == first_containing_from(ev, field@, k as int),
        decreases elements@.len() - k,
    {
        let joined = concat_texts(&elements[k].text);
        assert(ev[k as int] == elements@[k as int]@);
        if contains(joined.as_str(), field) {
            assert(first_containing_from(ev, field@, k as int) == Some(k as int));
            return Some(k);
        }
        k = k + 1;
    }
    None
}

/// The last text node of the first element whose text holds `field`.
pub open spec fn last_text_of_first_containing(els: Seq<ElementView>, field: Seq<char>) -> Option<
    Seq<char>,
> {
    match first_containing(els, field) {
        None => None,
        Some(k) => Some(els[k].0.last()),
    }
}

/// Law: the value read for a field is the last text node of the first
/// element whose text holds the field, and nothing is read only where no
/// element's text holds it.
pub proof fn law_last_text_of_first_containing(els: Seq<ElementView>, field: Seq<char>)
    ensures
        last_text_of_first_containing(els, field) is None <==> forall|j: int|
            0 <= j < els.len() ==> !text_contains(#[trigger] els[j], field),
        first_containing_has_text(els, field) ==> (last_text_of_first_containing(els, field) matches Some(t)
            ==> exists|k: int|
            0 <= k < els.len() && #[trigger] text_contains(els[k], field) && (forall|j: int|
                0 <= j < k ==> !text_contains(#[trigger] els[j], field)) && els[k].0.len() > 0 && t
                == els[k].0[els[k].0.len() - 1]),
{
    law_first_containing(els, field);
    if let Some(k) = first_containing(els, field) {
        assert(text_contains(els[k], field));
    }
}

/// The first element whose text holds `field` has a text node.
pub open spec fn first_containing_has_text(els: Seq<ElementView>, field: Seq<char>) -> bool {
    match first_containing(els, field) {
        None => true,
        Some(k) => els[k].0.len() > 0,
    }
}

/// The value of the labelled detail `field` among the selected detail
/// elements: the last text node of the first one whose text holds `field`.
pub fn info_field_from(elements: &Vec<Element>, field: &str) -> (r: Option<String>)
    requires
        first_containing_has_text(elements_view(elements@), field@),
    ensures
        option_view(r) == last_text_of_first_containing(elements_view(elements@), field@),
        r is None <==> forall|j: int|
            0 <= j < elements@.len() ==> !text_contains(
                #[trigger] elements_view(elements@)[j],
                field@,
            ),
        r matches Some(t) ==> exists|k: int|
            0 <= k < elements@.len() && #[trigger] text_contains(elements_view(elements@)[k], field@)
                && (forall|j: int|
                0 <= j < k ==> !text_contains(#[trigger] elements_view(elements@)[j], field@))
                && elements_view(elements@)[k].0.len() > 0 && t@ == elements_view(elements@)[k].0[
                elements_view(elements@)[k].0.len() - 1],
{
    proof {
        law_last_text_of_first_containing(elements_view(elements@), field@);
    }
    match find_containing(elements, field) {
        None => None,
        Some(k) => {
            let texts = &elements[k].text;
            let ghost e = elements_view(elements@)[k as int];
            assert(e == elements@[k as int]@);
            assert(e.0 == views(texts@));
            assert(e.0.len() == texts@.len());
            assert(e.0.last() == texts@[texts@.len() - 1]@);
            Some(texts[texts.len() - 1].clone())
        },
    }
}

/// What the selected elements give for `field` read as the last text node
/// of the first element whose text holds it.
pub open spec fn last_text_outcome(els: Seq<ElementView>, field: Seq<char>) -> Result<
    Option<Seq<char>>,
    ScrapeError,
> {
    if first_containing_has_text(els, field) {
        Ok(last_text_of_first_containing(els, field))
    } else {
        Err(ScrapeError::MissingText)
    }
}

/// The last text node of the first element whose text holds `field`, with
/// an element without text reported as `MissingText`.
fn last_text_checked(elements: &Vec<Element>, field: &str) -> (r: Result<
    Option<String>,
    ScrapeError,
>)
    ensures
        option_result_view(r) == last_text_outcome(elements_view(elements@), field@),
{
    match find_containing(elements, field) {
        Some(k) => {
            let ghost e = elements_view(elements@)[k as int];
            assert(e == elements@[k as int]@);
            assert(e.0.len() == elements@[k as int].text@.len());
            if elements[k].text.len() == 0 {
                return Err(ScrapeError::MissingText);
            }
        },
        None => {},
    }
    Ok(info_field_from(elements, field))
}

/// What reading the detail `field` of `page` gives.
pub open spec fn comic_info_field_outcome(page: Seq<char>, field: Seq<char>) -> Result<
    Option<Seq<char>>,
    ScrapeError,
> {
    match selected_elements(page, INFO_SELECTOR@, LINK_ATTRIBUTE@) {
        None => Err(ScrapeError::InvalidSelector),
        Some(els) => last_text_outcome(els, field),
    }
}

/// The value of the labelled detail `field` (such as "Writer") of the issue
/// page `response`, or `None` where no detail holds `field`.
pub fn parse_comic_info_field(response: &str, field: &str) -> (r: Result<
    Option<String>,
    ScrapeError,
>)
    ensures
        option_result_view(r) == comic_info_field_outcome(response@, field@),
{
    let elements = match select_elements(response, INFO_SELECTOR, LINK_ATTRIBUTE) {
        Ok(v) => v,
        Err(e) => return Err(e),
    };
    last_text_checked(&elements, field)
}

/// A review count out of the capture of `COUNT_PATTERN`: the captured text.
pub fn count_from_capture(capture: Option<Option<String>>) -> (count: String)
    requires
        capture matches Some(Some(_)),
    ensures
        capture matches Some(Some(c)) && count@ == c@,
{
    match capture {
        Some(Some(c)) => c,
        _ => String::new(),
    }
}

/// What a capture gives as a review count.
pub open spec fn count_outcome(capture: Option<Option<Option<Seq<char>>>>) -> Result<
    Option<Seq<char>>,
    ScrapeError,
> {
    match capture {
        None => Err(ScrapeError::InvalidPattern),
        Some(Some(Some(c))) => Ok(Some(c)),
        Some(_) => Err(ScrapeError::NoMatch),
    }
}

/// What reading the review count labelled `field` of `page` gives.
pub open spec fn review_count_outcome(page: Seq<char>, field: Seq<char>) -> Result<
    Option<Seq<char>>,
    ScrapeError,
> {
    match selected_elements(page, TABS_SELECTOR@, LINK_ATTRIBUTE@) {
        None => Err(ScrapeError::InvalidSelector),
        Some(els) => match last_text_outcome(els, field) {
            Err(e) => Err(e),
            Ok(None) => Ok(None),
            Ok(Some(text)) => count_outcome(regex_capture(COUNT_PATTERN@, COUNT_GROUP@, text)),
        },
    }
}

/// The review count of the tab labelled `field` (such as "Critic Reviews")
/// of the issue page `response`: the first run of digits in the tab's last
/// text node, or `None` where no tab holds `field`. A tab without digits is
/// reported as `NoMatch`.
pub fn parse_review_count(response: &str, field: &str) -> (r: Result<
    Option<String>,
    ScrapeError,
>)
    ensures
        option_result_view(r) == review_count_outcome(response@, field@),
        r matches Ok(Some(count)) ==> exists|text: Seq<char>|
            last_text_outcome(
                selected_elements(response@, TABS_SELECTOR@, LINK_ATTRIBUTE@).unwrap(),
                field@,
            ) == Ok::<Option<Seq<char>>, ScrapeError>(Some(text)) && contains_seq(text, count@),
        selected_elements(response@, TABS_SELECTOR@, LINK_ATTRIBUTE@) matches Some(els) ==> (
        last_text_outcome(els, field@) matches Ok(Some(text)) ==> (narrow_digits(text) ==> (if has_digit(
            text,
        ) {
            r matches Ok(Some(count)) && is_first_digit_run(text, count@)
        } else {
            r == Err::<Option<String>, ScrapeError>(ScrapeError::NoMatch)
        }))),
{
    proof {
        reveal_strlit(r"(?x)(?P<count>\d+)");
        reveal_strlit("count");
        assert(COUNT_PATTERN@ == digit_run_pattern());
        assert(COUNT_GROUP@ == digit_run_group());
    }
    let elements = match select_elements(response, TABS_SELECTOR, LINK_ATTRIBUTE) {
        Ok(v) => v,
        Err(e) => return Err(e),
    };
    let text = match last_text_checked(&elements, field) {
        Err(e) => return Err(e),
        Ok(None) => return Ok(None),
        Ok(Some(t)) => t,
    };
    let captured = match capture(COUNT_PATTERN, COUNT_GROUP, text.as_str()) {
        Err(e) => return Err(e),
        Ok(c) => c,
    };
    proof {
        law_first_digit_run(text@);
    }
    match captured {
        Some(Some(_)) => Ok(Some(count_from_capture(captured))),
        _ => Err(ScrapeError::NoMatch),
    }
}

/// The text of the first element whose text holds `field`.
pub open spec fn joined_text_of_first_containing(els: Seq<ElementView>, field: Seq<char>) -> Option<
    Seq<char>,
> {
    match first_containing(els, field) {
        None => None,
        Some(k) => Some(concat_all(els[k].0)),
    }
}

/// The text of the first rating box whose text holds `field`.
pub fn score_text_from(elements: &Vec<Element>, field: &str) -> (r: Option<String>)
    ensures
        option_view(r) == joined_text_of_first_containing(elements_view(elements@), field@),
{
    match find_containing(elements, field) {
        None => None,
        Some(k) => {
            let ghost e = elements_view(elements@)[k as int];
            assert(e == elements@[k as int]@);
            assert(e.0 == views(elements@[k as int].text@));
            Some(concat_texts(&elements[k].text))
        },
    }
}

/// A review score out of the capture of `SCORE_PATTERN`: the captured
/// text, or `NO_SCORE` where the pattern did not match.
pub fn score_from_capture(capture: Option<Option<String>>) -> (score: String)
    requires
        !(capture matches Some(None)),
    ensures
        score@ == match capture {
            Some(Some(c)) => c@,
            _ => NO_SCORE@,
        },
{
    match capture {
        Some(Some(c)) => c,
        _ => String::from_str(NO_SCORE),
    }
}

/// What a capture gives as a review score.
pub open spec fn score_outcome(capture: Option<Option<Option<Seq<char>>>>) -> Result<
    Option<Seq<char>>,
    ScrapeError,
> {
    match capture {
        None => Err(ScrapeError::InvalidPattern),
        Some(None) => Ok(Some(NO_SCORE@)),
        Some(Some(Some(c))) => Ok(Some(c)),
        Some(Some(None)) => Err(ScrapeError::NoMatch),
    }
}

/// What reading the review score labelled `field` of `page` gives.
pub open spec fn review_score_outcome(page: Seq<char>, field: Seq<char>) -> Result<
    Option<Seq<char>>,
    ScrapeError,
> {
    match selected_elements(page, SCORE_SELECTOR@, LINK_ATTRIBUTE@) {
        None => Err(ScrapeError::InvalidSelector),
        Some(els) => match joined_text_of_first_containing(els, field) {
            None => Ok(None),
            Some(text) => score_outcome(regex_capture(SCORE_PATTERN@, SCORE_GROUP@, text)),
        },
    }
}

/// The review score of the rating box labelled `field` (such as "Critic
/// Rating") of the issue page `response`: the first number in the box's
/// text, `NO_SCORE` where it holds none, or `None` where no box holds
/// `field`.
pub fn parse_review_score(response: &str, field: &str) -> (r: Result<
    Option<String>,
    ScrapeError,
>)
    ensures
        option_result_view(r) == review_score_outcome(response@, field@),
        r matches Ok(Some(score)) ==> score@ == NO_SCORE@ || exists|text: Seq<char>|
            joined_text_of_first_containing(
                selected_elements(response@, SCORE_SELECTOR@, LINK_ATTRIBUTE@).unwrap(),
                field@,
            ) == Some(text) && contains_seq(text, score@),
        selected_elements(response@, SCORE_SELECTOR@, LINK_ATTRIBUTE@) matches Some(els) ==> (
        joined_text_of_first_containing(els, field@) matches Some(text) ==> (narrow_digits(text) ==> (
        r matches Ok(Some(score)) && if has_digit(text) {
            is_first_number(text, score@)
        } else {
            score@ == "0"@
        }))),
{
    proof {
        reveal_strlit(r"(?x)(?P<score>\d+\.\d|\d+)");
        reveal_strlit("score");
        assert(SCORE_PATTERN@ == number_pattern());
        assert(SCORE_GROUP@ == number_group());
    }
    let elements = match select_elements(response, SCORE_SELECTOR, LINK_ATTRIBUTE) {
        Ok(v) => v,
        Err(e) => return Err(e),
    };
    let text = match score_text_from(&elements, field) {
        None => return Ok(None),
        Some(t) => t,
    };
    let captured = match capture(SCORE_PATTERN, SCORE_GROUP, text.as_str()) {
        Err(e) => return Err(e),
        Ok(c) => c,
    };
    proof {
        law_first_number(text@);
    }
    match captured {
        Some(None) => Err(ScrapeError::NoMatch),
        _ => Ok(Some(score_from_capture(captured))),
    }
}

/// The label of the writers.
pub const WRITER_FIELD: &'static str = "Writer";

/// The label of the artists.
pub const ARTIST_FIELD: &'static str = "Artist";

/// The label of the publisher.
pub const PUBLISHER_FIELD: &'static str = "Publisher";

/// The label of the release date.
pub const RELEASE_DATE_FIELD: &'static str = "Release Date";

/// The label of the cover price.
pub const COVER_PRICE_FIELD: &'static str = "Cover Price";

/// The label of the critic review count.
pub const CRITIC_REVIEWS_FIELD: &'static str = "Critic Reviews";

/// The label of the user review count.
pub const USER_REVIEWS_FIELD: &'static str = "User Reviews";

/// The label of the critic score.
pub const CRITIC_RATING_FIELD: &'static str = "Critic Rating";

/// The label of the user score.
pub const USER_RATING_FIELD: &'static str = "User Rating";

/// The details of a comic issue that the lambda answers.
pub struct ComicInfo {
    pub id: Option<String>,
    pub name: Option<String>,
    pub writers: Option<Vec<String>>,
    pub artists: Option<Vec<String>>,
    pub publisher: Option<String>,
    pub release_date: Option<String>,
    pub cover_price: Option<String>,
    pub critic_review_count: Option<String>,
    pub user_review_count: Option<String>,
    pub critic_review_score: Option<String>,
    pub user_review_score: Option<String>,
}

/// The details of a comic issue as plain values.
pub struct ComicInfoView {
    pub id: Option<Seq<char>>,
    pub name: Option<Seq<char>>,
    pub writers: Option<Seq<Seq<char>>>,
    pub artists: Option<Seq<Seq<char>>>,
    pub publisher: Option<Seq<char>>,
    pub release_date: Option<Seq<char>>,
    pub cover_price: Option<Seq<char>>,
    pub critic_review_count: Option<Seq<char>>,
    pub user_review_count: Option<Seq<char>>,
    pub critic_review_score: Option<Seq<char>>,
    pub user_review_score: Option<Seq<char>>,
}

/// The text of each name of an optional list.
pub open spec fn list_view(o: Option<Vec<String>>) -> Option<Seq<Seq<char>>> {
    match o {
        Some(v) => Some(views(v@)),
        None => None,
    }
}

impl View for ComicInfo {
    type V = ComicInfoView;

    open spec fn view(&self) -> ComicInfoView {
        ComicInfoView {
            id: option_view(self.id),
            name: option_view(self.name),
            writers: list_view(self.writers),
            artists: list_view(self.artists),
            publisher: option_view(self.publisher),
            release_date: option_view(self.release_date),
            cover_price: option_view(self.cover_price),
            critic_review_count: option_view(self.critic_review_count),
            user_review_count: option_view(self.user_review_count),
            critic_review_score: option_view(self.critic_review_score),
            user_review_score: option_view(self.user_review_score),
        }
    }
}

/// A credit read as a list of names: split on `LIST_SEPARATOR`.
pub open spec fn split_list(credit: Option<Seq<char>>) -> Option<Seq<Seq<char>>> {
    match credit {
        Some(t) => Some(split_on(t, LIST_SEPARATOR@)),
        None => None,
    }
}

/// A credit read as a list of names: split on `LIST_SEPARATOR`.
pub fn names_list(credit: Option<String>) -> (names: Option<Vec<String>>)
    ensures
        list_view(names) == split_list(option_view(credit)),
{
    proof {
        reveal_strlit(", ");
    }
    match credit {
        Some(t) => Some(split_by(t.as_str(), LIST_SEPARATOR)),
        None => None,
    }
}

/// Law: the names of a credit list, joined again with `LIST_SEPARATOR`,
/// give the credit back, and none of them holds the separator.
pub proof fn law_credit_list(credit: Seq<char>)
    ensures
        join_with(split_on(credit, LIST_SEPARATOR@), LIST_SEPARATOR@) == credit,
        forall|k: int|
            0 <= k < split_on(credit, LIST_SEPARATOR@).len() ==> !contains_seq(
                #[trigger] split_on(credit, LIST_SEPARATOR@)[k],
                LIST_SEPARATOR@,
            ),
{
    reveal_strlit(", ");
    law_join_split(credit, LIST_SEPARATOR@);
    law_split_pieces_free_of_separator(credit, LIST_SEPARATOR@);
}

/// The names of a list are the credit split on ", ": there are names
/// exactly where there is a credit, joined with ", " they give the credit
/// back, and none of them holds ", ".
pub open spec fn names_of_credit(credit: Option<Seq<char>>, names: Option<Seq<Seq<char>>>) -> bool {
    match (credit, names) {
        (None, None) => true,
        (Some(c), Some(ns)) => {
            &&& ns == split_on(c, ", "@)
            &&& join_with(ns, ", "@) == c
            &&& forall|k: int| 0 <= k < ns.len() ==> !contains_seq(#[trigger] ns[k], ", "@)
        },
        _ => false,
    }
}

/// Law: the writers and the artists of the details are the Writer and the
/// Artist credits of the page split into names.
pub proof fn law_comic_info_credits(page: Seq<char>)
    ensures
        comic_info_outcome(page) matches Ok(info) ==> {
            &&& comic_info_field_outcome(page, "Writer"@) matches Ok(w) && names_of_credit(
                w,
                info.writers,
            )
            &&& comic_info_field_outcome(page, "Artist"@) matches Ok(a) && names_of_credit(
                a,
                info.artists,
            )
        },
{
    reveal_strlit(", ");
    if let Ok(info) = comic_info_outcome(page) {
        if let Ok(Some(w)) = comic_info_field_outcome(page, WRITER_FIELD@) {
            law_credit_list(w);
        }
        if let Ok(Some(a)) = comic_info_field_outcome(page, ARTIST_FIELD@) {
            law_credit_list(a);
        }
    }
}

/// What reading all the details of `page` gives: the first failure, in the
/// order id and title, writers, artists, publisher, release date, cover
/// price, review counts, review scores, or all the details.
pub open spec fn comic_info_outcome(page: Seq<char>) -> Result<ComicInfoView, ScrapeError> {
    match parse_name_outcome(page) {
        Err(e) => Err(e),
        Ok(id_name) => match comic_info_field_outcome(page, WRITER_FIELD@) {
            Err(e) => Err(e),
            Ok(writers) => match comic_info_field_outcome(page, ARTIST_FIELD@) {
                Err(e) => Err(e),
                Ok(artists) => match comic_info_field_outcome(page, PUBLISHER_FIELD@) {
                    Err(e) => Err(e),
                    Ok(publisher) => match comic_info_field_outcome(page, RELEASE_DATE_FIELD@) {
                        Err(e) => Err(e),
                        Ok(release_date) => match comic_info_field_outcome(page, COVER_PRICE_FIELD@) {
                            Err(e) => Err(e),
                            Ok(cover_price) => match review_count_outcome(page, CRITIC_REVIEWS_FIELD@) {
                                Err(e) => Err(e),
                                Ok(critic_count) => match review_count_outcome(page, USER_REVIEWS_FIELD@) {
                                    Err(e) => Err(e),
                                    Ok(user_count) => match review_score_outcome(page, CRITIC_RATING_FIELD@) {
                                        Err(e) => Err(e),
                                        Ok(critic_score) => match review_score_outcome(page, USER_RATING_FIELD@) {
                                            Err(e) => Err(e),
                                            Ok(user_score) => Ok(ComicInfoView {
                                                id: id_name.0,
                                                name: id_name.1,
                                                writers: split_list(writers),
                                                artists: split_list(artists),
                                                publisher,
                                                release_date,
                                                cover_price,
                                                critic_review_count: critic_count,
                                                user_review_count: user_count,
                                                critic_review_score: critic_score,
                                                user_review_score: user_score,
                                            }),
                                        },
                                    },
                                },
                            },
                        },
                    },
                },
            },
        },
    }
}

/// All the details of the issue page `response` that the lambda answers,
/// or the first failure in reading them.
pub fn comic_info_from_page(response: &str) -> (r: Result<ComicInfo, ScrapeError>)
    ensures
        match r {
            Ok(info) => comic_info_outcome(response@) == Ok::<ComicInfoView, ScrapeError>(info@),
            Err(e) => comic_info_outcome(response@) == Err::<ComicInfoView, ScrapeError>(e),
        },
        r matches Ok(info) ==> {
            &&& comic_info_field_outcome(response@, "Writer"@) matches Ok(w) && names_of_credit(
                w,
                list_view(info.writers),
            )
            &&& comic_info_field_outcome(response@, "Artist"@) matches Ok(a) && names_of_credit(
                a,
                list_view(info.artists),
            )
        },
{
    proof {
        law_comic_info_credits(response@);
    }
    let id_name = match parse_name(response) {
        Ok(v) => v,
        Err(e) => return Err(e),
    };
    let writers = match parse_comic_info_field(response, WRITER_FIELD) {
        Ok(v) => v,
        Err(e) => return Err(e),
    };
    let artists = match parse_comic_info_field(response, ARTIST_FIELD) {
        Ok(v) => v,
        Err(e) => return Err(e),
    };
    let publisher = match parse_comic_info_field(response, PUBLISHER_FIELD) {
        Ok(v) => v,
        Err(e) => return Err(e),
    };
    let release_date = match parse_comic_info_field(response, RELEASE_DATE_FIELD) {
        Ok(v) => v,
        Err(e) => return Err(e),
    };
    let cover_price = match parse_comic_info_field(response, COVER_PRICE_FIELD) {
        Ok(v) => v,
        Err(e) => return Err(e),
    };
    let critic_review_count = match parse_review_count(response, CRITIC_REVIEWS_FIELD) {
        Ok(v) => v,
        Err(e) => return Err(e),
    };
    let user_review_count = match parse_review_count(response, USER_REVIEWS_FIELD) {
        Ok(v) => v,
        Err(e) => return Err(e),
    };
    let critic_review_score = match parse_review_score(response, CRITIC_RATING_FIELD) {
        Ok(v) => v,
        Err(e) => return Err(e),
    };
    let user_review_score = match parse_review_score(response, USER_RATING_FIELD) {
        Ok(v) => v,
        Err(e) => return Err(e),
    };
    let info = ComicInfo {
        id: id_name.id,
        name: id_name.name,
        writers: names_list(writers),
        artists: names_list(artists),
        publisher,
        release_date,
        cover_price,
        critic_review_count,
        user_review_count,
        critic_review_score,
        user_review_score,
    };
    Ok(info)
}

} // verus!
