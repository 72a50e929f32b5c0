use comic_scraper::basic_lambda::{name_or_error_message, parse_name, series_link};
use comic_scraper::scrape::{capture, select_elements, Element, ScrapeError};

const PAGE: &str = r#"<html><body>
<div class="series-buttons"><a class="series" href="/comic-books/reviews/marvel-comics/immortal-x-men-(2022)">Series</a></div>
</body></html>"#;

#[test]
fn basic_parse_name_reads_series_link() {
    assert_eq!(
        parse_name(PAGE),
        Ok("/comic-books/reviews/marvel-comics/immortal-x-men-(2022)".to_string())
    );
}

#[test]
fn basic_parse_name_without_series_is_na() {
    assert_eq!(parse_name("<html><body><p>nothing</p></body></html>"), Ok("N/A".to_string()));
}

#[test]
fn basic_parse_name_series_without_link_is_reported() {
    let page = r#"<div class="series-buttons"><a class="series">Series</a></div>"#;
    assert_eq!(parse_name(page), Err(ScrapeError::MissingAttribute));
}

#[test]
fn series_link_takes_first_element() {
    let elements = vec![
        Element { text: vec![], attribute: Some("/first".to_string()) },
        Element { text: vec![], attribute: Some("/second".to_string()) },
    ];
    assert_eq!(series_link(&elements), "/first");
    assert_eq!(series_link(&Vec::new()), "N/A");
}

#[test]
fn name_or_error_message_answers_message_on_failure() {
    assert_eq!(name_or_error_message(Ok("/a".to_string())), "/a");
    assert_eq!(
        name_or_error_message(Err(ScrapeError::InvalidSelector)),
        "Some error retrieving name"
    );
}

#[test]
fn select_elements_reports_bad_selector() {
    assert_eq!(select_elements(PAGE, "div[", "href").err(), Some(ScrapeError::InvalidSelector));
}

#[test]
fn select_elements_reads_text_nodes_and_attribute() {
    let page = r#"<ul><li class="t"><span>Critic</span> Reviews <b>12</b></li><li class="t" href="x">User</li></ul>"#;
    let els = select_elements(page, "li.t", "href").unwrap();
    assert_eq!(els.len(), 2);
    assert_eq!(els[0].text, vec!["Critic".to_string(), " Reviews ".to_string(), "12".to_string()]);
    assert_eq!(els[0].attribute, None);
    assert_eq!(els[1].attribute, Some("x".to_string()));
}

#[test]
fn capture_reads_named_group() {
    assert_eq!(capture(r"(?P<n>\d+)", "n", "abc 42 7"), Ok(Some(Some("42".to_string()))));
    assert_eq!(capture(r"(?P<n>\d+)", "n", "none"), Ok(None));
    assert_eq!(capture(r"(?P<n>\d+)|x", "n", "x"), Ok(Some(None)));
    assert_eq!(capture("(", "n", "x"), Err(ScrapeError::InvalidPattern));
}
