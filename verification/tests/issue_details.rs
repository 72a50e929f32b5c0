use comic_scraper::http_lambda::{
    comic_info_from_page, count_from_capture, id_name_from, info_field_from, last_path_segment,
    names_list, parse_comic_info_field, parse_name, parse_review_count, parse_review_score,
    parse_url_from_request, score_from_capture, score_text_from, LambdaRequest, DEFAULT_URL,
};
use comic_scraper::scrape::{Element, ScrapeError};

const ISSUE_PAGE: &str = r#"<html><body>
<div class="series-buttons"><a class="series" href="/comic-books/reviews/marvel-comics/immortal-x-men-(2022)">Series</a></div>
<div class="divider"><div class="container"><ul class="tabs">
  <li><a>Critic Reviews <span>(12)</span></a></li>
  <li><a>User Reviews <span>(3)</span></a></li>
</ul></div></div>
<div class="issue"><div class="container"><div class="right">
  <h1><span>Immortal X-Men</span><span> #8</span></h1>
  <div class="left">
    <span><strong>Writer:</strong> Kieron Gillen, Gerry Duggan</span>
    <span><strong>Artist:</strong> Lucas Werneck</span>
    <span><strong>Publisher:</strong> Marvel</span>
    <span><strong>Release Date:</strong> Nov 9, 2022</span>
    <span><strong>Cover Price:</strong> $3.99</span>
  </div>
  <div class="right">
    <div>Critic Rating 8.7</div>
    <div>User Rating none yet</div>
  </div>
</div></div></div>
</body></html>"#;

fn texts(v: &[&str]) -> Vec<String> {
    v.iter().map(|s| s.to_string()).collect()
}

#[test]
fn issue_url_defaults_without_body() {
    assert_eq!(parse_url_from_request(None), DEFAULT_URL);
    assert_eq!(
        parse_url_from_request(Some(LambdaRequest { url: "https://x/1".to_string() })),
        "https://x/1"
    );
}

#[test]
fn last_path_segment_is_after_last_slash() {
    assert_eq!(last_path_segment("/comic-books/reviews/marvel-comics/immortal-x-men-(2022)"), "immortal-x-men-(2022)");
    assert_eq!(last_path_segment("no-slash"), "no-slash");
    assert_eq!(last_path_segment("ends/"), "");
}

#[test]
fn issue_parse_name_reads_id_and_title() {
    let id_name = parse_name(ISSUE_PAGE).unwrap();
    assert_eq!(id_name.id, Some("immortal-x-men-(2022)".to_string()));
    assert_eq!(id_name.name, Some("Immortal X-Men".to_string()));
}

#[test]
fn issue_parse_name_on_empty_page_has_neither() {
    let id_name = parse_name("<p>x</p>").unwrap();
    assert_eq!(id_name.id, None);
    assert_eq!(id_name.name, None);
}

#[test]
fn id_name_from_elements() {
    let ids = vec![Element { text: vec![], attribute: Some("/a/b".to_string()) }];
    let names = vec![Element { text: texts(&["X", "-Men"]), attribute: None }];
    let r = id_name_from(&ids, &names);
    assert_eq!(r.id, Some("b".to_string()));
    assert_eq!(r.name, Some("X-Men".to_string()));
}

#[test]
fn comic_info_field_is_last_text_node() {
    assert_eq!(parse_comic_info_field(ISSUE_PAGE, "Publisher"), Ok(Some(" Marvel".to_string())));
    assert_eq!(parse_comic_info_field(ISSUE_PAGE, "Writer"), Ok(Some(" Kieron Gillen, Gerry Duggan".to_string())));
    assert_eq!(parse_comic_info_field(ISSUE_PAGE, "Colorist"), Ok(None));
}

#[test]
fn info_field_from_takes_first_element_holding_field() {
    let els = vec![
        Element { text: texts(&["Artist:", " A"]), attribute: None },
        Element { text: texts(&["Writer:", " W1"]), attribute: None },
        Element { text: texts(&["Writer:", " W2"]), attribute: None },
    ];
    assert_eq!(info_field_from(&els, "Writer"), Some(" W1".to_string()));
    assert_eq!(info_field_from(&els, "Inker"), None);
}

#[test]
fn review_count_is_first_number_of_tab() {
    assert_eq!(parse_review_count(ISSUE_PAGE, "Critic Reviews"), Ok(Some("12".to_string())));
    assert_eq!(parse_review_count(ISSUE_PAGE, "User Reviews"), Ok(Some("3".to_string())));
    assert_eq!(parse_review_count(ISSUE_PAGE, "Staff Reviews"), Ok(None));
}

#[test]
fn review_count_without_digits_is_reported() {
    let page = r#"<div class="divider"><div class="container"><ul class="tabs"><li>Critic Reviews <span>(none)</span></li></ul></div></div>"#;
    assert_eq!(parse_review_count(page, "Critic Reviews"), Err(ScrapeError::NoMatch));
}

#[test]
fn review_score_reads_decimal_or_zero() {
    assert_eq!(parse_review_score(ISSUE_PAGE, "Critic Rating"), Ok(Some("8.7".to_string())));
    assert_eq!(parse_review_score(ISSUE_PAGE, "User Rating"), Ok(Some("0".to_string())));
    assert_eq!(parse_review_score(ISSUE_PAGE, "Staff Rating"), Ok(None));
}

#[test]
fn score_text_joins_all_text_nodes() {
    let els = vec![Element { text: texts(&["Critic Rating ", "9", ".1"]), attribute: None }];
    assert_eq!(score_text_from(&els, "Critic Rating"), Some("Critic Rating 9.1".to_string()));
}

#[test]
fn captures_become_counts_and_scores() {
    assert_eq!(count_from_capture(Some(Some("7".to_string()))), "7");
    assert_eq!(score_from_capture(Some(Some("4.5".to_string()))), "4.5");
    assert_eq!(score_from_capture(None), "0");
}

#[test]
fn names_list_splits_credits() {
    assert_eq!(names_list(Some("A, B".to_string())), Some(texts(&["A", "B"])));
    assert_eq!(names_list(None), None);
}

#[test]
fn comic_info_reads_whole_page() {
    let info = comic_info_from_page(ISSUE_PAGE).unwrap();
    assert_eq!(info.id, Some("immortal-x-men-(2022)".to_string()));
    assert_eq!(info.name, Some("Immortal X-Men".to_string()));
    assert_eq!(info.writers, Some(texts(&[" Kieron Gillen", "Gerry Duggan"])));
    assert_eq!(info.artists, Some(texts(&[" Lucas Werneck"])));
    assert_eq!(info.publisher, Some(" Marvel".to_string()));
    assert_eq!(info.release_date, Some(" Nov 9, 2022".to_string()));
    assert_eq!(info.cover_price, Some(" $3.99".to_string()));
    assert_eq!(info.critic_review_count, Some("12".to_string()));
    assert_eq!(info.user_review_count, Some("3".to_string()));
    assert_eq!(info.critic_review_score, Some("8.7".to_string()));
    assert_eq!(info.user_review_score, Some("0".to_string()));
}

#[test]
fn comic_info_stops_at_first_failure() {
    let page = r#"<div class="series-buttons"><a class="series">no link</a></div>"#;
    assert_eq!(comic_info_from_page(page).err(), Some(ScrapeError::MissingAttribute));
}
