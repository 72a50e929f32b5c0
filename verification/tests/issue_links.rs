use comic_scraper::issue_urls::{
    issue_links_from, lambda_response, parse_comic_issue_urls, parse_url_from_request,
    LambdaRequest,
};
use comic_scraper::scrape::Element;

const SERIES_PAGE: &str = r#"<html><body><div class="section"><table>
<tr><td class="issue"><a href="/issue/1">#1</a></td></tr>
<tr><td class="issue"><a>#2</a></td></tr>
<tr><td class="other"><a href="/not-an-issue">x</a></td></tr>
<tr><td class="issue"><a href="/issue/3">#3</a></td></tr>
</table></div></body></html>"#;

#[test]
fn series_url_defaults_to_empty() {
    assert_eq!(parse_url_from_request(None), "");
    assert_eq!(parse_url_from_request(Some(LambdaRequest { url: "u".to_string() })), "u");
}

#[test]
fn issue_links_in_page_order() {
    assert_eq!(
        parse_comic_issue_urls(SERIES_PAGE),
        Ok(vec![Some("/issue/1".to_string()), None, Some("/issue/3".to_string())])
    );
}

#[test]
fn issue_links_from_elements() {
    let els = vec![
        Element { text: vec![], attribute: None },
        Element { text: vec![], attribute: Some("/i".to_string()) },
    ];
    assert_eq!(issue_links_from(&els), vec![None, Some("/i".to_string())]);
}

#[test]
fn response_prefixes_present_links_and_drops_missing() {
    let r = lambda_response(&vec![Some("/issue/1".to_string()), None, Some("/issue/3".to_string())]);
    assert_eq!(
        r.urls,
        vec![
            "https://comicbookroundup.com/issue/1".to_string(),
            "https://comicbookroundup.com/issue/3".to_string()
        ]
    );
    assert!(lambda_response(&vec![None, None]).urls.is_empty());
}
