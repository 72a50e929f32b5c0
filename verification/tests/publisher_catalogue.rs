use comic_scraper::publisher_comics::{
    comics_from_elements, parse_comic_urls, parse_name_from_request, publisher_url,
    LambdaRequest, CORE_URL,
};
use comic_scraper::scrape::{Element, ScrapeError};

const CATALOGUE: &str = r#"<html><body><div class="section"><table>
<tr><td class="series"><a href="/comic-books/reviews/marvel-comics/immortal-x-men-(2022)">Immortal X-Men (2022)</a></td></tr>
<tr><td class="series"><a href="/comic-books/reviews/marvel-comics/x-men-(2021)">X-Men <b>(2021)</b></a></td></tr>
</table></div></body></html>"#;

#[test]
fn publisher_name_defaults_to_empty() {
    assert_eq!(parse_name_from_request(None), "");
    assert_eq!(parse_name_from_request(Some(LambdaRequest { name: "dc".to_string() })), "dc");
}

#[test]
fn known_publishers_have_catalogues() {
    assert_eq!(
        publisher_url("marvel"),
        Some("https://comicbookroundup.com/comic-books/reviews/marvel-comics/all-series")
    );
    assert_eq!(
        publisher_url("red 5"),
        Some("https://comicbookroundup.com/comic-books/reviews/red-5-comics/all-series")
    );
    assert_eq!(
        publisher_url("dark horse"),
        Some("https://comicbookroundup.com/comic-books/reviews/dark-horse-comics/all-series")
    );
    assert_eq!(publisher_url("Marvel"), None);
    assert_eq!(publisher_url(""), None);
}

#[test]
fn every_publisher_catalogue_is_on_site() {
    for name in [
        "marvel", "dc", "image", "idw", "dark horse", "boom", "dynamite", "valiant", "vertigo",
        "oni", "aftershock", "archie", "titan", "zenescope", "black mask", "red 5", "vault",
    ] {
        let url = publisher_url(name).unwrap();
        assert!(url.starts_with(CORE_URL));
        assert!(url.ends_with("/all-series"));
    }
}

#[test]
fn catalogue_series_have_title_and_absolute_link() {
    let r = parse_comic_urls(CATALOGUE).ok().unwrap();
    assert_eq!(r.comics.len(), 2);
    assert_eq!(r.comics[0].name, "Immortal X-Men (2022)");
    assert_eq!(
        r.comics[0].url,
        "https://comicbookroundup.com/comic-books/reviews/marvel-comics/immortal-x-men-(2022)"
    );
    assert_eq!(r.comics[1].name, "X-Men ");
}

#[test]
fn catalogue_series_without_link_is_reported() {
    let page = r#"<div class="section"><table><tr><td class="series"><a>Untitled</a></td></tr></table></div>"#;
    assert_eq!(parse_comic_urls(page).err(), Some(ScrapeError::MissingAttribute));
}

#[test]
fn catalogue_series_without_text_is_reported() {
    let page = r#"<div class="section"><table><tr><td class="series"><a href="/x"></a></td></tr></table></div>"#;
    assert_eq!(parse_comic_urls(page).err(), Some(ScrapeError::MissingText));
}

#[test]
fn comics_from_complete_elements() {
    let els = vec![Element { text: vec!["T".to_string(), "u".to_string()], attribute: Some("/s".to_string()) }];
    let r = comics_from_elements(&els);
    assert_eq!(r.comics[0].name, "T");
    assert_eq!(r.comics[0].url, "https://comicbookroundup.com/s");
}
