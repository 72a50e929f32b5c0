//! Scraping logic of the comic review lambdas: reading series links,
//! issue details, review counts and scores, issue links and publisher
//! catalogues out of comic book review pages.
//!
//! - `text`: string operations (search, split, join) with specifications.
//! - `scrape`: the CSS queries and regular expressions that the logic
//!   reads pages with, behind trusted items, as plain values.
//! - `basic_lambda`, `http_lambda`, `issue_urls`, `publisher_comics`: the
//!   logic of each lambda.
pub mod text;
pub mod scrape;
pub mod basic_lambda;
pub mod http_lambda;
pub mod issue_urls;
pub mod publisher_comics;
