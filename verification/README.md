# comic_scraper

The logic of four AWS lambdas that read comic book review pages
(comicbookroundup.com), written in Verus and verified.

- `src/` is the verified library. Its modules `basic_lambda`, `http_lambda`,
  `issue_urls` and `publisher_comics` hold the logic of each lambda; `text`
  holds the string operations they are built from; `scrape` holds the
  trusted calls into the `scraper` and `regex` crates, which hand back plain
  values.
- `app/` runs the lambdas: it fetches pages, decodes and encodes JSON and
  talks to the Lambda runtime, and calls the library for everything else.
  Its first argument picks the lambda (`basic-lambda`, `issue-urls`,
  `publisher-comics`, or the issue details lambda by default).
- `tests/` runs the library on sample pages.
