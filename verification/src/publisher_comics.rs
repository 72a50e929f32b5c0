//! The publisher catalogue lambda: the series of a publisher, each with
//! its title and its absolute link.
use crate::scrape::{
    elements_view, select_elements, selected_elements, Element, ElementView, ScrapeError,
};
use crate::text::same_text;
use vstd::prelude::*;
use vstd::string::*;

verus! {

/// The site that the series links are relative to.
pub const CORE_URL: &'static str = "https://comicbookroundup.com";

/// The series catalogue of the publisher named "marvel".
pub const MARVEL_URL: &'static str =
    "https://comicbookroundup.com/comic-books/reviews/marvel-comics/all-series";

/// The series catalogue of the publisher named "dc".
pub const DC_URL: &'static str =
    "https://comicbookroundup.com/comic-books/reviews/dc-comics/all-series";

/// The series catalogue of the publisher named "image".
pub const IMAGE_URL: &'static str =
    "https://comicbookroundup.com/comic-books/reviews/image-comics/all-series";

/// The series catalogue of the publisher named "idw".
pub const IDW_URL: &'static str =
    "https://comicbookroundup.com/comic-books/reviews/idw-publishing/all-series";

/// The series catalogue of the publisher named "dark horse".
pub const DARK_HORSE_URL: &'static str =
    "https://comicbookroundup.com/comic-books/reviews/dark-horse-comics/all-series";

/// The series catalogue of the publisher named "boom".
pub const BOOM_URL: &'static str =
    "https://comicbookroundup.com/comic-books/reviews/boom-studios/all-series";

/// The series catalogue of the publisher named "dynamite".
pub const DYNAMITE_URL: &'static str =
    "https://comicbookroundup.com/comic-books/reviews/dynamite-entertainment/all-series";

/// The series catalogue of the publisher named "valiant".
pub const VALIANT_URL: &'static str =
    "https://comicbookroundup.com/comic-books/reviews/valiant-comics/all-series";

/// The series catalogue of the publisher named "vertigo".
pub const VERTIGO_URL: &'static str =
    "https://comicbookroundup.com/comic-books/reviews/vertigo/all-series";

/// The series catalogue of the publisher named "oni".
pub const ONI_URL: &'static str =
    "https://comicbookroundup.com/comic-books/reviews/oni-press/all-series";

/// The series catalogue of the publisher named "aftershock".
pub const AFTERSHOCK_URL: &'static str =
    "https://comicbookroundup.com/comic-books/reviews/aftershock-comics/all-series";

/// The series catalogue of the publisher named "archie".
pub const ARCHIE_URL: &'static str =
    "https://comicbookroundup.com/comic-books/reviews/archie-comics/all-series";

/// The series catalogue of the publisher named "titan".
pub const TITAN_URL: &'static str =
    "https://comicbookroundup.com/comic-books/reviews/titan-books/all-series";

/// The series catalogue of the publisher named "zenescope".
pub const ZENESCOPE_URL: &'static str =
    "https://comicbookroundup.com/comic-books/reviews/zenescope-entertainment/all-series";

/// The series catalogue of the publisher named "black mask".
pub const BLACK_MASK_URL: &'static str =
    "https://comicbookroundup.com/comic-books/reviews/black-mask-studios/all-series";

/// The series catalogue of the publisher named "red 5".
pub const RED_5_URL: &'static str =
    "https://comicbookroundup.com/comic-books/reviews/red-5-comics/all-series";

/// The series catalogue of the publisher named "vault".
pub const VAULT_URL: &'static str =
    "https://comicbookroundup.com/comic-books/reviews/vault-comics/all-series";

/// The series links of a catalogue page.
pub const SERIES_LINK_SELECTOR: &'static str =
    "div.section > table > tbody > tr > td.series > a";

/// The attribute that holds a link.
pub const LINK_ATTRIBUTE: &'static str = "href";

/// The request body of the lambda.
pub struct LambdaRequest {
    pub name: String,
}

/// A series of a publisher: its title and its absolute link.
pub struct Comic {
    pub name: String,
    pub url: String,
}

impl View for Comic {
    type V = (Seq<char>, Seq<char>);

    open spec fn view(&self) -> (Seq<char>, Seq<char>) {
        (self.name@, self.url@)
    }
}

/// The answer of the lambda: the series of the publisher.
pub struct LambdaResponse {
    pub comics: Vec<Comic>,
}

/// The series of an answer as plain values.
pub open spec fn comics_view(v: Seq<Comic>) -> Seq<(Seq<char>, Seq<char>)> {
    v.map_values(|c: Comic| c@)
}

/// The publisher that the request asks for: the name of its body, or the
/// empty string where the body holds none.
pub fn parse_name_from_request(request: Option<LambdaRequest>) -> (name: String)
    ensures
        name@ == match request {
            Some(r) => r.name@,
            None => Seq::<char>::empty(),
        },
{
    match request {
        Some(r) => r.name,
        None => String::new(),
    }
}

/// The catalogue of the publisher called `name`, for the known publishers.
pub open spec fn publisher_url_of(name: Seq<char>) -> Option<Seq<char>> {
    if name == "marvel"@ {
        Some(MARVEL_URL@)
    } else if name == "dc"@ {
        Some(DC_URL@)
    } else if name == "image"@ {
        Some(IMAGE_URL@)
    } else if name == "idw"@ {
        Some(IDW_URL@)
    } else if name == "dark horse"@ {
        Some(DARK_HORSE_URL@)
    } else if name == "boom"@ {
        Some(BOOM_URL@)
    } else if name == "dynamite"@ {
        Some(DYNAMITE_URL@)
    } else if name == "valiant"@ {
        Some(VALIANT_URL@)
    } else if name == "vertigo"@ {
        Some(VERTIGO_URL@)
    } else if name == "oni"@ {
        Some(ONI_URL@)
    } else if name == "aftershock"@ {
        Some(AFTERSHOCK_URL@)
    } else if name == "archie"@ {
        Some(ARCHIE_URL@)
    } else if name == "titan"@ {
        Some(TITAN_URL@)
    } else if name == "zenescope"@ {
        Some(ZENESCOPE_URL@)
    } else if name == "black mask"@ {
        Some(BLACK_MASK_URL@)
    } else if name == "red 5"@ {
        Some(RED_5_URL@)
    } else if name == "vault"@ {
        Some(VAULT_URL@)
    } else {
        None
    }
}

/// The catalogue page of the publisher called `name`, or `None` where the
/// publisher is not known.
pub fn publisher_url(name: &str) -> (url: Option<&'static str>)
    ensures
        match url {
            Some(u) => publisher_url_of(name@) == Some(u@),
            None => publisher_url_of(name@) is None,
        },
{
    if same_text(name, "marvel") {
        return Some(MARVEL_URL);
    }
    if same_text(name, "dc") {
        return Some(DC_URL);
    }
    if same_text(name, "image") {
        return Some(IMAGE_URL);
    }
    if same_text(name, "idw") {
        return Some(IDW_URL);
    }
    if same_text(name, "dark horse") {
        return Some(DARK_HORSE_URL);
    }
    if same_text(name, "boom") {
        return Some(BOOM_URL);
    }
    if same_text(name, "dynamite") {
        return Some(DYNAMITE_URL);
    }
    if same_text(name, "valiant") {
        return Some(VALIANT_URL);
    }
    if same_text(name, "vertigo") {
        return Some(VERTIGO_URL);
    }
    if same_text(name, "oni") {
        return Some(ONI_URL);
    }
    if same_text(name, "aftershock") {
        return Some(AFTERSHOCK_URL);
    }
    if same_text(name, "archie") {
        return Some(ARCHIE_URL);
    }
    if same_text(name, "titan") {
        return Some(TITAN_URL);
    }
    if same_text(name, "zenescope") {
        return Some(ZENESCOPE_URL);
    }
    if same_text(name, "black mask") {
        return Some(BLACK_MASK_URL);
    }
    if same_text(name, "red 5") {
        return Some(RED_5_URL);
    }
    if same_text(name, "vault") {
        return Some(VAULT_URL);
    }
    None
}

/// Law: each known publisher has its own catalogue, the page of its
/// series on the site.
pub proof fn law_publisher_catalogues()
    ensures
        forall|name: Seq<char>| #[trigger] publisher_url_of(name) is Some <==> (name == "marvel"@ || name == "dc"@ || name == "image"@ || name == "idw"@ || name == "dark horse"@ || name == "boom"@ || name == "dynamite"@ || name == "valiant"@ || name == "vertigo"@ || name == "oni"@ || name == "aftershock"@ || name == "archie"@ || name == "titan"@ || name == "zenescope"@ || name == "black mask"@ || name == "red 5"@ || name == "vault"@),
        publisher_url_of("marvel"@) == Some(
            "https://comicbookroundup.com/comic-books/reviews/marvel-comics/all-series"@,
        ),
        publisher_url_of("dc"@) == Some(
            "https://comicbookroundup.com/comic-books/reviews/dc-comics/all-series"@,
        ),
        publisher_url_of("image"@) == Some(
            "https://comicbookroundup.com/comic-books/reviews/image-comics/all-series"@,
        ),
        publisher_url_of("idw"@) == Some(
            "https://comicbookroundup.com/comic-books/reviews/idw-publishing/all-series"@,
        ),
        publisher_url_of("dark horse"@) == Some(
            "https://comicbookroundup.com/comic-books/reviews/dark-horse-comics/all-series"@,
        ),
        publisher_url_of("boom"@) == Some(
            "https://comicbookroundup.com/comic-books/reviews/boom-studios/all-series"@,
        ),
        publisher_url_of("dynamite"@) == Some(
            "https://comicbookroundup.com/comic-books/reviews/dynamite-entertainment/all-series"@,
        ),
        publisher_url_of("valiant"@) == Some(
            "https://comicbookroundup.com/comic-books/reviews/valiant-comics/all-series"@,
        ),
        publisher_url_of("vertigo"@) == Some(
            "https://comicbookroundup.com/comic-books/reviews/vertigo/all-series"@,
        ),
        publisher_url_of("oni"@) == Some(
            "https://comicbookroundup.com/comic-books/reviews/oni-press/all-series"@,
        ),
        publisher_url_of("aftershock"@) == Some(
            "https://comicbookroundup.com/comic-books/reviews/aftershock-comics/all-series"@,
        ),
        publisher_url_of("archie"@) == Some(
            "https://comicbookroundup.com/comic-books/reviews/archie-comics/all-series"@,
        ),
        publisher_url_of("titan"@) == Some(
            "https://comicbookroundup.com/comic-books/reviews/titan-books/all-series"@,
        ),
        publisher_url_of("zenescope"@) == Some(
            "https://comicbookroundup.com/comic-books/reviews/zenescope-entertainment/all-series"@,
        ),
        publisher_url_of("black mask"@) == Some(
            "https://comicbookroundup.com/comic-books/reviews/black-mask-studios/all-series"@,
        ),
        publisher_url_of("red 5"@) == Some(
            "https://comicbookroundup.com/comic-books/reviews/red-5-comics/all-series"@,
        ),
        publisher_url_of("vault"@) == Some(
            "https://comicbookroundup.com/comic-books/reviews/vault-comics/all-series"@,
        ),
{
    reveal_strlit("marvel");
    reveal_strlit("dc");
    reveal_strlit("image");
    reveal_strlit("idw");
    reveal_strlit("dark horse");
    reveal_strlit("boom");
    reveal_strlit("dynamite");
    reveal_strlit("valiant");
    reveal_strlit("vertigo");
    reveal_strlit("oni");
    reveal_strlit("aftershock");
    reveal_strlit("archie");
    reveal_strlit("titan");
    reveal_strlit("zenescope");
    reveal_strlit("black mask");
    reveal_strlit("red 5");
    reveal_strlit("vault");
    assert("marvel"@.len() != "dc"@.len());
    assert("marvel"@.len() != "image"@.len());
    assert("dc"@.len() != "image"@.len());
    assert("marvel"@.len() != "idw"@.len());
    assert("dc"@.len() != "idw"@.len());
    assert("image"@.len() != "idw"@.len());
    assert("marvel"@.len() != "dark horse"@.len());
    assert("dc"@.len() != "dark horse"@.len());
    assert("image"@.len() != "dark horse"@.len());
    assert("idw"@.len() != "dark horse"@.len());
    assert("marvel"@.len() != "boom"@.len());
    assert("dc"@.len() != "boom"@.len());
    assert("image"@.len() != "boom"@.len());
    assert("idw"@.len() != "boom"@.len());
    assert("dark horse"@.len() != "boom"@.len());
    assert("marvel"@.len() != "dynamite"@.len());
    assert("dc"@.len() != "dynamite"@.len());
    assert("image"@.len() != "dynamite"@.len());
    assert("idw"@.len() != "dynamite"@.len());
    assert("dark horse"@.len() != "dynamite"@.len());
    assert("boom"@.len() != "dynamite"@.len());
    assert("marvel"@.len() != "valiant"@.len());
    assert("dc"@.len() != "valiant"@.len());
    assert("image"@.len() != "valiant"@.len());
    assert("idw"@.len() != "valiant"@.len());
    assert("dark horse"@.len() != "valiant"@.len());
    assert("boom"@.len() != "valiant"@.len());
    assert("dynamite"@.len() != "valiant"@.len());
    assert("marvel"@.len() != "vertigo"@.len());
    assert("dc"@.len() != "vertigo"@.len());
    assert("image"@.len() != "vertigo"@.len());
    assert("idw"@.len() != "vertigo"@.len());
    assert("dark horse"@.len() != "vertigo"@.len());
    assert("boom"@.len() != "vertigo"@.len());
    assert("dynamite"@.len() != "vertigo"@.len());
    assert("valiant"@[1] != "vertigo"@[1]);
    assert("marvel"@.len() != "oni"@.len());
    assert("dc"@.len() != "oni"@.len());
    assert("image"@.len() != "oni"@.len());
    assert("idw"@[0] != "oni"@[0]);
    assert("dark horse"@.len() != "oni"@.len());
    assert("boom"@.len() != "oni"@.len());
    assert("dynamite"@.len() != "oni"@.len());
    assert("valiant"@.len() != "oni"@.len());
    assert("vertigo"@.len() != "oni"@.len());
    assert("marvel"@.len() != "aftershock"@.len());
    assert("dc"@.len() != "aftershock"@.len());
    assert("image"@.len() != "aftershock"@.len());
    assert("idw"@.len() != "aftershock"@.len());
    assert("dark horse"@[0] != "aftershock"@[0]);
    assert("boom"@.len() != "aftershock"@.len());
    assert("dynamite"@.len() != "aftershock"@.len());
    assert("valiant"@.len() != "aftershock"@.len());
    assert("vertigo"@.len() != "aftershock"@.len());
    assert("oni"@.len() != "aftershock"@.len());
    assert("marvel"@[0] != "archie"@[0]);
    assert("dc"@.len() != "archie"@.len());
    assert("image"@.len() != "archie"@.len());
    assert("idw"@.len() != "archie"@.len());
    assert("dark horse"@.len() != "archie"@.len());
    assert("boom"@.len() != "archie"@.len());
    assert("dynamite"@.len() != "archie"@.len());
    assert("valiant"@.len() != "archie"@.len());
    assert("vertigo"@.len() != "archie"@.len());
    assert("oni"@.len() != "archie"@.len());
    assert("aftershock"@.len() != "archie"@.len());
    assert("marvel"@.len() != "titan"@.len());
    assert("dc"@.len() != "titan"@.len());
    assert("image"@[0] != "titan"@[0]);
    assert("idw"@.len() != "titan"@.len());
    assert("dark horse"@.len() != "titan"@.len());
    assert("boom"@.len() != "titan"@.len());
    assert("dynamite"@.len() != "titan"@.len());
    assert("valiant"@.len() != "titan"@.len());
    assert("vertigo"@.len() != "titan"@.len());
    assert("oni"@.len() != "titan"@.len());
    assert("aftershock"@.len() != "titan"@.len());
    assert("archie"@.len() != "titan"@.len());
    assert("marvel"@.len() != "zenescope"@.len());
    assert("dc"@.len() != "zenescope"@.len());
    assert("image"@.len() != "zenescope"@.len());
    assert("idw"@.len() != "zenescope"@.len());
    assert("dark horse"@.len() != "zenescope"@.len());
    assert("boom"@.len() != "zenescope"@.len());
    assert("dynamite"@.len() != "zenescope"@.len());
    assert("valiant"@.len() != "zenescope"@.len());
    assert("vertigo"@.len() != "zenescope"@.len());
    assert("oni"@.len() != "zenescope"@.len());
    assert("aftershock"@.len() != "zenescope"@.len());
    assert("archie"@.len() != "zenescope"@.len());
    assert("titan"@.len() != "zenescope"@.len());
    assert("marvel"@.len() != "black mask"@.len());
    assert("dc"@.len() != "black mask"@.len());
    assert("image"@.len() != "black mask"@.len());
    assert("idw"@.len() != "black mask"@.len());
    assert("dark horse"@[0] != "black mask"@[0]);
    assert("boom"@.len() != "black mask"@.len());
    assert("dynamite"@.len() != "black mask"@.len());
    assert("valiant"@.len() != "black mask"@.len());
    assert("vertigo"@.len() != "black mask"@.len());
    assert("oni"@.len() != "black mask"@.len());
    assert("aftershock"@[0] != "black mask"@[0]);
    assert("archie"@.len() != "black mask"@.len());
    assert("titan"@.len() != "black mask"@.len());
    assert("zenescope"@.len() != "black mask"@.len());
    assert("marvel"@.len() != "red 5"@.len());
    assert("dc"@.len() != "red 5"@.len());
    assert("image"@[0] != "red 5"@[0]);
    assert("idw"@.len() != "red 5"@.len());
    assert("dark horse"@.len() != "red 5"@.len());
    assert("boom"@.len() != "red 5"@.len());
    assert("dynamite"@.len() != "red 5"@.len());
    assert("valiant"@.len() != "red 5"@.len());
    assert("vertigo"@.len() != "red 5"@.len());
    assert("oni"@.len() != "red 5"@.len());
    assert("aftershock"@.len() != "red 5"@.len());
    assert("archie"@.len() != "red 5"@.len());
    assert("titan"@[0] != "red 5"@[0]);
    assert("zenescope"@.len() != "red 5"@.len());
    assert("black mask"@.len() != "red 5"@.len());
    assert("marvel"@.len() != "vault"@.len());
    assert("dc"@.len() != "vault"@.len());
    assert("image"@[0] != "vault"@[0]);
    assert("idw"@.len() != "vault"@.len());
    assert("dark horse"@.len() != "vault"@.len());
    assert("boom"@.len() != "vault"@.len());
    assert("dynamite"@.len() != "vault"@.len());
    assert("valiant"@.len() != "vault"@.len());
    assert("vertigo"@.len() != "vault"@.len());
    assert("oni"@.len() != "vault"@.len());
    assert("aftershock"@.len() != "vault"@.len());
    assert("archie"@.len() != "vault"@.len());
    assert("titan"@[0] != "vault"@[0]);
    assert("zenescope"@.len() != "vault"@.len());
    assert("black mask"@.len() != "vault"@.len());
    assert("red 5"@[0] != "vault"@[0]);
}

/// Law: the catalogue of every known publisher lies on `CORE_URL`.
pub proof fn law_publisher_urls_on_site(name: Seq<char>)
    ensures
        publisher_url_of(name) matches Some(url) ==> url.len() >= CORE_URL@.len() && url.subrange(
            0,
            CORE_URL@.len() as int,
        ) == CORE_URL@,
{
    reveal_strlit("https://comicbookroundup.com");
    reveal_strlit("https://comicbookroundup.com/comic-books/reviews/marvel-comics/all-series");
    reveal_strlit("https://comicbookroundup.com/comic-books/reviews/dc-comics/all-series");
    reveal_strlit("https://comicbookroundup.com/comic-books/reviews/image-comics/all-series");
    reveal_strlit("https://comicbookroundup.com/comic-books/reviews/idw-publishing/all-series");
    reveal_strlit("https://comicbookroundup.com/comic-books/reviews/dark-horse-comics/all-series");
    reveal_strlit("https://comicbookroundup.com/comic-books/reviews/boom-studios/all-series");
    reveal_strlit("https://comicbookroundup.com/comic-books/reviews/dynamite-entertainment/all-series");
    reveal_strlit("https://comicbookroundup.com/comic-books/reviews/valiant-comics/all-series");
    reveal_strlit("https://comicbookroundup.com/comic-books/reviews/vertigo/all-series");
    reveal_strlit("https://comicbookroundup.com/comic-books/reviews/oni-press/all-series");
    reveal_strlit("https://comicbookroundup.com/comic-books/reviews/aftershock-comics/all-series");
    reveal_strlit("https://comicbookroundup.com/comic-books/reviews/archie-comics/all-series");
    reveal_strlit("https://comicbookroundup.com/comic-books/reviews/titan-books/all-series");
    reveal_strlit("https://comicbookroundup.com/comic-books/reviews/zenescope-entertainment/all-series");
    reveal_strlit("https://comicbookroundup.com/comic-books/reviews/black-mask-studios/all-series");
    reveal_strlit("https://comicbookroundup.com/comic-books/reviews/red-5-comics/all-series");
    reveal_strlit("https://comicbookroundup.com/comic-books/reviews/vault-comics/all-series");
    if let Some(url) = publisher_url_of(name) {
        assert(url.subrange(0, CORE_URL@.len() as int) =~= CORE_URL@);
    }
}

/// A selected series element read as a series: its first text node and
/// `CORE_URL` before its link.
pub open spec fn comic_of(e: ElementView) -> (Seq<char>, Seq<char>) {
    (e.0[0], CORE_URL@ + e.1.unwrap())
}

/// The series of the selected series elements.
pub open spec fn comics_of(els: Seq<ElementView>) -> Seq<(Seq<char>, Seq<char>)> {
    els.map_values(|e: ElementView| comic_of(e))
}

/// A selected series element has a text node and a link.
pub open spec fn complete(e: ElementView) -> bool {
    e.0.len() > 0 && e.1 is Some
}

/// The series of the selected series elements.
pub fn comics_from_elements(elements: &Vec<Element>) -> (response: LambdaResponse)
    requires
        forall|k: int| 0 <= k < elements@.len() ==> complete(#[trigger] elements_view(elements@)[k]),
    ensures
        comics_view(response.comics@) == comics_of(elements_view(elements@)),
        response.comics@.len() == elements@.len(),
        forall|k: int|
            0 <= k < elements@.len() ==> {
                &&& (#[trigger] response.comics@[k]).name@ == elements@[k].text@[0]@
                &&& response.comics@[k].url@ == CORE_URL@ + elements@[k].attribute.unwrap()@
            },
{
    let ghost ev = elements_view(elements@);
    let ghost target = comics_of(ev);
    let mut comics: Vec<Comic> = Vec::new();
    let mut i: usize = 0;
    while i < elements.len()
        invariant
            i <= elements@.len(),
            ev == elements_view(elements@),
            target == comics_of(ev),
            forall|k: int| 0 <= k < elements@.len() ==> complete(#[trigger] ev[k]),
            comics_view(comics@) == target.take(i as int),
        decreases elements@.len() - i,
    {
        let e = &elements[i];
        assert(ev[i as int] == e@);
        assert(complete(ev[i as int]));
        let name = e.text[0].clone();
        let mut url = String::from_str(CORE_URL);
        match &e.attribute {
            Some(link) => url.append(link.as_str()),
            None => {},
        }
        let comic = Comic { name, url };
        let ghost before = comics_view(comics@);
        comics.push(comic);
        assert(comics_view(comics@) =~= before.push(comic@));
        assert(target.take(i + 1) =~= target.take(i as int).push(target[i as int]));
        i = i + 1;
    }
    assert(target.take(elements@.len() as int) =~= target);
    assert forall|k: int| 0 <= k < elements@.len() implies {
        &&& (#[trigger] comics@[k]).name@ == elements@[k].text@[0]@
        &&& comics@[k].url@ == CORE_URL@ + elements@[k].attribute.unwrap()@
    } by {
        assert(comics_view(comics@)[k] == comics@[k]@);
        assert(ev[k] == elements@[k]@);
        assert(complete(ev[k]));
    }
    LambdaResponse { comics }
}

/// What the selected series elements give: the first element without a
/// text node (`MissingText`) or without a link (`MissingAttribute`), or the
/// series of all of them.
pub open spec fn comics_outcome(els: Seq<ElementView>) -> Result<Seq<(Seq<char>, Seq<char>)>, ScrapeError>
    decreases els.len(),
{
    if els.len() == 0 {
        Ok(Seq::empty())
    } else if els[0].0.len() == 0 {
        Err(ScrapeError::MissingText)
    } else if els[0].1 is None {
        Err(ScrapeError::MissingAttribute)
    } else {
        match comics_outcome(els.drop_first()) {
            Err(e) => Err(e),
            Ok(rest) => Ok(seq![comic_of(els[0])] + rest),
        }
    }
}

/// What reading the series of the catalogue page `page` gives.
pub open spec fn parse_comic_urls_outcome(page: Seq<char>) -> Result<Seq<(Seq<char>, Seq<char>)>, ScrapeError> {
    match selected_elements(page, SERIES_LINK_SELECTOR@, LINK_ATTRIBUTE@) {
        None => Err(ScrapeError::InvalidSelector),
        Some(els) => comics_outcome(els),
    }
}

/// With all elements complete, the outcome is the series of all of them.
proof fn lemma_comics_outcome_complete(els: Seq<ElementView>)
    requires
        forall|k: int| 0 <= k < els.len() ==> complete(#[trigger] els[k]),
    ensures
        comics_outcome(els) == Ok::<Seq<(Seq<char>, Seq<char>)>, ScrapeError>(comics_of(els)),
    decreases els.len(),
{
    if els.len() > 0 {
        assert(complete(els[0]));
        assert forall|k: int| 0 <= k < els.drop_first().len() implies complete(
            #[trigger] els.drop_first()[k],
        ) by {
            assert(els.drop_first()[k] == els[k + 1]);
        }
        lemma_comics_outcome_complete(els.drop_first());
        assert(seq![comic_of(els[0])] + comics_of(els.drop_first()) =~= comics_of(els));
    } else {
        assert(comics_of(els) =~= Seq::<(Seq<char>, Seq<char>)>::empty());
    }
}

/// The error of an incomplete element.
pub open spec fn incomplete_error(e: ElementView) -> ScrapeError {
    if e.0.len() == 0 {
        ScrapeError::MissingText
    } else {
        ScrapeError::MissingAttribute
    }
}

/// With element `i` the first incomplete one, the outcome is its error.
proof fn lemma_comics_outcome_incomplete(els: Seq<ElementView>, i: int)
    requires
        0 <= i < els.len(),
        !complete(els[i]),
        forall|k: int| 0 <= k < i ==> complete(#[trigger] els[k]),
    ensures
        comics_outcome(els) == Err::<Seq<(Seq<char>, Seq<char>)>, ScrapeError>(incomplete_error(els[i])),
    decreases els.len(),
{
    if i > 0 {
        assert(complete(els[0]));
        assert forall|k: int| 0 <= k < i - 1 implies complete(#[trigger] els.drop_first()[k]) by {
            assert(els.drop_first()[k] == els[k + 1]);
        }
        lemma_comics_outcome_incomplete(els.drop_first(), i - 1);
    }
}

/// The series of the catalogue page `response_str`, each with its title
/// (the first text node of its link element) and its absolute link
/// (`CORE_URL` before the element's link), in the order of the page.
pub fn parse_comic_urls(response_str: &str) -> (r: Result<LambdaResponse, ScrapeError>)
    ensures
        match r {
            Ok(response) => parse_comic_urls_outcome(response_str@) == Ok::<
                Seq<(Seq<char>, Seq<char>)>,
                ScrapeError,
            >(comics_view(response.comics@)),
            Err(e) => parse_comic_urls_outcome(response_str@) == Err::<
                Seq<(Seq<char>, Seq<char>)>,
                ScrapeError,
            >(e),
        },
{
    let elements = match select_elements(response_str, SERIES_LINK_SELECTOR, LINK_ATTRIBUTE) {
        Ok(v) => v,
        Err(e) => return Err(e),
    };
    let ghost ev = elements_view(elements@);
    let mut i: usize = 0;
    while i < elements.len()
        invariant
            i <= elements@.len(),
            ev == elements_view(elements@),
            selected_elements(response_str@, SERIES_LINK_SELECTOR@, LINK_ATTRIBUTE@) == Some(ev),
            forall|k: int| 0 <= k < i ==> complete(#[trigger] ev[k]),
        decreases elements@.len() - i,
    {
        assert(ev[i as int] == elements@[i as int]@);
        if elements[i].text.len() == 0 {
            proof {
                lemma_comics_outcome_incomplete(ev, i as int);
            }
            return Err(ScrapeError::MissingText);
        }
        if elements[i].attribute.is_none() {
            proof {
                lemma_comics_outcome_incomplete(ev, i as int);
            }
            return Err(ScrapeError::MissingAttribute);
        }
        i = i + 1;
    }
    proof {
        lemma_comics_outcome_complete(ev);
    }
    Ok(comics_from_elements(&elements))
}

} // verus!
