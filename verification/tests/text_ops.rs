use comic_scraper::text::{concat_texts, contains, find_in, same_text, split_by, to_chars};

fn strings(v: &[&str]) -> Vec<String> {
    v.iter().map(|s| s.to_string()).collect()
}

#[test]
fn split_names_on_comma_space() {
    assert_eq!(split_by("Gerry Duggan, Kieron Gillen", ", "), strings(&["Gerry Duggan", "Kieron Gillen"]));
}

#[test]
fn split_without_separator_gives_whole_text() {
    assert_eq!(split_by("Lucas Werneck", ", "), strings(&["Lucas Werneck"]));
}

#[test]
fn split_empty_text_gives_one_empty_piece() {
    assert_eq!(split_by("", ", "), strings(&[""]));
}

#[test]
fn split_keeps_empty_pieces_at_the_edges() {
    assert_eq!(split_by(", a, ", ", "), strings(&["", "a", ""]));
    assert_eq!(split_by("a, , b", ", "), strings(&["a", "", "b"]));
}

#[test]
fn split_does_not_overlap_occurrences() {
    assert_eq!(split_by("aaa", "aa"), strings(&["", "a"]));
}

#[test]
fn split_then_join_gives_text_back() {
    for text in ["a, b, c", "", ", ", "x,y, z, ", "no separator"] {
        assert_eq!(split_by(text, ", ").join(", "), text);
    }
}

#[test]
fn split_agrees_with_std() {
    for text in ["a/b/c", "/comic-books/reviews", "abc", "a//b/", "é/ü"] {
        let expected: Vec<String> = text.split('/').map(|s| s.to_string()).collect();
        assert_eq!(split_by(text, "/"), expected);
    }
}

#[test]
fn contains_finds_substrings() {
    assert!(contains("Critic Reviews 12", "Critic Reviews"));
    assert!(contains("abc", ""));
    assert!(!contains("User Reviews", "Critic"));
    assert!(!contains("", "a"));
    assert!(contains("Writer:", "Writer"));
}

#[test]
fn find_in_gives_first_index_from_start() {
    let s = to_chars("abcabc");
    let p = to_chars("bc");
    assert_eq!(find_in(&s, &p, 0), Some(1));
    assert_eq!(find_in(&s, &p, 2), Some(4));
    assert_eq!(find_in(&s, &p, 5), None);
}

#[test]
fn concat_texts_joins_without_separator() {
    assert_eq!(concat_texts(&strings(&["Immortal ", "X-Men", " #8"])), "Immortal X-Men #8");
    assert_eq!(concat_texts(&Vec::new()), "");
}

#[test]
fn same_text_compares_characters() {
    assert!(same_text("dark horse", "dark horse"));
    assert!(!same_text("dark horse", "dark"));
    assert!(!same_text("dc", "DC"));
}

#[test]
fn to_chars_counts_unicode_characters() {
    assert_eq!(to_chars("é€x"), vec!['é', '€', 'x']);
}
