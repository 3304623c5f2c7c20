use protondb_lookup::error::LookupError;
use protondb_lookup::html::MAX_PAGE_BYTES;
use protondb_lookup::reply::Page;
use protondb_lookup::search::{
    candidates_of, rows_in, search_from, search_results, Row, SearchResult, TitleCell,
};

fn anchor(attributes: &str, inner: &str) -> String {
    format!(
        "<a href=\"https://store.example/app\" class=\"search_result_row ds_collapse_flag \" {}>{}</a>",
        attributes, inner
    )
}

fn page(anchors: &[String]) -> String {
    format!(
        "<!DOCTYPE html><html><head><title>Search</title></head><body><div id=\"search_resultsRows\">{}</div></body></html>",
        anchors.concat()
    )
}

fn pairs(results: &[SearchResult]) -> Vec<(String, String)> {
    results.iter().map(|r| (r.title.clone(), r.identifier.clone())).collect()
}

#[test]
fn page_without_rows_gives_empty_list() {
    let found = search_results(&page(&[])).expect("an empty page is no error");
    assert!(found.is_empty());
}

#[test]
fn blank_text_gives_empty_list() {
    let found = search_results("").expect("an empty text is no error");
    assert!(found.is_empty());
}

#[test]
fn anchors_of_other_classes_are_not_rows() {
    let body = "<html><body><a class=\"search_result_row\" data-ds-appid=\"7\"><span class=\"title\">Other</span></a></body></html>";
    let rows = rows_in(body).expect("both selectors are selectors");
    assert!(rows.is_empty());
}

#[test]
fn rows_come_in_page_order() {
    let body = page(&[
        anchor("data-ds-appid=\"400\"", "<span class=\"title\">Portal</span>"),
        anchor("data-ds-appid=\"620\"", "<div><span class=\"title\">Portal 2</span></div>"),
        anchor("data-ds-appid=\"841\"", "<span class=\"title\">Portal 2 - Soundtrack</span>"),
    ]);
    let found = search_results(&body).unwrap();
    assert_eq!(
        pairs(&found),
        vec![
            ("Portal".to_string(), "400".to_string()),
            ("Portal 2".to_string(), "620".to_string()),
            ("Portal 2 - Soundtrack".to_string(), "841".to_string()),
        ]
    );
}

#[test]
fn bundle_rows_are_left_out() {
    let body = page(&[
        anchor("data-ds-appid=\"400,620\"", "<span class=\"title\">Portal Bundle</span>"),
        anchor("data-ds-appid=\"400\"", "<span class=\"title\">Portal</span>"),
        anchor("data-ds-appid=\",\"", "<span class=\"title\">Comma</span>"),
    ]);
    let found = search_results(&body).unwrap();
    assert_eq!(pairs(&found), vec![("Portal".to_string(), "400".to_string())]);
}

#[test]
fn rows_without_identifier_are_left_out() {
    let body = page(&[
        anchor("", "<span class=\"title\">Nameless</span>"),
        anchor("data-ds-appid=\"10\"", "<span class=\"title\">Counter-Strike</span>"),
    ]);
    let found = search_results(&body).unwrap();
    assert_eq!(pairs(&found), vec![("Counter-Strike".to_string(), "10".to_string())]);
}

#[test]
fn rows_without_title_element_are_left_out() {
    let body = page(&[
        anchor("data-ds-appid=\"400\"", "<span class=\"name\">Portal</span>"),
        anchor("data-ds-appid=\"620\"", "Portal 2"),
        anchor("data-ds-appid=\"70\"", "<span class=\"title\">Half-Life</span>"),
    ]);
    let found = search_results(&body).unwrap();
    assert_eq!(pairs(&found), vec![("Half-Life".to_string(), "70".to_string())]);
}

#[test]
fn title_is_first_text_of_first_title_element() {
    let body = page(&[anchor(
        "data-ds-appid=\"400\"",
        "<span class=\"title\"><b>Portal</b> Deluxe</span><span class=\"title\">Second</span>",
    )]);
    let found = search_results(&body).unwrap();
    assert_eq!(pairs(&found), vec![("Portal".to_string(), "400".to_string())]);
}

#[test]
fn row_with_empty_title_element_is_left_out() {
    let body = page(&[
        anchor("data-ds-appid=\"400\"", "<span class=\"title\">Portal</span>"),
        anchor("data-ds-appid=\"620\"", "<span class=\"title\"></span>"),
        anchor("data-ds-appid=\"70\"", "<span class=\"title\">Half-Life</span>"),
    ]);
    let found = search_results(&body).unwrap();
    assert_eq!(
        pairs(&found),
        vec![("Portal".to_string(), "400".to_string()), ("Half-Life".to_string(), "70".to_string())]
    );
}

#[test]
fn only_row_with_empty_title_element_gives_empty_list() {
    let body = "<a class='search_result_row ds_collapse_flag ' data-ds-appid='400'><span class='title'></span></a>";
    let found = search_results(body).expect("a row without title text is no error");
    assert!(found.is_empty());
    let rows = rows_in(body).unwrap();
    assert_eq!(rows.len(), 1);
    assert_eq!(rows[0].identifier.as_deref(), Some("400"));
    assert!(matches!(rows[0].title, TitleCell::Blank));
}

#[test]
fn empty_title_element_of_a_bundle_is_passed_over() {
    let body = page(&[
        anchor("data-ds-appid=\"1,2\"", "<span class=\"title\"></span>"),
        anchor("", "<span class=\"title\"></span>"),
        anchor("data-ds-appid=\"400\"", "<span class=\"title\">Portal</span>"),
    ]);
    let found = search_results(&body).unwrap();
    assert_eq!(pairs(&found), vec![("Portal".to_string(), "400".to_string())]);
}

#[test]
fn rows_hold_what_the_page_holds() {
    let body = page(&[
        anchor("data-ds-appid=\"1,2\"", "<span class=\"title\">Pack</span>"),
        anchor("", ""),
        anchor("data-ds-appid=\"3\"", "<span class=\"title\"></span>"),
    ]);
    let rows = rows_in(&body).unwrap();
    assert_eq!(rows.len(), 3);
    assert_eq!(rows[0].identifier.as_deref(), Some("1,2"));
    assert!(matches!(&rows[0].title, TitleCell::Text(t) if t == "Pack"));
    assert_eq!(rows[1].identifier, None);
    assert!(matches!(rows[1].title, TitleCell::Missing));
    assert_eq!(rows[2].identifier.as_deref(), Some("3"));
    assert!(matches!(rows[2].title, TitleCell::Blank));
}

#[test]
fn candidates_of_plain_rows() {
    let rows = vec![
        Row { identifier: Some("400".to_string()), title: TitleCell::Text("Portal".to_string()) },
        Row { identifier: None, title: TitleCell::Text("Nameless".to_string()) },
        Row { identifier: Some("4,5".to_string()), title: TitleCell::Blank },
        Row { identifier: Some("9".to_string()), title: TitleCell::Missing },
        Row { identifier: Some("".to_string()), title: TitleCell::Text("".to_string()) },
    ];
    let found = candidates_of(&rows);
    assert_eq!(
        pairs(&found),
        vec![("Portal".to_string(), "400".to_string()), ("".to_string(), "".to_string())]
    );
}

#[test]
fn candidates_of_row_without_title_text_leaves_it_out() {
    let rows = vec![
        Row { identifier: Some("400".to_string()), title: TitleCell::Text("Portal".to_string()) },
        Row { identifier: Some("620".to_string()), title: TitleCell::Blank },
    ];
    assert_eq!(pairs(&candidates_of(&rows)), vec![("Portal".to_string(), "400".to_string())]);
    let alone = vec![Row { identifier: Some("400".to_string()), title: TitleCell::Blank }];
    assert!(candidates_of(&alone).is_empty());
    assert!(candidates_of(&Vec::new()).is_empty());
}

#[test]
fn duplicate_keeps_both_fields() {
    let one = SearchResult { title: "Portal".to_string(), identifier: "400".to_string() };
    let two = one.duplicate();
    assert_eq!(two.title, "Portal");
    assert_eq!(two.identifier, "400");
}

#[test]
fn lost_search_is_a_network_error() {
    assert_eq!(search_from(&Page::Lost).unwrap_err(), LookupError::Network);
}

#[test]
fn search_from_a_page_reads_the_page() {
    let body = page(&[anchor("data-ds-appid=\"400\"", "<span class=\"title\">Portal</span>")]);
    let found = search_from(&Page::Text(body)).unwrap();
    assert_eq!(pairs(&found), vec![("Portal".to_string(), "400".to_string())]);
    let blank = page(&[anchor("data-ds-appid=\"400\"", "<span class=\"title\"></span>")]);
    assert!(search_from(&Page::Text(blank)).unwrap().is_empty());
}

#[test]
fn attribute_values_and_titles_are_decoded() {
    let body = page(&[anchor(
        "data-ds-appid=\"4&amp;2\"",
        "<span class=\"title\">Tom &amp; Jerry&trade;</span>",
    )]);
    let found = search_results(&body).unwrap();
    assert_eq!(pairs(&found), vec![("Tom & Jerry\u{2122}".to_string(), "4&2".to_string())]);
}

#[test]
fn title_keeps_its_spaces() {
    let body = page(&[anchor("data-ds-appid=\"400\"", "<span class=\"title\">  Portal  </span>")]);
    let found = search_results(&body).unwrap();
    assert_eq!(pairs(&found), vec![("  Portal  ".to_string(), "400".to_string())]);
}

#[test]
fn page_beyond_the_limit_is_not_parsed() {
    let mut body = page(&[anchor("data-ds-appid=\"400\"", "<span class=\"title\">Portal</span>")]);
    let padding = " ".repeat(MAX_PAGE_BYTES + 1 - body.len());
    body.push_str(&padding);
    assert_eq!(body.len(), MAX_PAGE_BYTES + 1);
    assert!(rows_in(&body).is_none());
    assert_eq!(search_results(&body).unwrap_err(), LookupError::Parse);
    assert_eq!(search_from(&Page::Text(body)).unwrap_err(), LookupError::Parse);
}

#[test]
fn page_limit_counts_bytes() {
    let mut body = "\u{2122}".repeat(MAX_PAGE_BYTES / 3);
    body.push_str("\u{2122}");
    assert!(body.chars().count() < MAX_PAGE_BYTES);
    assert!(body.len() > MAX_PAGE_BYTES);
    assert!(rows_in(&body).is_none());
}
