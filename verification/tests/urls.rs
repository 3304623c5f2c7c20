use protondb_lookup::url::{details_url, ratings_url, search_url};

#[test]
fn search_url_appends_the_term() {
    assert_eq!(search_url("Portal"), "https://store.steampowered.com/search/?term=Portal");
    assert_eq!(search_url(""), "https://store.steampowered.com/search/?term=");
}

#[test]
fn search_url_escapes_nothing() {
    assert_eq!(
        search_url("half life & more #1?\n"),
        "https://store.steampowered.com/search/?term=half life & more #1?\n"
    );
}

#[test]
fn details_url_appends_the_identifier() {
    assert_eq!(details_url("400"), "https://store.steampowered.com/api/appdetails?appids=400");
}

#[test]
fn ratings_url_wraps_the_identifier() {
    assert_eq!(ratings_url("400"), "https://www.protondb.com/api/v1/reports/summaries/400.json");
    assert_eq!(ratings_url(""), "https://www.protondb.com/api/v1/reports/summaries/.json");
}
