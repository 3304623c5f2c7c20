use protondb_lookup::reply::Reply;
use protondb_lookup::screening::Screening;
use protondb_lookup::search::SearchResult;

fn game(title: &str, identifier: &str) -> SearchResult {
    SearchResult { title: title.to_string(), identifier: identifier.to_string() }
}

fn details(identifier: &str, kind: &str) -> Reply {
    Reply::Body(format!("{{\"{}\":{{\"success\":true,\"data\":{{\"type\":\"{}\"}}}}}}", identifier, kind).into_bytes())
}

#[test]
fn screening_of_nothing_is_finished() {
    let screening = Screening::new(Vec::new());
    assert!(screening.is_finished());
    assert_eq!(screening.pending(), None);
    assert!(screening.games().is_empty());
}

#[test]
fn screening_asks_for_each_candidate_in_turn() {
    let first = Screening::new(vec![game("Portal", "400"), game("Portal 2", "620")]);
    assert!(!first.is_finished());
    assert_eq!(first.pending(), Some("https://store.steampowered.com/api/appdetails?appids=400".to_string()));
    let (second, notice) = first.record(&details("400", "game"));
    assert_eq!(notice, None);
    assert!(!second.is_finished());
    assert_eq!(second.pending(), Some("https://store.steampowered.com/api/appdetails?appids=620".to_string()));
    let (third, notice) = second.record(&details("620", "game"));
    assert_eq!(notice, None);
    assert!(third.is_finished());
    assert_eq!(third.pending(), None);
    assert_eq!(third.games(), vec![game("Portal", "400"), game("Portal 2", "620")]);
}

#[test]
fn screening_drops_what_is_no_game() {
    let start = Screening::new(vec![game("Portal", "400"), game("Soundtrack", "841"), game("Half-Life", "70")]);
    let (next, _) = start.record(&details("400", "game"));
    let (next, notice) = next.record(&details("841", "dlc"));
    assert_eq!(notice, None);
    let (next, _) = next.record(&details("70", "game"));
    assert!(next.is_finished());
    assert_eq!(next.games(), vec![game("Portal", "400"), game("Half-Life", "70")]);
}

#[test]
fn screening_warns_and_goes_on_after_a_failure() {
    let start = Screening::new(vec![game("Portal", "400"), game("Portal 2", "620"), game("Half-Life", "70")]);
    let (next, notice) = start.record(&Reply::Lost);
    assert_eq!(notice, Some("Couldn't determine if [Portal] is DLC".to_string()));
    assert!(!next.is_finished());
    let (next, notice) = next.record(&Reply::Body(b"<html>busy</html>".to_vec()));
    assert_eq!(notice, Some("Couldn't determine if [Portal 2] is DLC".to_string()));
    let (next, notice) = next.record(&details("70", "game"));
    assert_eq!(notice, None);
    assert!(next.is_finished());
    assert_eq!(next.games(), vec![game("Half-Life", "70")]);
}

#[test]
fn screening_reads_details_under_the_candidates_identifier() {
    let start = Screening::new(vec![game("Portal", "400")]);
    let (next, notice) = start.record(&details("620", "game"));
    assert_eq!(notice, None);
    assert!(next.games().is_empty());
}

#[test]
fn games_so_far_are_those_with_a_verdict() {
    let start = Screening::new(vec![game("Portal", "400"), game("Portal 2", "620")]);
    assert!(start.games().is_empty());
    let (next, _) = start.record(&details("400", "game"));
    assert_eq!(next.games(), vec![game("Portal", "400")]);
}

#[test]
fn finished_screening_ignores_further_outcomes() {
    let start = Screening::new(vec![game("Portal", "400")]);
    let (done, _) = start.record(&details("400", "game"));
    let (still, notice) = done.record(&Reply::Lost);
    assert_eq!(notice, None);
    assert!(still.is_finished());
    assert_eq!(still.games(), vec![game("Portal", "400")]);
    let (empty, notice) = Screening::new(Vec::new()).record(&details("400", "game"));
    assert_eq!(notice, None);
    assert!(empty.games().is_empty());
}

#[test]
fn equal_candidates_are_judged_one_by_one() {
    let start = Screening::new(vec![game("Portal", "400"), game("Portal", "400")]);
    let (next, _) = start.record(&details("400", "dlc"));
    let (next, _) = next.record(&details("400", "game"));
    assert_eq!(next.games(), vec![game("Portal", "400")]);
}
