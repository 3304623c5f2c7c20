//! The lines that the program shows.

use crate::error::{ChoiceError, LookupError};
use crate::ratings::{RatingRecord, RatingRecordView};
use crate::search::{result_views, SearchResult, SearchResultView};
use crate::text::{decimal, decimal_text, line_views};
use vstd::prelude::*;

verus! {

/// Shown where the search itself failed.
pub const SEARCH_FAILED: &'static str = "Failed to retrieve games list!!!";

/// Shown where the search leaves no game.
pub const NO_GAMES: &'static str = "No Games Found!!!";

/// Shown where the typed choice is no number.
pub const NOT_A_NUMBER: &'static str = "Choice must be a number!!!";

/// Shown where the typed choice names no entry of the list.
pub const INVALID_CHOICE: &'static str = "Invalid choice selected!!!";

/// Shown where the ratings could not be had.
pub const RATINGS_FAILED: &'static str = "Failed to retrieve ProtonDB info!!!";

/// The rule above the ratings.
pub const SUMMARY_RULE: &'static str = "###################################";

/// The line of one entry of the numbered list.
pub open spec fn entry_line(index: nat, title: Seq<char>) -> Seq<char> {
    "["@ + decimal(index) + "]: "@ + title
}

/// The numbered list of the results' titles, counted from zero.
pub open spec fn listing_lines(results: Seq<SearchResultView>) -> Seq<Seq<char>> {
    Seq::new(results.len(), |i: int| entry_line(i as nat, results[i].title))
}

/// The warning for a candidate whose kind could not be determined.
pub open spec fn warning_line(title: Seq<char>) -> Seq<char> {
    "Couldn't determine if ["@ + title + "] is DLC"@
}

/// The heading of the ratings of one title.
pub open spec fn heading_line(chosen: SearchResultView) -> Seq<char> {
    "ProtonDB Info ["@ + chosen.title + "] ["@ + chosen.identifier + "]:"@
}

/// The ratings of one title: a rule, the heading, and the six fields, each
/// after its label as the record holds it.
pub open spec fn summary_lines(chosen: SearchResultView, record: RatingRecordView) -> Seq<
    Seq<char>,
> {
    seq![
        SUMMARY_RULE@,
        heading_line(chosen),
        "Best Reported Tier: "@ + record.best_reported_tier,
        "Current Tier: "@ + record.current_tier,
        "Trending Tier: "@ + record.trending_tier,
        "Total User Reviews: "@ + record.total_reports,
        "ProtonDB Score: "@ + record.score,
        "Confidence: "@ + record.confidence,
    ]
}

/// What is shown for the outcome of the ratings request: the ratings, or the
/// one line that says they could not be had, whatever the failure was.
pub open spec fn report_lines(
    chosen: SearchResultView,
    ratings: Result<RatingRecordView, LookupError>,
) -> Seq<Seq<char>> {
    match ratings {
        Ok(record) => summary_lines(chosen, record),
        Err(_) => seq![RATINGS_FAILED@],
    }
}

/// The message for a refused choice.
pub open spec fn choice_message(error: ChoiceError) -> Seq<char> {
    match error {
        ChoiceError::NotANumber => NOT_A_NUMBER@,
        ChoiceError::OutOfRange => INVALID_CHOICE@,
    }
}

impl ChoiceError {
    /// The line that tells the user why the choice was refused.
    pub fn message(&self) -> (text: &'static str)
        ensures
            text@ == choice_message(*self),
    {
        match self {
            ChoiceError::NotANumber => NOT_A_NUMBER,
            ChoiceError::OutOfRange => INVALID_CHOICE,
        }
    }
}

fn labelled(label: &str, value: &str) -> (line: String)
    ensures
        line@ == label@ + value@,
{
    let mut line = String::from_str(label);
    line.append(value);
    line
}

/// The line of one entry of the numbered list.
pub fn listing_line(index: usize, title: &str) -> (line: String)
    ensures
        line@ == entry_line(index as nat, title@),
{
    let mut line = String::from_str("[");
    line.append(decimal_text(index).as_str());
    line.append("]: ");
    line.append(title);
    line
}

/// The numbered list of the results' titles.
pub fn listing(results: &Vec<SearchResult>) -> (lines: Vec<String>)
    ensures
        line_views(lines@) == listing_lines(result_views(results@)),
{
    let mut lines: Vec<String> = Vec::new();
    let mut i: usize = 0;
    while i < results.len()
        invariant
            i <= results.len(),
            lines.len() == i,
            forall|k: int|
                0 <= k < i ==> (#[trigger] lines@[k])@ == entry_line(k as nat, results@[k].title@),
        decreases results.len() - i,
    {
        lines.push(listing_line(i, results[i].title.as_str()));
        i += 1;
    }
    assert(line_views(lines@) =~= listing_lines(result_views(results@)));
    lines
}

/// The numbered list to choose from, or `None` where the search left no game
/// to choose.
pub fn menu(games: &Vec<SearchResult>) -> (lines: Option<Vec<String>>)
    ensures
        match lines {
            Some(lines) => games.len() > 0 && line_views(lines@) == listing_lines(
                result_views(games@),
            ),
            None => games.len() == 0,
        },
{
    if games.len() == 0 {
        None
    } else {
        Some(listing(games))
    }
}

/// The warning for a candidate whose kind could not be determined.
pub fn warning(title: &str) -> (line: String)
    ensures
        line@ == warning_line(title@),
{
    let mut line = String::from_str("Couldn't determine if [");
    line.append(title);
    line.append("] is DLC");
    line
}

/// The ratings of one title, line by line.
pub fn summary(chosen: &SearchResult, record: &RatingRecord) -> (lines: Vec<String>)
    ensures
        line_views(lines@) == summary_lines(chosen@, record@),
{
    let mut heading = String::from_str("ProtonDB Info [");
    heading.append(chosen.title.as_str());
    heading.append("] [");
    heading.append(chosen.identifier.as_str());
    heading.append("]:");
    let mut lines: Vec<String> = Vec::new();
    lines.push(String::from_str(SUMMARY_RULE));
    lines.push(heading);
    lines.push(labelled("Best Reported Tier: ", record.best_reported_tier.as_str()));
    lines.push(labelled("Current Tier: ", record.current_tier.as_str()));
    lines.push(labelled("Trending Tier: ", record.trending_tier.as_str()));
    lines.push(labelled("Total User Reviews: ", record.total_reports.as_str()));
    lines.push(labelled("ProtonDB Score: ", record.score.as_str()));
    lines.push(labelled("Confidence: ", record.confidence.as_str()));
    assert(line_views(lines@) =~= summary_lines(chosen@, record@));
    lines
}

/// What is shown for the outcome of the ratings request.
pub fn report(chosen: &SearchResult, ratings: &Result<RatingRecord, LookupError>) -> (lines: Vec<
    String,
>)
    ensures
        line_views(lines@) == report_lines(
            chosen@,
            match ratings {
                Ok(record) => Ok(record@),
                Err(e) => Err(*e),
            },
        ),
{
    match ratings {
        Ok(record) => summary(chosen, record),
        Err(_) => {
            let mut lines: Vec<String> = Vec::new();
            lines.push(String::from_str(RATINGS_FAILED));
            assert(line_views(lines@) =~= seq![RATINGS_FAILED@]);
            lines
        },
    }
}

} // verus!
