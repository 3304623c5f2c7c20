//! The addresses of the three services.

use vstd::prelude::*;

verus! {

/// The storefront's search page, up to the search term.
pub const SEARCH_BASE: &'static str = "https://store.steampowered.com/search/?term=";

/// The storefront's details service, up to the identifier.
pub const DETAILS_BASE: &'static str = "https://store.steampowered.com/api/appdetails?appids=";

/// The ratings service's summaries, up to the identifier.
pub const RATINGS_BASE: &'static str = "https://www.protondb.com/api/v1/reports/summaries/";

/// What follows the identifier in the address of a ratings summary.
pub const RATINGS_SUFFIX: &'static str = ".json";

/// The address of the search page for a term.
pub open spec fn search_address(term: Seq<char>) -> Seq<char> {
    SEARCH_BASE@ + term
}

/// The address of the details of an identifier.
pub open spec fn details_address(identifier: Seq<char>) -> Seq<char> {
    DETAILS_BASE@ + identifier
}

/// The address of the ratings summary of an identifier.
pub open spec fn ratings_address(identifier: Seq<char>) -> Seq<char> {
    RATINGS_BASE@ + identifier + RATINGS_SUFFIX@
}

/// The address of the search page for a term. The term follows the base as it
/// is: nothing in it is escaped.
pub fn search_url(term: &str) -> (url: String)
    ensures
        url@ == search_address(term@),
{
    let mut url = String::from_str(SEARCH_BASE);
    url.append(term);
    url
}

/// The address of the details of an identifier.
pub fn details_url(identifier: &str) -> (url: String)
    ensures
        url@ == details_address(identifier@),
{
    let mut url = String::from_str(DETAILS_BASE);
    url.append(identifier);
    url
}

/// The address of the ratings summary of an identifier.
pub fn ratings_url(identifier: &str) -> (url: String)
    ensures
        url@ == ratings_address(identifier@),
{
    let mut url = String::from_str(RATINGS_BASE);
    url.append(identifier);
    url.append(RATINGS_SUFFIX);
    url
}

} // verus!
