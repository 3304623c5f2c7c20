//! Reading the storefront's search page: from the page's text to the list of
//! candidate titles.

use crate::error::LookupError;
use crate::html::{
    attribute, document_selection, element_attributes, element_selection, element_texts,
    parse_document, parse_selector, parsed_document, parsed_selector, select_in_document,
    select_in_element, texts, MAX_PAGE_BYTES,
};
use crate::reply::{Page, PageView};
use crate::text::{contains_char, utf8_len};
use vstd::prelude::*;

verus! {

/// Selects the anchor of one result row of the search page.
pub const ROW_SELECTOR: &'static str = "a[class=\"search_result_row ds_collapse_flag \"]";

/// Selects, below a row's anchor, the element that holds the title.
pub const TITLE_SELECTOR: &'static str = "span[class=\"title\"]";

/// The attribute of a row's anchor that holds the application identifier.
pub const IDENTIFIER_ATTRIBUTE: &'static str = "data-ds-appid";

/// The title as one result row gives it.
#[derive(Clone, Debug, PartialEq, Eq)]
pub enum TitleCell {
    /// The row has no title element.
    Missing,
    /// The row has a title element and no text below it. A listing passes
    /// such a row over, as it does one without a title element.
    Blank,
    /// The first piece of text below the row's first title element.
    Text(String),
}

/// What is read from one result row of the search page.
#[derive(Clone, Debug, PartialEq, Eq)]
pub struct Row {
    /// The identifier attribute of the row's anchor, if it has one.
    pub identifier: Option<String>,
    pub title: TitleCell,
}

/// One title of the storefront with the key under which the services know it.
#[derive(Clone, Debug, PartialEq, Eq)]
pub struct SearchResult {
    pub title: String,
    pub identifier: String,
}

/// A title cell, its text as a sequence of characters.
pub enum TitleCellView {
    Missing,
    Blank,
    Text(Seq<char>),
}

/// A row, its texts as sequences of characters.
pub struct RowView {
    pub identifier: Option<Seq<char>>,
    pub title: TitleCellView,
}

/// A result, its texts as sequences of characters.
pub struct SearchResultView {
    pub title: Seq<char>,
    pub identifier: Seq<char>,
}

impl View for TitleCell {
    type V = TitleCellView;

    open spec fn view(&self) -> TitleCellView {
        match self {
            TitleCell::Missing => TitleCellView::Missing,
            TitleCell::Blank => TitleCellView::Blank,
            TitleCell::Text(t) => TitleCellView::Text(t@),
        }
    }
}

impl View for Row {
    type V = RowView;

    open spec fn view(&self) -> RowView {
        RowView {
            identifier: match self.identifier {
                Some(id) => Some(id@),
                None => None,
            },
            title: self.title@,
        }
    }
}

impl View for SearchResult {
    type V = SearchResultView;

    open spec fn view(&self) -> SearchResultView {
        SearchResultView { title: self.title@, identifier: self.identifier@ }
    }
}

impl SearchResult {
    /// A second value with the same title and identifier.
    pub fn duplicate(&self) -> (copy: SearchResult)
        ensures
            copy@ == self@,
    {
        SearchResult { title: self.title.clone(), identifier: self.identifier.clone() }
    }
}

/// The views of a sequence of rows, in order.
pub open spec fn row_views(rows: Seq<Row>) -> Seq<RowView> {
    rows.map_values(|row: Row| row@)
}

/// The views of a sequence of results, in order.
pub open spec fn result_views(results: Seq<SearchResult>) -> Seq<SearchResultView> {
    results.map_values(|result: SearchResult| result@)
}

/// An identifier with a comma names a bundle, not one title.
pub open spec fn is_bundle(identifier: Seq<char>) -> bool {
    identifier.contains(',')
}

/// The row has an identifier, and it names one title.
pub open spec fn addressable(row: RowView) -> bool {
    row.identifier matches Some(identifier) && !is_bundle(identifier)
}

/// The row is one that a listing shows.
pub open spec fn listable(row: RowView) -> bool {
    addressable(row) && row.title is Text
}

/// The result that a listable row stands for.
pub open spec fn entry_of(row: RowView) -> SearchResultView
    recommends
        listable(row),
{
    SearchResultView { title: row.title->Text_0, identifier: row.identifier->Some_0 }
}

/// The results of the listable rows, in the rows' order.
pub open spec fn entries(rows: Seq<RowView>) -> Seq<SearchResultView> {
    rows.filter(|row: RowView| listable(row)).map_values(|row: RowView| entry_of(row))
}

/// Appending a row appends its result if it is listable, and nothing else.
pub proof fn lemma_entries_push(rows: Seq<RowView>, row: RowView)
    ensures
        entries(rows.push(row)) == if listable(row) {
            entries(rows).push(entry_of(row))
        } else {
            entries(rows)
        },
{
    let keep = |row: RowView| listable(row);
    rows.lemma_filter_push(row, keep);
    assert(rows.filter(keep).push(row).map_values(|row: RowView| entry_of(row))
        =~= rows.filter(keep).map_values(|row: RowView| entry_of(row)).push(entry_of(row)));
}

/// Rows that yield no result are no error: without rows the list is empty.
pub proof fn lemma_no_rows_no_entries()
    ensures
        entries(Seq::<RowView>::empty()) == Seq::<SearchResultView>::empty(),
{
    reveal(Seq::filter);
    assert(entries(Seq::<RowView>::empty()) =~= Seq::<SearchResultView>::empty());
}

/// The results of two runs of rows, one after the other, are the results of
/// the first followed by those of the second.
pub proof fn lemma_entries_add(first: Seq<RowView>, second: Seq<RowView>)
    ensures
        entries(first + second) == entries(first) + entries(second),
{
    let keep = |row: RowView| listable(row);
    Seq::filter_distributes_over_add(first, second, keep);
    assert((first.filter(keep) + second.filter(keep)).map_values(|row: RowView| entry_of(row))
        =~= entries(first) + entries(second));
}

/// A row that is not listable leaves no trace: the rows yield what they
/// yield without it.
pub proof fn lemma_passed_over(before: Seq<RowView>, row: RowView, after: Seq<RowView>)
    requires
        !listable(row),
    ensures
        entries(before.push(row) + after) == entries(before + after),
{
    lemma_entries_push(before, row);
    lemma_entries_add(before.push(row), after);
    lemma_entries_add(before, after);
}

/// A row whose identifier holds a comma is never among the results, whatever
/// its title: the rows yield what they yield without it.
pub proof fn lemma_bundle_row_excluded(before: Seq<RowView>, row: RowView, after: Seq<RowView>)
    requires
        row.identifier matches Some(identifier) && identifier.contains(','),
    ensures
        entries(before.push(row) + after) == entries(before + after),
{
    lemma_passed_over(before, row, after);
}

/// A row without a title element is left out entirely, whatever its
/// identifier: the rows yield what they yield without it.
pub proof fn lemma_row_without_title_excluded(
    before: Seq<RowView>,
    row: RowView,
    after: Seq<RowView>,
)
    requires
        row.title is Missing,
    ensures
        entries(before.push(row) + after) == entries(before + after),
{
    lemma_passed_over(before, row, after);
}

/// A row whose title element holds no text is left out like one without a
/// title element, and the rows around it are listed as they are.
pub proof fn lemma_row_without_title_text_excluded(
    before: Seq<RowView>,
    row: RowView,
    after: Seq<RowView>,
)
    requires
        row.title is Blank,
    ensures
        entries(before.push(row) + after) == entries(before + after),
{
    lemma_passed_over(before, row, after);
}

/// A row without an identifier is left out, whatever its title.
pub proof fn lemma_row_without_identifier_excluded(
    before: Seq<RowView>,
    row: RowView,
    after: Seq<RowView>,
)
    requires
        row.identifier is None,
    ensures
        entries(before.push(row) + after) == entries(before + after),
{
    lemma_passed_over(before, row, after);
}

/// No result has a comma in its identifier, and each result is that of a row
/// with an identifier and a title text.
pub proof fn lemma_results_from_listable_rows(rows: Seq<RowView>, k: int)
    requires
        0 <= k < entries(rows).len(),
    ensures
        !entries(rows)[k].identifier.contains(','),
        exists|i: int| 0 <= i < rows.len() && listable(#[trigger] rows[i]) && entries(rows)[k] == entry_of(rows[i]),
{
    let keep = |row: RowView| listable(row);
    let kept = rows.filter(keep);
    rows.lemma_filter_pred(keep, k);
    rows.lemma_filter_contains_rev(keep, kept[k]);
    let i = choose|i: int| 0 <= i < rows.len() && rows[i] == kept[k];
    assert(listable(rows[i]) && entries(rows)[k] == entry_of(rows[i]));
}

/// The candidates among rows that were read from a page: the results of the
/// listable rows, in the rows' order. Every other row is passed over.
pub fn candidates_of(rows: &Vec<Row>) -> (list: Vec<SearchResult>)
    ensures
        result_views(list@) == entries(row_views(rows@)),
        rows.len() == 0 ==> list.len() == 0,
        forall|k: int| 0 <= k < list.len() ==> !(#[trigger] list@[k]).identifier@.contains(','),
{
    let mut list: Vec<SearchResult> = Vec::new();
    let mut i: usize = 0;
    proof {
        assert(row_views(rows@).take(0) =~= Seq::<RowView>::empty());
        lemma_no_rows_no_entries();
        assert(result_views(list@) =~= Seq::<SearchResultView>::empty());
    }
    while i < rows.len()
        invariant
            i <= rows.len(),
            result_views(list@) == entries(row_views(rows@).take(i as int)),
            i == 0 ==> list.len() == 0,
            forall|k: int|
                0 <= k < list.len() ==> !(#[trigger] list@[k]).identifier@.contains(','),
        decreases rows.len() - i,
    {
        let row = &rows[i];
        let ghost before = list@;
        proof {
            let views = row_views(rows@);
            assert(views[i as int] == row@);
            assert(views.take(i + 1) =~= views.take(i as int).push(row@));
            lemma_entries_push(views.take(i as int), row@);
        }
        match &row.identifier {
            Some(identifier) => {
                if !contains_char(identifier.as_str(), ',') {
                    match &row.title {
                        TitleCell::Text(title) => {
                            let entry = SearchResult {
                                title: title.clone(),
                                identifier: identifier.clone(),
                            };
                            assert(entry@ == entry_of(row@));
                            list.push(entry);
                            assert(result_views(list@) =~= result_views(before).push(entry@));
                        },
                        TitleCell::Blank => {},
                        TitleCell::Missing => {},
                    }
                }
            },
            None => {},
        }
        i += 1;
    }
    assert(row_views(rows@).take(i as int) =~= row_views(rows@));
    list
}

/// What the library reads from one matched anchor: the identifier attribute,
/// and the first text below the first element that the title selector finds
/// under the anchor.
pub open spec fn row_of(element: scraper::ElementRef, title_selector: scraper::Selector) -> RowView {
    let attributes = element_attributes(element);
    let holders = element_selection(element, title_selector);
    RowView {
        identifier: if attributes.contains_key(IDENTIFIER_ATTRIBUTE@) {
            Some(attributes[IDENTIFIER_ATTRIBUTE@])
        } else {
            None
        },
        title: if holders.len() == 0 {
            TitleCellView::Missing
        } else if element_texts(holders[0]).len() == 0 {
            TitleCellView::Blank
        } else {
            TitleCellView::Text(element_texts(holders[0])[0])
        },
    }
}

/// The rows of a page: one for each element that the row selector finds in
/// the parsed page, in the order in which the selection yields them. `None`
/// where the page is longer than the parser is given, and where one of the
/// two selectors is not accepted as a selector.
pub open spec fn page_rows(page: Seq<char>) -> Option<Seq<RowView>> {
    if utf8_len(page) > MAX_PAGE_BYTES {
        None
    } else {
        match (parsed_selector(ROW_SELECTOR@), parsed_selector(TITLE_SELECTOR@)) {
            (Some(row_selector), Some(title_selector)) => Some(
                document_selection(parsed_document(page), row_selector).map_values(
                    |element: scraper::ElementRef<'static>| row_of(element, title_selector),
                ),
            ),
            _ => None,
        }
    }
}

/// What a search page yields: the results of its listable rows, and a parse
/// error only where the rows cannot be had.
pub open spec fn page_candidates(page: Seq<char>) -> Result<Seq<SearchResultView>, LookupError> {
    match page_rows(page) {
        Some(rows) => Ok(entries(rows)),
        None => Err(LookupError::Parse),
    }
}

/// Reads one matched anchor.
fn read_row(element: &scraper::ElementRef, title_selector: &scraper::Selector) -> (row: Row)
    ensures
        row@ == row_of(*element, *title_selector),
{
    let identifier = attribute(element, IDENTIFIER_ATTRIBUTE);
    let holders = select_in_element(element, title_selector);
    let title = if holders.len() == 0 {
        TitleCell::Missing
    } else {
        let mut pieces = texts(&holders[0]);
        if pieces.len() == 0 {
            TitleCell::Blank
        } else {
            TitleCell::Text(pieces.swap_remove(0))
        }
    };
    Row { identifier, title }
}

/// Reads the rows of a search page: one for each anchor that the row selector
/// finds. `None` where the page is longer than `MAX_PAGE_BYTES` bytes, and
/// where one of the two selectors is not accepted as a selector.
pub fn rows_in(page: &str) -> (rows: Option<Vec<Row>>)
    ensures
        match rows {
            Some(rows) => page_rows(page@) == Some(row_views(rows@)),
            None => page_rows(page@) is None,
        },
{
    if page.as_bytes().len() > MAX_PAGE_BYTES {
        return None;
    }
    proof {
        reveal_strlit("a[class=\"search_result_row ds_collapse_flag \"]");
        reveal_strlit("span[class=\"title\"]");
    }
    let row_selector = match parse_selector(ROW_SELECTOR) {
        Ok(selector) => selector,
        Err(_) => {
            return None;
        },
    };
    let title_selector = match parse_selector(TITLE_SELECTOR) {
        Ok(selector) => selector,
        Err(_) => {
            return None;
        },
    };
    let document = parse_document(page);
    let anchors = select_in_document(&document, &row_selector);
    let mut rows: Vec<Row> = Vec::new();
    let mut i: usize = 0;
    while i < anchors.len()
        invariant
            i <= anchors.len(),
            rows.len() == i,
            forall|k: int| 0 <= k < i ==> (#[trigger] rows@[k])@ == row_of(anchors@[k], title_selector),
        decreases anchors.len() - i,
    {
        let row = read_row(&anchors[i], &title_selector);
        rows.push(row);
        i += 1;
    }
    assert(row_views(rows@) =~= anchors@.map_values(
        |element: scraper::ElementRef<'static>| row_of(element, title_selector),
    ));
    Some(rows)
}

/// The candidate titles of a search page, in the order of the page's rows.
///
/// A row counts if its anchor has an identifier without a comma and a title
/// element with text below it. Every other row is passed over: one whose
/// identifier is missing or names a bundle, one without a title element, and
/// one whose title element holds no text. A page without a row that counts
/// yields the empty list. The search fails only where the rows cannot be had:
/// on a page of more than `MAX_PAGE_BYTES` bytes, which is not parsed, and
/// where a selector is not accepted.
pub fn search_results(page: &str) -> (found: Result<Vec<SearchResult>, LookupError>)
    ensures
        match found {
            Ok(list) => page_candidates(page@) == Ok::<_, LookupError>(result_views(list@)),
            Err(e) => page_candidates(page@) == Err::<Seq<SearchResultView>, _>(e),
        },
        found is Err <==> page_rows(page@) is None,
        (page_rows(page@) matches Some(rows) && rows.len() == 0) ==> (found matches Ok(list)
            && list.len() == 0),
        found matches Ok(list) ==> forall|k: int|
            0 <= k < list.len() ==> !(#[trigger] list@[k]).identifier@.contains(','),
{
    match rows_in(page) {
        Some(rows) => Ok(candidates_of(&rows)),
        None => Err(LookupError::Parse),
    }
}

/// What the outcome of the search request yields: the candidates of the page
/// that came back, and a network error where none did.
pub open spec fn reply_candidates(page: PageView) -> Result<Seq<SearchResultView>, LookupError> {
    match page {
        PageView::Text(text) => page_candidates(text),
        PageView::Lost => Err(LookupError::Network),
    }
}

/// The candidate titles that the outcome of the search request yields.
pub fn search_from(page: &Page) -> (found: Result<Vec<SearchResult>, LookupError>)
    ensures
        match found {
            Ok(list) => reply_candidates(page@) == Ok::<_, LookupError>(result_views(list@)),
            Err(e) => reply_candidates(page@) == Err::<Seq<SearchResultView>, _>(e),
        },
{
    match page {
        Page::Text(text) => search_results(text.as_str()),
        Page::Lost => Err(LookupError::Network),
    }
}

} // verus!
