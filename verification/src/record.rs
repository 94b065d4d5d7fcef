use vstd::prelude::*;

verus! {

/// Search result
#[derive(Debug)]
pub struct SearchResult {
    /// Title of the search result
    pub title: String,
    /// URL of the search result
    pub url: String,
    /// Snippet of the search result
    pub snippet: String,
}

/// The mathematical value of a [`SearchResult`].
pub struct SearchResultView {
    pub title: Seq<char>,
    pub url: Seq<char>,
    pub snippet: Seq<char>,
}

impl View for SearchResult {
    type V = SearchResultView;

    open spec fn view(&self) -> SearchResultView {
        SearchResultView { title: self.title@, url: self.url@, snippet: self.snippet@ }
    }
}

/// The mathematical values of a list of records, in the same order.
pub open spec fn records(list: Seq<SearchResult>) -> Seq<SearchResultView> {
    Seq::new(list.len(), |i: int| list[i]@)
}

/// Appending a record to a list appends its value to the list's values.
pub proof fn records_push(list: Seq<SearchResult>, record: SearchResult)
    ensures
        records(list.push(record)) == records(list).push(record@),
{
    assert(records(list.push(record)) =~= records(list).push(record@));
}

} // verus!
