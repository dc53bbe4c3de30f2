//! Builder for a search request. Every setter leaves the rest of the
//! request exactly as it was.

use vstd::prelude::*;

verus! {

/// One search request against an index. Fields left at their defaults are
/// not sent, letting the server apply its own.
#[derive(Debug)]
pub struct Search {
    pub query: String,
    /// Number of documents to skip.
    pub offset: Option<u32>,
    /// Maximum number of documents returned.
    pub limit: Option<u32>,
    /// Maximum number of documents returned for a page.
    pub hits_per_page: Option<u32>,
    /// Request a specific page of results.
    pub page: Option<u32>,
    /// Filter queries by an attribute's value.
    pub filter: Option<String>,
    /// Display the count of matches per facet.
    pub facets: Vec<String>,
    /// Attributes to display in the returned documents.
    pub attributes_to_retrieve: Vec<String>,
    /// Attributes whose values have to be cropped.
    pub attributes_to_crop: Vec<String>,
    /// Maximum length of cropped values.
    pub crop_length: Option<u32>,
    /// String marking crop boundaries.
    pub crop_marker: Option<String>,
    /// Highlight matching terms contained in an attribute.
    pub attributes_to_highlight: Vec<String>,
    /// String inserted at the start of a highlighted term.
    pub highlight_pre_tag: Option<String>,
    /// String inserted at the end of a highlighted term.
    pub highlight_post_tag: Option<String>,
    /// Return matching terms location.
    pub show_matches_position: Option<bool>,
    /// Sort search results by an attribute's value.
    pub sort: Vec<String>,
    /// Strategy used to match query terms within documents.
    pub matching_strategy: Option<String>,
    /// Display the global ranking score of a document.
    pub show_ranking_score: Option<bool>,
    /// Restrict search to the specified attributes.
    pub attributes_to_search_on: Vec<String>,
}

impl Search {
    /// A request for `query` with every option left at the server default.
    pub fn new(query: String) -> (s: Search)
        ensures
            s.query == query,
            s.offset is None,
            s.limit is None,
            s.hits_per_page is None,
            s.page is None,
            s.filter is None,
            s.facets@ == Seq::<String>::empty(),
            s.attributes_to_retrieve@ == Seq::<String>::empty(),
            s.attributes_to_crop@ == Seq::<String>::empty(),
            s.crop_length is None,
            s.crop_marker is None,
            s.attributes_to_highlight@ == Seq::<String>::empty(),
            s.highlight_pre_tag is None,
            s.highlight_post_tag is None,
            s.show_matches_position is None,
            s.sort@ == Seq::<String>::empty(),
            s.matching_strategy is None,
            s.show_ranking_score is None,
            s.attributes_to_search_on@ == Seq::<String>::empty(),
    {
        Search {
            query,
            offset: None,
            limit: None,
            hits_per_page: None,
            page: None,
            filter: None,
            facets: Vec::new(),
            attributes_to_retrieve: Vec::new(),
            attributes_to_crop: Vec::new(),
            crop_length: None,
            crop_marker: None,
            attributes_to_highlight: Vec::new(),
            highlight_pre_tag: None,
            highlight_post_tag: None,
            show_matches_position: None,
            sort: Vec::new(),
            matching_strategy: None,
            show_ranking_score: None,
            attributes_to_search_on: Vec::new(),
        }
    }

    /// Sets how many hits one page holds; everything else is untouched.
    pub fn hits_per_page(self, n: Option<u32>) -> (r: Search)
        ensures
            r == (Search { hits_per_page: n, ..self }),
    {
        let mut s = self;
        s.hits_per_page = n;
        s
    }

    /// Requests a specific page of results; everything else is untouched.
    pub fn page(self, p: Option<u32>) -> (r: Search)
        ensures
            r == (Search { page: p, ..self }),
    {
        let mut s = self;
        s.page = p;
        s
    }

    /// Appends one sort criterion, keeping the earlier ones in order;
    /// everything else is untouched.
    pub fn sort_by(self, criterion: String) -> (r: Search)
        ensures
            r == (Search { sort: r.sort, ..self }),
            r.sort@ == self.sort@.push(criterion),
    {
        let mut s = self;
        s.sort.push(criterion);
        s
    }

    /// Sets or clears the filter; everything else is untouched.
    pub fn filter(self, f: Option<String>) -> (r: Search)
        ensures
            r == (Search { filter: f, ..self }),
    {
        let mut s = self;
        s.filter = f;
        s
    }
}

} // verus!
