//! Index metadata and the settings record used when creating or reconciling
//! an index's configuration.

use vstd::prelude::*;
use std::collections::HashMap;

verus! {

/// Metadata the server reports for one index.
#[derive(Debug)]
pub struct Index {
    pub uid: String,
    pub created_at: String,
    pub updated_at: String,
    pub primary_key: String,
}

impl Clone for Index {
    fn clone(&self) -> (r: Self)
        ensures
            r == *self,
    {
        Index {
            uid: self.uid.clone(),
            created_at: self.created_at.clone(),
            updated_at: self.updated_at.clone(),
            primary_key: self.primary_key.clone(),
        }
    }
}

/// Typo-tolerance section of the index settings.
#[derive(Debug, PartialEq)]
pub struct TypoTolerance {
    pub enabled: bool,
    pub min_word_size_for_typos: MinWordSizeForTypos,
    pub disable_on_words: Vec<String>,
    pub disable_on_attributes: Vec<String>,
}

impl TypoTolerance {
    /// Observational equality: scalar fields equal and list fields holding
    /// the same words in the same order.
    pub open spec fn equiv(self, other: Self) -> bool {
        &&& self.enabled == other.enabled
        &&& self.min_word_size_for_typos == other.min_word_size_for_typos
        &&& self.disable_on_words@ == other.disable_on_words@
        &&& self.disable_on_attributes@ == other.disable_on_attributes@
    }
}

impl Clone for TypoTolerance {
    fn clone(&self) -> (r: Self)
        ensures
            self.equiv(r),
    {
        TypoTolerance {
            enabled: self.enabled,
            min_word_size_for_typos: self.min_word_size_for_typos.clone(),
            disable_on_words: self.disable_on_words.clone(),
            disable_on_attributes: self.disable_on_attributes.clone(),
        }
    }
}

impl Default for TypoTolerance {
    fn default() -> (r: Self)
        ensures
            r.enabled == false,
            r.min_word_size_for_typos == (MinWordSizeForTypos { one_typo: 0, two_typos: 0 }),
            r.disable_on_words@ == Seq::<String>::empty(),
            r.disable_on_attributes@ == Seq::<String>::empty(),
    {
        TypoTolerance {
            enabled: false,
            min_word_size_for_typos: MinWordSizeForTypos::default(),
            disable_on_words: Vec::new(),
            disable_on_attributes: Vec::new(),
        }
    }
}

/// Word-length thresholds at which one or two typos are tolerated.
#[derive(Debug, Clone, Copy, PartialEq, Eq, Structural)]
pub struct MinWordSizeForTypos {
    pub one_typo: i64,
    pub two_typos: i64,
}

impl Default for MinWordSizeForTypos {
    fn default() -> (r: Self)
        ensures
            r == (MinWordSizeForTypos { one_typo: 0, two_typos: 0 }),
    {
        MinWordSizeForTypos { one_typo: 0, two_typos: 0 }
    }
}

/// Faceting section of the index settings.
#[derive(Debug, Clone, Copy, PartialEq, Eq, Structural)]
pub struct Faceting {
    pub max_values_per_facet: i64,
}

impl Default for Faceting {
    fn default() -> (r: Self)
        ensures
            r == (Faceting { max_values_per_facet: 0 }),
    {
        Faceting { max_values_per_facet: 0 }
    }
}

/// Pagination section of the index settings.
#[derive(Debug, Clone, Copy, PartialEq, Eq, Structural)]
pub struct Pagination {
    pub max_total_hits: i64,
}

impl Default for Pagination {
    fn default() -> (r: Self)
        ensures
            r == (Pagination { max_total_hits: 0 }),
    {
        Pagination { max_total_hits: 0 }
    }
}

/// The full settings record of one index. The distinct attribute is either a
/// field name or absent.
#[derive(Debug, PartialEq)]
pub struct IndexSettings {
    pub displayed_attributes: Vec<String>,
    pub searchable_attributes: Vec<String>,
    pub filterable_attributes: Vec<String>,
    pub sortable_attributes: Vec<String>,
    pub ranking_rules: Vec<String>,
    pub stop_words: Vec<String>,
    pub non_separator_tokens: Vec<String>,
    pub separator_tokens: Vec<String>,
    pub dictionary: Vec<String>,
    pub synonyms: HashMap<String, String>,
    pub distinct_attribute: Option<String>,
    pub typo_tolerance: TypoTolerance,
    pub faceting: Faceting,
    pub pagination: Pagination,
    pub proximity_precision: String,
}

impl IndexSettings {
    /// Observational equality: every section equal, list fields holding the
    /// same entries in the same order and the synonyms the same mapping.
    pub open spec fn equiv(self, other: Self) -> bool {
        &&& self.displayed_attributes@ == other.displayed_attributes@
        &&& self.searchable_attributes@ == other.searchable_attributes@
        &&& self.filterable_attributes@ == other.filterable_attributes@
        &&& self.sortable_attributes@ == other.sortable_attributes@
        &&& self.ranking_rules@ == other.ranking_rules@
        &&& self.stop_words@ == other.stop_words@
        &&& self.non_separator_tokens@ == other.non_separator_tokens@
        &&& self.separator_tokens@ == other.separator_tokens@
        &&& self.dictionary@ == other.dictionary@
        &&& self.synonyms@ == other.synonyms@
        &&& self.distinct_attribute == other.distinct_attribute
        &&& self.typo_tolerance.equiv(other.typo_tolerance)
        &&& self.faceting == other.faceting
        &&& self.pagination == other.pagination
        &&& self.proximity_precision == other.proximity_precision
    }
}

impl Clone for IndexSettings {
    fn clone(&self) -> (r: Self)
        ensures
            self.equiv(r),
    {
        IndexSettings {
            displayed_attributes: self.displayed_attributes.clone(),
            searchable_attributes: self.searchable_attributes.clone(),
            filterable_attributes: self.filterable_attributes.clone(),
            sortable_attributes: self.sortable_attributes.clone(),
            ranking_rules: self.ranking_rules.clone(),
            stop_words: self.stop_words.clone(),
            non_separator_tokens: self.non_separator_tokens.clone(),
            separator_tokens: self.separator_tokens.clone(),
            dictionary: self.dictionary.clone(),
            synonyms: self.synonyms.clone(),
            distinct_attribute: match &self.distinct_attribute {
                Some(s) => Some(s.clone()),
                None => None,
            },
            typo_tolerance: self.typo_tolerance.clone(),
            faceting: self.faceting,
            pagination: self.pagination,
            proximity_precision: self.proximity_precision.clone(),
        }
    }
}

impl Default for IndexSettings {
    fn default() -> (r: Self)
        ensures
            r.displayed_attributes@ == Seq::<String>::empty(),
            r.searchable_attributes@ == Seq::<String>::empty(),
            r.filterable_attributes@ == Seq::<String>::empty(),
            r.sortable_attributes@ == Seq::<String>::empty(),
            r.ranking_rules@ == Seq::<String>::empty(),
            r.stop_words@ == Seq::<String>::empty(),
            r.non_separator_tokens@ == Seq::<String>::empty(),
            r.separator_tokens@ == Seq::<String>::empty(),
            r.dictionary@ == Seq::<String>::empty(),
            r.synonyms@ == Map::<String, String>::empty(),
            r.distinct_attribute is None,
            r.typo_tolerance.enabled == false,
            r.faceting == (Faceting { max_values_per_facet: 0 }),
            r.pagination == (Pagination { max_total_hits: 0 }),
            r.proximity_precision@ == Seq::<char>::empty(),
    {
        IndexSettings {
            displayed_attributes: Vec::new(),
            searchable_attributes: Vec::new(),
            filterable_attributes: Vec::new(),
            sortable_attributes: Vec::new(),
            ranking_rules: Vec::new(),
            stop_words: Vec::new(),
            non_separator_tokens: Vec::new(),
            separator_tokens: Vec::new(),
            dictionary: Vec::new(),
            synonyms: HashMap::new(),
            distinct_attribute: None,
            typo_tolerance: TypoTolerance::default(),
            faceting: Faceting::default(),
            pagination: Pagination::default(),
            proximity_precision: String::new(),
        }
    }
}

} // verus!
