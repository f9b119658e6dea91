//! What the marketplace search window shows, decided from its state: which
//! body, the label of the downloads button, and the subtitle of a card.

use vstd::prelude::*;
use crate::text::{chars_of, decimal, decimal_chars, string_from_chars, vec_append, vec_append_str};

verus! {

/// The main area of the search window.
#[derive(Clone, Copy, Debug, PartialEq, Eq, Structural)]
pub enum SearchBody {
    /// A search is running.
    Searching,
    /// The search failed; with an "Open in Browser" button when the failed
    /// URL is known.
    SearchError { can_open_browser: bool },
    /// A listing is selected and its details are loading.
    DetailLoading,
    /// A listing is selected and its details failed to load.
    DetailError,
    /// A listing is selected and its details are shown.
    Detail,
    /// A listing is selected but nothing has arrived yet.
    DetailPending,
    /// No results: an invitation to search.
    Prompt,
    /// The results grid.
    Results,
}

/// The state the body is chosen from.
#[derive(Clone, Copy, Debug)]
pub struct SearchViewState {
    pub is_loading: bool,
    pub has_error: bool,
    pub has_last_url: bool,
    pub has_selection: bool,
    pub detail_loading: bool,
    pub has_detail_error: bool,
    pub has_detail: bool,
    pub has_results: bool,
}

/// The body for a state: a running search first, then a search error, then
/// a selected listing (loading, failed, shown or pending, in that order),
/// then the prompt when there are no results, else the results.
pub open spec fn search_body_of(s: SearchViewState) -> SearchBody {
    if s.is_loading {
        SearchBody::Searching
    } else if s.has_error {
        SearchBody::SearchError { can_open_browser: s.has_last_url }
    } else if s.has_selection {
        if s.detail_loading {
            SearchBody::DetailLoading
        } else if s.has_detail_error {
            SearchBody::DetailError
        } else if s.has_detail {
            SearchBody::Detail
        } else {
            SearchBody::DetailPending
        }
    } else if !s.has_results {
        SearchBody::Prompt
    } else {
        SearchBody::Results
    }
}

/// Chooses the body of the search window.
pub fn search_body(s: &SearchViewState) -> (r: SearchBody)
    ensures
        r == search_body_of(*s),
{
    if s.is_loading {
        SearchBody::Searching
    } else if s.has_error {
        SearchBody::SearchError { can_open_browser: s.has_last_url }
    } else if s.has_selection {
        if s.detail_loading {
            SearchBody::DetailLoading
        } else if s.has_detail_error {
            SearchBody::DetailError
        } else if s.has_detail {
            SearchBody::Detail
        } else {
            SearchBody::DetailPending
        }
    } else if !s.has_results {
        SearchBody::Prompt
    } else {
        SearchBody::Results
    }
}

/// The label of the downloads button, shown once anything was downloaded:
/// how many downloads run, or how many there are when none runs.
pub open spec fn downloads_label_of(total: nat, active: nat) -> Option<Seq<char>> {
    if total == 0 {
        None
    } else if active > 0 {
        Some("\u{2193} "@ + decimal(active) + " active"@)
    } else {
        Some("\u{2193} "@ + decimal(total) + " done"@)
    }
}

/// The label of the downloads button for `total` known downloads of which
/// `active` are in progress; none when there are no downloads.
pub fn downloads_button_label(total: usize, active: usize) -> (r: Option<String>)
    ensures
        match r {
            Some(s) => downloads_label_of(total as nat, active as nat) == Some(s@),
            None => downloads_label_of(total as nat, active as nat) is None,
        },
{
    if total == 0 {
        return None;
    }
    let mut v = chars_of("\u{2193} ");
    if active > 0 {
        let d = decimal_chars(active as u64);
        vec_append(&mut v, &d);
        vec_append_str(&mut v, " active");
    } else {
        let d = decimal_chars(total as u64);
        vec_append(&mut v, &d);
        vec_append_str(&mut v, " done");
    }
    Some(string_from_chars(&v))
}

/// The subtitle of a result card: the author, followed by ` \u{b7} ` and the
/// category when there is one.
pub fn card_subtitle(author: &str, category: &str) -> (r: String)
    ensures
        r@ == (if category@.len() == 0 { author@ } else { author@ + " \u{b7} "@ + category@ }),
{
    if category.unicode_len() == 0 {
        String::from_str(author)
    } else {
        let mut v = chars_of(author);
        vec_append_str(&mut v, " \u{b7} ");
        vec_append_str(&mut v, category);
        string_from_chars(&v)
    }
}

} // verus!
