//! The state of the marketplace search window across searches: the results
//! gathered page by page, the selected listing and its details, and the API
//! token. Requests run outside; their replies come in here. `M` is a
//! result as parsed, `D` the details of a listing, `U` the signed-in user.

use vstd::prelude::*;
use crate::text::{trim, trim_ws, chars_of, string_from_chars};
use crate::search_view::SearchViewState;
use crate::cloud::opt_view;

verus! {

/// One page of search results: the listings and the URL of the next page.
pub struct SearchPage<M> {
    pub models: Vec<M>,
    pub next: Option<String>,
}

/// What the account area of the search window shows.
#[derive(Clone, Copy, Debug, PartialEq, Eq, Structural)]
pub enum AuthSection {
    /// The token is being checked.
    Verifying,
    /// A token is set: the user and a logout button.
    SignedIn,
    /// The box to paste a token into.
    TokenInput,
    /// The button that opens the token box.
    SignInButton,
}

/// The search window's state apart from its widgets.
pub struct SearchSession<M, D, U> {
    pub results: Vec<M>,
    pub next_url: Option<String>,
    pub is_loading: bool,
    pub is_loading_more: bool,
    pub error: Option<String>,
    pub last_url: Option<String>,
    pub selected_uid: Option<String>,
    pub detail: Option<D>,
    pub detail_loading: bool,
    pub detail_error: Option<String>,
    pub gallery_index: usize,
    pub api_token: Option<String>,
    pub me: Option<U>,
    pub me_loading: bool,
    pub show_token_input: bool,
}

impl<M, D, U> SearchSession<M, D, U> {
    /// A window with no search run, nothing selected, and the stored token
    /// (if any).
    pub fn new(api_token: Option<String>) -> (r: Self)
        ensures
            r.results@.len() == 0,
            r.next_url is None,
            !r.is_loading,
            !r.is_loading_more,
            r.error is None,
            r.last_url is None,
            r.selected_uid is None,
            r.detail is None,
            !r.detail_loading,
            r.detail_error is None,
            r.gallery_index == 0,
            r.api_token == api_token,
            r.me is None,
            !r.me_loading,
            !r.show_token_input,
    {
        SearchSession {
            results: Vec::new(),
            next_url: None,
            is_loading: false,
            is_loading_more: false,
            error: None,
            last_url: None,
            selected_uid: None,
            detail: None,
            detail_loading: false,
            detail_error: None,
            gallery_index: 0,
            api_token,
            me: None,
            me_loading: false,
            show_token_input: false,
        }
    }

    /// Starts a search for `query` at `url`: a blank query starts nothing.
    /// Otherwise earlier results, the next page and any error are dropped,
    /// and `url` is kept to be opened in a browser should the search fail.
    pub fn begin_search(&mut self, query: &str, url: String) -> (started: bool)
        ensures
            started == (trim_ws(query@).len() > 0),
            started ==> {
                &&& final(self).is_loading
                &&& !final(self).is_loading_more
                &&& final(self).results@.len() == 0
                &&& final(self).next_url is None
                &&& final(self).error is None
                &&& final(self).last_url == Some(url)
            },
            !started ==> (final(self).results@ == old(self).results@ && final(self).is_loading == old(self).is_loading
                && final(self).error == old(self).error && final(self).last_url == old(self).last_url),
            final(self).selected_uid == old(self).selected_uid,
            final(self).api_token == old(self).api_token,
    {
        if trim(&chars_of(query)).len() == 0 {
            return false;
        }
        self.is_loading = true;
        self.is_loading_more = false;
        self.results = Vec::new();
        self.next_url = None;
        self.error = None;
        self.last_url = Some(url);
        true
    }

    /// The first page arrived, or the search failed with a message.
    pub fn search_finished(&mut self, result: Result<SearchPage<M>, String>)
        ensures
            !final(self).is_loading,
            result matches Ok(page) ==> final(self).results@ == page.models@ && final(self).next_url == page.next
                && final(self).error == old(self).error,
            result matches Err(e) ==> final(self).error == Some(e) && final(self).results@ == old(self).results@
                && final(self).next_url == old(self).next_url,
            final(self).is_loading_more == old(self).is_loading_more,
            final(self).last_url == old(self).last_url,
    {
        self.is_loading = false;
        match result {
            Ok(page) => {
                self.next_url = page.next;
                self.results = page.models;
            },
            Err(e) => {
                self.error = Some(e);
            },
        }
    }

    /// Starts fetching the next page, when there is one: returns its URL.
    pub fn begin_load_more(&mut self) -> (r: Option<String>)
        ensures
            opt_view(r) == opt_view(old(self).next_url),
            r is Some ==> final(self).is_loading_more,
            r is None ==> final(self).is_loading_more == old(self).is_loading_more,
            final(self).results@ == old(self).results@,
            final(self).next_url == old(self).next_url,
            final(self).is_loading == old(self).is_loading,
            final(self).error == old(self).error,
    {
        match &self.next_url {
            Some(u) => {
                let url = String::from_str(u.as_str());
                self.is_loading_more = true;
                Some(url)
            },
            None => None,
        }
    }

    /// The next page arrived (its listings go after those shown), or
    /// fetching it failed.
    pub fn load_more_finished(&mut self, result: Result<SearchPage<M>, String>)
        ensures
            !final(self).is_loading_more,
            result matches Ok(page) ==> final(self).results@ == old(self).results@ + page.models@
                && final(self).next_url == page.next && final(self).error == old(self).error,
            result matches Err(e) ==> final(self).error == Some(e) && final(self).results@ == old(self).results@
                && final(self).next_url == old(self).next_url,
            final(self).is_loading == old(self).is_loading,
            final(self).last_url == old(self).last_url,
    {
        self.is_loading_more = false;
        match result {
            Ok(page) => {
                let SearchPage { mut models, next } = page;
                self.next_url = next;
                self.results.append(&mut models);
            },
            Err(e) => {
                self.error = Some(e);
            },
        }
    }

    /// Opens the details of listing `uid`; opening the listing already open
    /// does nothing. Returns whether its details are to be fetched.
    pub fn open_detail(&mut self, uid: String) -> (fetch: bool)
        ensures
            fetch == !(old(self).selected_uid matches Some(s) && s@ == uid@),
            fetch ==> {
                &&& final(self).selected_uid == Some(uid)
                &&& final(self).detail is None
                &&& final(self).detail_loading
                &&& final(self).detail_error is None
                &&& final(self).gallery_index == 0
            },
            !fetch ==> final(self).selected_uid == old(self).selected_uid
                && final(self).detail_loading == old(self).detail_loading,
            final(self).results@ == old(self).results@,
    {
        let same = match &self.selected_uid {
            Some(s) => crate::text::str_eq(s.as_str(), uid.as_str()),
            None => false,
        };
        if same {
            return false;
        }
        self.selected_uid = Some(uid);
        self.detail = None;
        self.detail_loading = true;
        self.detail_error = None;
        self.gallery_index = 0;
        true
    }

    /// The details arrived, or fetching them failed.
    pub fn detail_finished(&mut self, result: Result<D, String>)
        ensures
            !final(self).detail_loading,
            result matches Ok(d) ==> final(self).detail == Some(d) && final(self).detail_error == old(self).detail_error,
            result matches Err(e) ==> final(self).detail_error == Some(e) && final(self).detail == old(self).detail,
            final(self).selected_uid == old(self).selected_uid,
            final(self).results@ == old(self).results@,
    {
        self.detail_loading = false;
        match result {
            Ok(d) => {
                self.detail = Some(d);
            },
            Err(e) => {
                self.detail_error = Some(e);
            },
        }
    }

    /// Back from the details to the results.
    pub fn go_back(&mut self)
        ensures
            final(self).selected_uid is None,
            final(self).detail is None,
            !final(self).detail_loading,
            final(self).detail_error is None,
            final(self).results@ == old(self).results@,
            final(self).next_url == old(self).next_url,
    {
        self.selected_uid = None;
        self.detail = None;
        self.detail_loading = false;
        self.detail_error = None;
    }

    /// Takes the token typed by the user, trimmed; a blank one changes
    /// nothing. Returns the token to store and to identify the user with.
    pub fn set_token(&mut self, token: &str) -> (r: Option<String>)
        ensures
            r is None <==> trim_ws(token@).len() == 0,
            r matches Some(t) ==> {
                &&& t@ == trim_ws(token@)
                &&& final(self).api_token matches Some(a) && a@ == t@
                &&& final(self).me is None
                &&& !final(self).show_token_input
            },
            r is None ==> final(self).api_token == old(self).api_token
                && final(self).show_token_input == old(self).show_token_input,
            final(self).results@ == old(self).results@,
    {
        let t = trim(&chars_of(token));
        if t.len() == 0 {
            return None;
        }
        let s = string_from_chars(&t);
        let stored = string_from_chars(&t);
        self.api_token = Some(s);
        self.me = None;
        self.show_token_input = false;
        Some(stored)
    }

    /// Forgets the token and the user.
    pub fn clear_token(&mut self)
        ensures
            final(self).api_token is None,
            final(self).me is None,
            !final(self).me_loading,
            final(self).results@ == old(self).results@,
    {
        self.api_token = None;
        self.me = None;
        self.me_loading = false;
    }

    /// Starts identifying the user, when there is a token: returns it.
    pub fn begin_fetch_me(&mut self) -> (r: Option<String>)
        ensures
            r is Some <==> old(self).api_token is Some,
            r matches Some(t) ==> old(self).api_token matches Some(a) && t@ == a@ && final(self).me_loading,
            r is None ==> final(self).me_loading == old(self).me_loading,
            final(self).api_token == old(self).api_token,
    {
        match &self.api_token {
            Some(t) => {
                let token = String::from_str(t.as_str());
                self.me_loading = true;
                Some(token)
            },
            None => None,
        }
    }

    /// The user was identified, or the token was refused, in which case it
    /// is dropped (the caller deletes the stored one).
    pub fn me_finished(&mut self, result: Result<U, String>)
        ensures
            !final(self).me_loading,
            result matches Ok(u) ==> final(self).me == Some(u) && final(self).api_token == old(self).api_token,
            result is Err ==> final(self).api_token is None && final(self).me == old(self).me,
    {
        self.me_loading = false;
        match result {
            Ok(u) => {
                self.me = Some(u);
            },
            Err(_) => {
                self.api_token = None;
            },
        }
    }

    /// The account area: checking the token first, then signed in whenever a
    /// token is set, then the token box when open.
    pub fn auth_section(&self) -> (r: AuthSection)
        ensures
            r == (if self.me_loading {
                AuthSection::Verifying
            } else if self.api_token is Some {
                AuthSection::SignedIn
            } else if self.show_token_input {
                AuthSection::TokenInput
            } else {
                AuthSection::SignInButton
            }),
    {
        if self.me_loading {
            AuthSection::Verifying
        } else if self.api_token.is_some() {
            AuthSection::SignedIn
        } else if self.show_token_input {
            AuthSection::TokenInput
        } else {
            AuthSection::SignInButton
        }
    }

    /// The state the window's body is chosen from.
    pub fn view_state(&self) -> (r: SearchViewState)
        ensures
            r.is_loading == self.is_loading,
            r.has_error == self.error is Some,
            r.has_last_url == self.last_url is Some,
            r.has_selection == self.selected_uid is Some,
            r.detail_loading == self.detail_loading,
            r.has_detail_error == self.detail_error is Some,
            r.has_detail == self.detail is Some,
            r.has_results == (self.results@.len() > 0),
    {
        SearchViewState {
            is_loading: self.is_loading,
            has_error: self.error.is_some(),
            has_last_url: self.last_url.is_some(),
            has_selection: self.selected_uid.is_some(),
            detail_loading: self.detail_loading,
            has_detail_error: self.detail_error.is_some(),
            has_detail: self.detail.is_some(),
            has_results: self.results.len() > 0,
        }
    }
}

} // verus!
