//! The GitHub device-flow sign-in as the entry screen shows it: whether it
//! is busy, the message under the button, and the code the user types on
//! GitHub. The flow itself (client id, device code, token, profile) runs
//! outside; each of its outcomes comes in here as one call.

use vstd::prelude::*;
use crate::text::{chars_of, string_from_chars, vec_append_str};

verus! {

/// What the sign-in area shows.
#[derive(Clone, Debug)]
pub struct SignInState {
    pub loading: bool,
    pub message: Option<String>,
    pub device_code: Option<String>,
    pub verification_url: Option<String>,
    pub modal_visible: bool,
}

/// `m` is a message with exactly these characters.
pub open spec fn says(m: Option<String>, text: Seq<char>) -> bool {
    m matches Some(s) && s@ == text
}

impl SignInState {
    /// Nothing running, nothing shown.
    pub fn new() -> (r: Self)
        ensures
            !r.loading,
            r.message is None,
            r.device_code is None,
            r.verification_url is None,
            !r.modal_visible,
    {
        SignInState { loading: false, message: None, device_code: None, verification_url: None, modal_visible: false }
    }

    /// No GitHub client id is configured: sign-in cannot start, and the
    /// message says how to enable it.
    pub fn missing_client_id(&mut self)
        ensures
            says(final(self).message, "Set PULSAR_GITHUB_CLIENT_ID to enable GitHub sign-in."@),
            final(self).loading == old(self).loading,
            final(self).device_code == old(self).device_code,
            final(self).verification_url == old(self).verification_url,
            final(self).modal_visible == old(self).modal_visible,
    {
        self.message = Some(String::from_str("Set PULSAR_GITHUB_CLIENT_ID to enable GitHub sign-in."));
    }

    /// Sign-in starts: busy, any earlier code cleared, the modal closed.
    pub fn start(&mut self)
        ensures
            final(self).loading,
            says(final(self).message, "Starting GitHub sign-in\u{2026}"@),
            final(self).device_code is None,
            final(self).verification_url is None,
            !final(self).modal_visible,
    {
        self.loading = true;
        self.message = Some(String::from_str("Starting GitHub sign-in\u{2026}"));
        self.device_code = None;
        self.verification_url = None;
        self.modal_visible = false;
    }

    /// GitHub refused to start a device flow.
    pub fn flow_failed(&mut self)
        ensures
            !final(self).loading,
            says(final(self).message, "Failed to start GitHub device flow."@),
            final(self).device_code == old(self).device_code,
            final(self).verification_url == old(self).verification_url,
            final(self).modal_visible == old(self).modal_visible,
    {
        self.loading = false;
        self.message = Some(String::from_str("Failed to start GitHub device flow."));
    }

    /// The device flow started: the modal shows the code to type at the
    /// verification URL while the token is awaited.
    pub fn flow_started(&mut self, user_code: String, verification_url: String)
        ensures
            !final(self).loading,
            final(self).device_code == Some(user_code),
            final(self).verification_url == Some(verification_url),
            final(self).modal_visible,
            final(self).message == old(self).message,
    {
        self.device_code = Some(user_code);
        self.verification_url = Some(verification_url);
        self.modal_visible = true;
        self.loading = false;
    }

    /// No token came: the flow timed out or was refused.
    pub fn token_failed(&mut self)
        ensures
            !final(self).loading,
            !final(self).modal_visible,
            final(self).device_code is None,
            final(self).verification_url is None,
            says(final(self).message, "GitHub sign-in timed out or failed."@),
    {
        self.loading = false;
        self.modal_visible = false;
        self.device_code = None;
        self.verification_url = None;
        self.message = Some(String::from_str("GitHub sign-in timed out or failed."));
    }

    /// A token came but the profile could not be read, for `reason`.
    pub fn profile_failed(&mut self, reason: &str)
        ensures
            !final(self).loading,
            !final(self).modal_visible,
            says(final(self).message, "Failed to fetch profile: "@ + reason@),
            final(self).device_code == old(self).device_code,
            final(self).verification_url == old(self).verification_url,
    {
        self.loading = false;
        self.modal_visible = false;
        let mut v = chars_of("Failed to fetch profile: ");
        vec_append_str(&mut v, reason);
        self.message = Some(string_from_chars(&v));
    }

    /// The user is signed in: everything about the flow is cleared.
    pub fn signed_in(&mut self)
        ensures
            !final(self).loading,
            !final(self).modal_visible,
            final(self).device_code is None,
            final(self).verification_url is None,
            final(self).message is None,
    {
        self.loading = false;
        self.modal_visible = false;
        self.device_code = None;
        self.verification_url = None;
        self.message = None;
    }

    /// The user gave up: everything about the flow is cleared.
    pub fn cancel(&mut self)
        ensures
            !final(self).loading,
            !final(self).modal_visible,
            final(self).device_code is None,
            final(self).verification_url is None,
            final(self).message is None,
    {
        self.loading = false;
        self.message = None;
        self.device_code = None;
        self.verification_url = None;
        self.modal_visible = false;
    }
}

/// `c` in upper case when it is an ASCII lower-case letter.
pub open spec fn ascii_upper(c: char) -> char {
    if 'a' <= c && c <= 'z' { ((c as u32) - 32) as char } else { c }
}

/// The letter shown in place of a missing avatar: the first character of
/// the login, ASCII upper-cased, or `?` for an empty login.
pub fn avatar_initial(login: &str) -> (r: String)
    ensures
        login@.len() == 0 ==> r@ == "?"@,
        login@.len() > 0 ==> r@ == seq![ascii_upper(login@[0])],
{
    if login.unicode_len() == 0 {
        return String::from_str("?");
    }
    let c = login.get_char(0);
    let n = c as u32;
    let u = if 97 <= n && n <= 122 { (n - 32) as u8 as char } else { c };
    let mut v: Vec<char> = Vec::new();
    v.push(u);
    string_from_chars(&v)
}

/// The name shown for a signed-in user: the display name, else the login.
pub fn profile_name(display_name: Option<&str>, login: &str) -> (r: String)
    ensures
        r@ == (match display_name { Some(d) => d@, None => login@ }),
{
    match display_name {
        Some(d) => String::from_str(d),
        None => String::from_str(login),
    }
}

/// The user's handle: `@login`.
pub fn profile_handle(login: &str) -> (r: String)
    ensures
        r@ == "@"@ + login@,
{
    let mut v = chars_of("@");
    vec_append_str(&mut v, login);
    string_from_chars(&v)
}

/// Whether the avatar must be fetched: the profile names an avatar URL
/// other than the one already loaded.
pub fn needs_avatar_fetch(avatar_url: Option<&str>, loaded_url: Option<&str>) -> (r: bool)
    ensures
        r == (match avatar_url {
            Some(u) => u@.len() > 0 && !(loaded_url matches Some(l) && l@ == u@),
            None => false,
        }),
{
    match avatar_url {
        Some(u) => {
            if u.unicode_len() == 0 {
                return false;
            }
            match loaded_url {
                Some(l) => !crate::text::str_eq(l, u),
                None => true,
            }
        },
        None => false,
    }
}

} // verus!
