//! Optimistic liking of marketplace models: the liked set flips at once and
//! flips back when the server refuses.

use vstd::prelude::*;
use crate::keys::{holds_key, vec_has, vec_remove_all};

verus! {

/// Models the user likes, and models whose like request is still running.
#[derive(Debug)]
pub struct LikeState {
    pub liked: Vec<String>,
    pub inflight: Vec<String>,
}

impl LikeState {
    /// Nothing liked, nothing running.
    pub fn new() -> (r: Self)
        ensures
            r.liked@.len() == 0,
            r.inflight@.len() == 0,
    {
        LikeState { liked: Vec::new(), inflight: Vec::new() }
    }

    /// Whether the model is liked.
    pub fn is_liked(&self, uid: &str) -> (r: bool)
        ensures
            r == holds_key(self.liked@, uid@),
    {
        vec_has(&self.liked, uid)
    }

    /// Toggles the like on `uid` unless a request for it is running.
    /// Returns whether it was liked before (so whether to send an unlike),
    /// or none when nothing was done.
    pub fn toggle_like(&mut self, uid: String) -> (r: Option<bool>)
        ensures
            holds_key(old(self).inflight@, uid@) ==> r is None && final(self).liked@ == old(self).liked@
                && final(self).inflight@ == old(self).inflight@,
            !holds_key(old(self).inflight@, uid@) ==> {
                &&& r == Some(holds_key(old(self).liked@, uid@))
                &&& holds_key(final(self).inflight@, uid@)
                &&& forall|x: Seq<char>| x != uid@ ==> (holds_key(final(self).inflight@, x) <==> holds_key(old(self).inflight@, x))
                &&& holds_key(final(self).liked@, uid@) == !holds_key(old(self).liked@, uid@)
                &&& forall|x: Seq<char>| x != uid@ ==> (holds_key(final(self).liked@, x) <==> holds_key(old(self).liked@, x))
            },
    {
        if vec_has(&self.inflight, uid.as_str()) {
            return None;
        }
        let currently_liked = vec_has(&self.liked, uid.as_str());
        if currently_liked {
            vec_remove_all(&mut self.liked, uid.as_str());
        } else {
            let ghost before = self.liked@;
            self.liked.push(uid.clone());
            assert(self.liked@[before.len() as int]@ == uid@);
            assert forall|x: Seq<char>| x != uid@ implies (holds_key(self.liked@, x) <==> holds_key(before, x)) by {
                if holds_key(self.liked@, x) {
                    let m = choose|m: int| 0 <= m < self.liked@.len() && (#[trigger] self.liked@[m])@ == x;
                    assert(self.liked@[m] == before[m]);
                }
                if holds_key(before, x) {
                    let m = choose|m: int| 0 <= m < before.len() && (#[trigger] before[m])@ == x;
                    assert(self.liked@[m] == before[m]);
                }
            }
        }
        let ghost before_in = self.inflight@;
        self.inflight.push(uid);
        assert(self.inflight@[before_in.len() as int]@ == uid@);
        assert forall|x: Seq<char>| x != uid@ implies (holds_key(self.inflight@, x) <==> holds_key(before_in, x)) by {
            if holds_key(self.inflight@, x) {
                let m = choose|m: int| 0 <= m < self.inflight@.len() && (#[trigger] self.inflight@[m])@ == x;
                assert(self.inflight@[m] == before_in[m]);
            }
            if holds_key(before_in, x) {
                let m = choose|m: int| 0 <= m < before_in.len() && (#[trigger] before_in[m])@ == x;
                assert(self.inflight@[m] == before_in[m]);
            }
        }
        Some(currently_liked)
    }

    /// Records the server's answer for `uid`: the request is no longer
    /// running and, when it failed, the like goes back to what it was
    /// (`was_liked`).
    pub fn like_finished(&mut self, uid: &str, was_liked: bool, ok: bool)
        ensures
            forall|x: Seq<char>| holds_key(final(self).inflight@, x) <==> (holds_key(old(self).inflight@, x) && x != uid@),
            ok ==> final(self).liked@ == old(self).liked@,
            !ok ==> holds_key(final(self).liked@, uid@) == was_liked,
            !ok ==> forall|x: Seq<char>| x != uid@ ==> (holds_key(final(self).liked@, x) <==> holds_key(old(self).liked@, x)),
    {
        vec_remove_all(&mut self.inflight, uid);
        if !ok {
            if was_liked {
                if !vec_has(&self.liked, uid) {
                    let ghost before = self.liked@;
                    self.liked.push(String::from_str(uid));
                    assert(self.liked@[before.len() as int]@ == uid@);
                    assert forall|x: Seq<char>| x != uid@ implies (holds_key(self.liked@, x) <==> holds_key(before, x)) by {
                        if holds_key(self.liked@, x) {
                            let m = choose|m: int| 0 <= m < self.liked@.len() && (#[trigger] self.liked@[m])@ == x;
                            assert(self.liked@[m] == before[m]);
                        }
                        if holds_key(before, x) {
                            let m = choose|m: int| 0 <= m < before.len() && (#[trigger] before[m])@ == x;
                            assert(self.liked@[m] == before[m]);
                        }
                    }
                }
            } else {
                vec_remove_all(&mut self.liked, uid);
            }
        }
    }

    /// Forgets every like and running request (on sign-out).
    pub fn clear(&mut self)
        ensures
            final(self).liked@.len() == 0,
            final(self).inflight@.len() == 0,
    {
        self.liked.clear();
        self.inflight.clear();
    }
}

/// The endpoint that likes are posted to (with the form field `model`).
pub fn like_url() -> (r: &'static str)
    ensures
        r@ == "https://api.sketchfab.com/v3/me/likes"@,
{
    "https://api.sketchfab.com/v3/me/likes"
}

/// The endpoint that removes the like on `uid` (with a DELETE).
pub fn unlike_url(uid: &str) -> (r: String)
    ensures
        r@ == "https://api.sketchfab.com/v3/me/likes/"@ + uid@,
{
    let mut v = crate::text::chars_of("https://api.sketchfab.com/v3/me/likes/");
    crate::text::vec_append_str(&mut v, uid);
    crate::text::string_from_chars(&v)
}

/// Whether a like or unlike request succeeded: a 2xx status (the API
/// answers 204 No Content).
pub fn like_status_ok(status: u16) -> (r: bool)
    ensures
        r == (200 <= status && status <= 299),
{
    200 <= status && status <= 299
}

/// A like toggled and then refused by the server leaves the liked set as it
/// was, and the model no longer has a request running.
pub proof fn lemma_refused_toggle_restores(
    liked0: Seq<String>, liked1: Seq<String>, liked2: Seq<String>,
    inflight0: Seq<String>, inflight1: Seq<String>, inflight2: Seq<String>,
    uid: Seq<char>, was_liked: bool,
)
    requires
        !holds_key(inflight0, uid),
        was_liked == holds_key(liked0, uid),
        holds_key(liked1, uid) == !holds_key(liked0, uid),
        forall|x: Seq<char>| x != uid ==> (holds_key(liked1, x) <==> holds_key(liked0, x)),
        forall|x: Seq<char>| x != uid ==> (holds_key(inflight1, x) <==> holds_key(inflight0, x)),
        forall|x: Seq<char>| holds_key(inflight2, x) <==> (holds_key(inflight1, x) && x != uid),
        holds_key(liked2, uid) == was_liked,
        forall|x: Seq<char>| x != uid ==> (holds_key(liked2, x) <==> holds_key(liked1, x)),
    ensures
        forall|x: Seq<char>| holds_key(liked2, x) <==> holds_key(liked0, x),
        forall|x: Seq<char>| holds_key(inflight2, x) <==> holds_key(inflight0, x),
{
}

} // verus!
