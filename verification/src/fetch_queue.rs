//! Bookkeeping of background loads (images, thumbnails): each key is loaded
//! once, at most a fixed number of loads run at a time, the rest wait in
//! order.

use vstd::prelude::*;
use crate::keys::{holds_key, vec_has, vec_remove_all};

verus! {

/// How many marketplace images load at once.
pub const MAX_IMAGE_INFLIGHT: usize = 20;

/// How many thumbnails of each kind load at once.
pub const MAX_THUMBNAIL_INFLIGHT: usize = 4;

/// Keys requested so far, loads running, and keys waiting for a free slot.
#[derive(Debug)]
pub struct FetchQueue {
    pub requested: Vec<String>,
    pub queue: Vec<String>,
    pub inflight: usize,
    pub max_inflight: usize,
}

impl FetchQueue {
    /// The queue's invariant: the limit is positive and respected, and keys
    /// wait only while every slot is taken.
    pub open spec fn wf(&self) -> bool {
        &&& 0 < self.max_inflight
        &&& self.inflight <= self.max_inflight
        &&& self.queue@.len() > 0 ==> self.inflight == self.max_inflight
    }

    /// An empty queue allowing `max_inflight` loads at a time.
    pub fn new(max_inflight: usize) -> (r: Self)
        requires
            max_inflight > 0,
        ensures
            r.wf(),
            r.requested@.len() == 0,
            r.queue@.len() == 0,
            r.inflight == 0,
            r.max_inflight == max_inflight,
    {
        FetchQueue { requested: Vec::new(), queue: Vec::new(), inflight: 0, max_inflight }
    }

    /// Asks for `key` to be loaded. An empty key, or one asked for before,
    /// changes nothing. Otherwise the key is recorded and, when a slot is
    /// free, returned to be loaded now; else it waits at the end of the queue.
    pub fn request(&mut self, key: String) -> (r: Option<String>)
        requires
            old(self).wf(),
        ensures
            final(self).wf(),
            final(self).max_inflight == old(self).max_inflight,
            (key@.len() == 0 || holds_key(old(self).requested@, key@)) ==> *final(self) == *old(self) && r is None,
            !(key@.len() == 0 || holds_key(old(self).requested@, key@)) ==> {
                &&& final(self).requested@ == old(self).requested@.push(key)
                &&& old(self).inflight < old(self).max_inflight ==> r == Some(key)
                    && final(self).inflight == old(self).inflight + 1 && final(self).queue@ == old(self).queue@
                &&& old(self).inflight >= old(self).max_inflight ==> r is None
                    && final(self).inflight == old(self).inflight && final(self).queue@ == old(self).queue@.push(key)
            },
    {
        if key.unicode_len() == 0 || vec_has(&self.requested, key.as_str()) {
            return None;
        }
        self.requested.push(key.clone());
        if self.inflight < self.max_inflight {
            self.inflight = self.inflight + 1;
            Some(key)
        } else {
            self.queue.push(key);
            None
        }
    }

    /// Records that a load finished; returns the next waiting key, which
    /// takes the freed slot, if any.
    pub fn finish(&mut self) -> (r: Option<String>)
        requires
            old(self).wf(),
            old(self).inflight > 0,
        ensures
            final(self).wf(),
            final(self).requested@ == old(self).requested@,
            final(self).max_inflight == old(self).max_inflight,
            old(self).queue@.len() == 0 ==> r is None && final(self).inflight == old(self).inflight - 1
                && final(self).queue@.len() == 0,
            old(self).queue@.len() > 0 ==> r == Some(old(self).queue@[0]) && final(self).inflight == old(self).inflight
                && final(self).queue@ == old(self).queue@.drop_first(),
    {
        self.inflight = self.inflight - 1;
        if self.queue.len() > 0 {
            let next = self.queue.remove(0);
            assert(self.queue@ =~= old(self).queue@.drop_first());
            self.inflight = self.inflight + 1;
            Some(next)
        } else {
            None
        }
    }

    /// Forgets that `key` was asked for, so that it can be loaded again.
    pub fn forget(&mut self, key: &str)
        requires
            old(self).wf(),
        ensures
            final(self).wf(),
            forall|x: Seq<char>| holds_key(final(self).requested@, x) <==> (holds_key(old(self).requested@, x) && x != key@),
            final(self).queue@ == old(self).queue@,
            final(self).inflight == old(self).inflight,
            final(self).max_inflight == old(self).max_inflight,
    {
        vec_remove_all(&mut self.requested, key);
    }
}

} // verus!
