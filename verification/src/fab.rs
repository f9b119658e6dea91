//! Marketplace listing types and the pure helpers over them.

use vstd::prelude::*;
use crate::text::{chars_of, char_is_whitespace, string_from_chars};

verus! {

/// Cursor strings of a paged search response.
#[derive(Debug, Clone)]
pub struct FabCursors {
    pub next: Option<String>,
    pub previous: Option<String>,
}

/// One rendition of a thumbnail, with its pixel size.
#[derive(Debug, Clone)]
pub struct FabThumbnailImage {
    pub url: String,
    pub width: u32,
    pub height: u32,
}

/// A thumbnail, available in several sizes.
#[derive(Debug, Clone)]
pub struct FabThumbnail {
    pub images: Vec<FabThumbnailImage>,
}

/// The seller of a listing.
#[derive(Debug, Clone)]
pub struct FabUser {
    pub seller_name: String,
    pub profile_image_url: Option<String>,
    pub profile_url: Option<String>,
}

/// The category a listing is filed under.
#[derive(Debug, Clone)]
pub struct FabCategory {
    pub name: String,
    pub path: Option<String>,
    pub slug: Option<String>,
}

/// One asset format a listing ships in.
#[derive(Debug, Clone)]
pub struct FabAssetFormat {
    pub asset_format_type: FabAssetFormatType,
}

/// The kind of an asset format.
#[derive(Debug, Clone)]
pub struct FabAssetFormatType {
    pub name: String,
    pub code: String,
    pub icon: Option<String>,
    pub group_name: Option<String>,
}

/// A tag on a listing.
#[derive(Debug, Clone)]
pub struct FabTag {
    pub name: String,
    pub slug: String,
}

/// One changelog entry of a listing.
#[derive(Debug, Clone)]
pub struct FabChangelog {
    pub content: String,
    pub published_at: String,
}

/// A media item (image or video) of a listing.
#[derive(Debug, Clone)]
pub struct FabMedia {
    pub media_url: String,
    pub name: String,
    pub media_type: String,
    pub position: Option<i32>,
    pub images: Vec<FabThumbnailImage>,
    pub preview_uid: Option<String>,
}

/// Distance between a width and the target width.
pub open spec fn width_gap(w: u32, target: u32) -> int {
    if w >= target { w - target } else { target - w }
}

/// `i` is the first index whose width is closest to `target`.
pub open spec fn is_best_image(imgs: Seq<FabThumbnailImage>, target: u32, i: int) -> bool {
    &&& 0 <= i < imgs.len()
    &&& forall|j: int| 0 <= j < i ==> width_gap(imgs[j].width, target) > width_gap(imgs[i].width, target)
    &&& forall|j: int| i < j < imgs.len() ==> width_gap(imgs[j].width, target) >= width_gap(imgs[i].width, target)
}

impl FabThumbnail {
    /// The URL of the image whose width is closest to `target_width`; among
    /// equally close images the first one.
    pub fn best_image_url(&self, target_width: u32) -> (r: Option<&str>)
        ensures
            r is None <==> self.images@.len() == 0,
            r matches Some(u) ==> exists|i: int|
                is_best_image(self.images@, target_width, i) && u@ == #[trigger] self.images@[i].url@,
    {
        if self.images.len() == 0 {
            return None;
        }
        let mut best: usize = 0;
        let w0 = self.images[0].width;
        let mut best_gap: u32 = if w0 >= target_width { w0 - target_width } else { target_width - w0 };
        let mut k: usize = 1;
        while k < self.images.len()
            invariant
                1 <= k <= self.images.len(),
                best < k,
                best_gap == width_gap(self.images@[best as int].width, target_width),
                forall|j: int| 0 <= j < best ==> width_gap(self.images@[j].width, target_width) > best_gap,
                forall|j: int| best < j < k ==> width_gap(self.images@[j].width, target_width) >= best_gap,
            decreases self.images.len() - k,
        {
            let w = self.images[k].width;
            let gap: u32 = if w >= target_width { w - target_width } else { target_width - w };
            if gap < best_gap {
                best = k;
                best_gap = gap;
            }
            k = k + 1;
        }
        let u = self.images[best].url.as_str();
        assert(is_best_image(self.images@, target_width, best as int));
        Some(u)
    }
}

/// Characters of `s` that stand outside `<...>` tags, each `>` read as a space.
pub open spec fn strip_tags(s: Seq<char>, in_tag: bool) -> Seq<char>
    decreases s.len(),
{
    if s.len() == 0 {
        Seq::<char>::empty()
    } else {
        let c = s[0];
        let rest = s.drop_first();
        if c == '<' {
            strip_tags(rest, true)
        } else if c == '>' {
            seq![' '] + strip_tags(rest, false)
        } else if !in_tag {
            seq![c] + strip_tags(rest, false)
        } else {
            strip_tags(rest, true)
        }
    }
}

/// The whitespace-separated words of `s` joined by single spaces; `started`
/// says a word was already emitted, `pending` that whitespace followed it.
pub open spec fn join_words_from(s: Seq<char>, started: bool, pending: bool) -> Seq<char>
    decreases s.len(),
{
    if s.len() == 0 {
        Seq::<char>::empty()
    } else if crate::text::is_ws(s[0]) {
        join_words_from(s.drop_first(), started, started)
    } else if pending {
        seq![' ', s[0]] + join_words_from(s.drop_first(), true, false)
    } else {
        seq![s[0]] + join_words_from(s.drop_first(), true, false)
    }
}

/// What `split_whitespace` followed by `join(" ")` gives.
pub open spec fn join_words(s: Seq<char>) -> Seq<char> {
    join_words_from(s, false, false)
}

/// The plain text of an HTML fragment.
pub open spec fn plain_text(s: Seq<char>) -> Seq<char> {
    join_words(strip_tags(s, false))
}

/// Strips HTML tags from a string, leaving plain text: each closing `>`
/// becomes a space, then runs of whitespace collapse to single spaces and
/// leading or trailing whitespace is dropped.
pub fn strip_html(s: &str) -> (r: String)
    ensures
        r@ == plain_text(s@),
{
    let cs = chars_of(s);
    let mut out: Vec<char> = Vec::new();
    let mut in_tag = false;
    let mut i: usize = 0;
    assert(cs@.skip(0) =~= cs@);
    while i < cs.len()
        invariant
            i <= cs.len(),
            out@ + strip_tags(cs@.skip(i as int), in_tag) == strip_tags(cs@, false),
        decreases cs.len() - i,
    {
        let c = cs[i];
        assert(cs@.skip(i as int).drop_first() =~= cs@.skip(i + 1));
        if c == '<' {
            in_tag = true;
        } else if c == '>' {
            in_tag = false;
            out.push(' ');
        } else if !in_tag {
            out.push(c);
        }
        i = i + 1;
        assert(out@ + strip_tags(cs@.skip(i as int), in_tag) =~= strip_tags(cs@, false));
    }
    assert(cs@.skip(i as int) =~= Seq::<char>::empty());
    assert(out@ =~= strip_tags(cs@, false));
    let mut res: Vec<char> = Vec::new();
    let mut started = false;
    let mut pending = false;
    let mut k: usize = 0;
    assert(out@.skip(0) =~= out@);
    while k < out.len()
        invariant
            k <= out.len(),
            res@ + join_words_from(out@.skip(k as int), started, pending) == join_words(out@),
        decreases out.len() - k,
    {
        let c = out[k];
        assert(out@.skip(k as int).drop_first() =~= out@.skip(k + 1));
        if char_is_whitespace(c) {
            pending = started;
        } else {
            if pending {
                res.push(' ');
            }
            res.push(c);
            started = true;
            pending = false;
        }
        k = k + 1;
        assert(res@ + join_words_from(out@.skip(k as int), started, pending) =~= join_words(out@));
    }
    assert(out@.skip(k as int) =~= Seq::<char>::empty());
    assert(res@ =~= join_words(out@));
    string_from_chars(&res)
}


/// Text whose only whitespace is single inner spaces.
pub open spec fn well_spaced(t: Seq<char>) -> bool {
    &&& forall|i: int| 0 <= i < t.len() ==> t[i] == ' ' || !crate::text::is_ws(#[trigger] t[i])
    &&& forall|i: int| 0 <= i < t.len() - 1 ==> !(#[trigger] t[i] == ' ' && t[i + 1] == ' ')
    &&& t.len() > 0 ==> t.last() != ' '
}

proof fn lemma_strip_tags_no_angle(s: Seq<char>, in_tag: bool)
    ensures
        forall|i: int| 0 <= i < strip_tags(s, in_tag).len() ==>
            #[trigger] strip_tags(s, in_tag)[i] != '<' && strip_tags(s, in_tag)[i] != '>',
    decreases s.len(),
{
    if s.len() > 0 {
        let rest = s.drop_first();
        lemma_strip_tags_no_angle(rest, true);
        lemma_strip_tags_no_angle(rest, false);
        let t = strip_tags(s, in_tag);
        let c = s[0];
        if c == '>' {
            assert(t == seq![' '] + strip_tags(rest, false));
            assert forall|i: int| 0 <= i < t.len() implies #[trigger] t[i] != '<' && t[i] != '>' by {
                if i > 0 {
                    assert(t[i] == strip_tags(rest, false)[i - 1]);
                }
            }
        } else if c != '<' && !in_tag {
            assert(t == seq![c] + strip_tags(rest, false));
            assert forall|i: int| 0 <= i < t.len() implies #[trigger] t[i] != '<' && t[i] != '>' by {
                if i > 0 {
                    assert(t[i] == strip_tags(rest, false)[i - 1]);
                }
            }
        } else {
            assert(t == strip_tags(rest, c == '<' || in_tag));
        }
    }
}

proof fn lemma_join_words_from(s: Seq<char>, started: bool, pending: bool)
    requires
        pending ==> started,
    ensures
        well_spaced(join_words_from(s, started, pending)),
        join_words_from(s, started, pending).len() > 0 && join_words_from(s, started, pending)[0] == ' ' ==> started,
        forall|i: int| 0 <= i < join_words_from(s, started, pending).len() ==>
            #[trigger] join_words_from(s, started, pending)[i] == ' ' || s.contains(join_words_from(s, started, pending)[i]),
    decreases s.len(),
{
    if s.len() > 0 {
        let t = join_words_from(s, started, pending);
        let rest = s.drop_first();
        if crate::text::is_ws(s[0]) {
            lemma_join_words_from(rest, started, started);
            assert forall|i: int| 0 <= i < t.len() implies #[trigger] t[i] == ' ' || s.contains(t[i]) by {
                if t[i] != ' ' {
                    let j = choose|j: int| 0 <= j < rest.len() && rest[j] == t[i];
                    assert(s[j + 1] == t[i]);
                }
            }
        } else {
            lemma_join_words_from(rest, true, false);
            let r = join_words_from(rest, true, false);
            let head = if pending { seq![' ', s[0]] } else { seq![s[0]] };
            assert(t == head + r);
            assert forall|i: int| 0 <= i < t.len() implies #[trigger] t[i] == ' ' || s.contains(t[i]) by {
                if t[i] != ' ' {
                    if i < head.len() {
                        assert(t[i] == s[0]);
                    } else {
                        assert(t[i] == r[i - head.len()]);
                        let j = choose|j: int| 0 <= j < rest.len() && rest[j] == r[i - head.len()];
                        assert(s[j + 1] == t[i]);
                    }
                }
            }
            assert forall|i: int| 0 <= i < t.len() implies #[trigger] t[i] == ' ' || !crate::text::is_ws(t[i]) by {
                if i >= head.len() {
                    assert(t[i] == r[i - head.len()]);
                }
            }
            assert forall|i: int| 0 <= i < t.len() - 1 implies !(#[trigger] t[i] == ' ' && t[i + 1] == ' ') by {
                if i + 1 >= head.len() {
                    if i >= head.len() {
                        assert(t[i] == r[i - head.len()]);
                        assert(t[i + 1] == r[i + 1 - head.len()]);
                    } else {
                        assert(t[i] == s[0]);
                    }
                }
            }
            if r.len() > 0 {
                assert(t.last() == r.last());
            }
        }
    }
}

/// Plain text holds no angle brackets, and its only whitespace is single
/// spaces between words: no leading, trailing or doubled whitespace.
pub proof fn lemma_plain_text_shape(s: Seq<char>)
    ensures
        forall|i: int| 0 <= i < plain_text(s).len() ==>
            #[trigger] plain_text(s)[i] != '<' && plain_text(s)[i] != '>',
        well_spaced(plain_text(s)),
        plain_text(s).len() > 0 ==> plain_text(s)[0] != ' ',
{
    let u = strip_tags(s, false);
    lemma_strip_tags_no_angle(s, false);
    lemma_join_words_from(u, false, false);
    let t = plain_text(s);
    assert forall|i: int| 0 <= i < t.len() implies #[trigger] t[i] != '<' && t[i] != '>' by {
        if t[i] != ' ' {
            let j = choose|j: int| 0 <= j < u.len() && u[j] == t[i];
        }
    }
}

proof fn lemma_strip_tags_plain(t: Seq<char>)
    requires
        forall|i: int| 0 <= i < t.len() ==> #[trigger] t[i] != '<' && t[i] != '>',
    ensures
        strip_tags(t, false) == t,
    decreases t.len(),
{
    if t.len() > 0 {
        let rest = t.drop_first();
        assert forall|i: int| 0 <= i < rest.len() implies #[trigger] rest[i] != '<' && rest[i] != '>' by {
            assert(rest[i] == t[i + 1]);
        }
        lemma_strip_tags_plain(rest);
        assert(t[0] != '<' && t[0] != '>');
        assert(seq![t[0]] + rest =~= t);
    }
}

proof fn lemma_well_spaced_tail(t: Seq<char>)
    requires
        well_spaced(t),
        t.len() > 0,
    ensures
        well_spaced(t.drop_first()),
{
    let r = t.drop_first();
    assert forall|i: int| 0 <= i < r.len() implies r[i] == ' ' || !crate::text::is_ws(#[trigger] r[i]) by {
        assert(r[i] == t[i + 1]);
    }
    assert forall|i: int| 0 <= i < r.len() - 1 implies !(#[trigger] r[i] == ' ' && r[i + 1] == ' ') by {
        assert(r[i] == t[i + 1]);
        assert(r[i + 1] == t[i + 2]);
    }
    if r.len() > 0 {
        assert(r.last() == t.last());
    }
}

proof fn lemma_join_words_fixed(t: Seq<char>)
    requires
        well_spaced(t),
    ensures
        join_words_from(t, true, false) == t,
        (t.len() == 0 || t[0] != ' ') ==> join_words_from(t, false, false) == t,
    decreases t.len(),
{
    if t.len() > 0 {
        let rest = t.drop_first();
        lemma_well_spaced_tail(t);
        lemma_join_words_fixed(rest);
        if t[0] == ' ' {
            assert(crate::text::is_ws(t[0]));
            assert(t.len() >= 2);
            assert(rest[0] == t[1]);
            assert(!(t[0] == ' ' && t[1] == ' '));
            assert(!crate::text::is_ws(rest[0]));
            let r2 = rest.drop_first();
            lemma_well_spaced_tail(rest);
            lemma_join_words_fixed(r2);
            assert(join_words_from(rest, true, true) == seq![' ', rest[0]] + join_words_from(r2, true, false));
            assert(seq![' ', rest[0]] + r2 =~= t);
        } else {
            assert(!crate::text::is_ws(t[0]));
            assert(seq![t[0]] + rest =~= t);
        }
    }
}

/// Stripping HTML from plain text changes nothing: `strip_html` applied to
/// its own result gives that result back.
pub proof fn lemma_strip_html_idempotent(s: Seq<char>)
    ensures
        plain_text(plain_text(s)) == plain_text(s),
{
    lemma_plain_text_shape(s);
    let t = plain_text(s);
    lemma_strip_tags_plain(t);
    lemma_join_words_fixed(t);
}

} // verus!
