//! Sort and licence options of the model search, and the search URL built
//! from them.

use vstd::prelude::*;
use crate::text::{chars_of, string_from_chars, trim, vec_append_str};

verus! {

/// Order of the search results.
#[derive(Debug, Clone, Copy, PartialEq, Eq)]
pub enum SortBy {
    Relevance,
    MostViewed,
    MostLiked,
    Newest,
    Oldest,
}

/// The `sort_by` value the API takes for an order (none for relevance).
pub open spec fn sort_api(s: SortBy) -> Option<Seq<char>> {
    match s {
        SortBy::Relevance => None,
        SortBy::MostViewed => Some("-viewCount"@),
        SortBy::MostLiked => Some("-likeCount"@),
        SortBy::Newest => Some("-publishedAt"@),
        SortBy::Oldest => Some("publishedAt"@),
    }
}

/// The label shown for an order.
pub open spec fn sort_label(s: SortBy) -> Seq<char> {
    match s {
        SortBy::Relevance => "Relevance"@,
        SortBy::MostViewed => "Most Viewed"@,
        SortBy::MostLiked => "Most Liked"@,
        SortBy::Newest => "Newest"@,
        SortBy::Oldest => "Oldest"@,
    }
}

/// The view of an optional string slice.
pub open spec fn opt_str_view(o: Option<&str>) -> Option<Seq<char>> {
    match o {
        Some(s) => Some(s@),
        None => None,
    }
}

impl SortBy {
    /// The `sort_by` value the API takes, if any.
    pub fn api_value(&self) -> (r: Option<&'static str>)
        ensures
            opt_str_view(r) == sort_api(*self),
    {
        match self {
            SortBy::Relevance => None,
            SortBy::MostViewed => Some("-viewCount"),
            SortBy::MostLiked => Some("-likeCount"),
            SortBy::Newest => Some("-publishedAt"),
            SortBy::Oldest => Some("publishedAt"),
        }
    }

    /// The label shown for this order.
    pub fn label(&self) -> (r: &'static str)
        ensures
            r@ == sort_label(*self),
    {
        match self {
            SortBy::Relevance => "Relevance",
            SortBy::MostViewed => "Most Viewed",
            SortBy::MostLiked => "Most Liked",
            SortBy::Newest => "Newest",
            SortBy::Oldest => "Oldest",
        }
    }

    /// Every order, in menu order.
    pub fn all() -> (r: [SortBy; 5])
        ensures
            r@ == seq![SortBy::Relevance, SortBy::MostViewed, SortBy::MostLiked, SortBy::Newest, SortBy::Oldest],
    {
        let r = [SortBy::Relevance, SortBy::MostViewed, SortBy::MostLiked, SortBy::Newest, SortBy::Oldest];
        assert(r@ =~= seq![SortBy::Relevance, SortBy::MostViewed, SortBy::MostLiked, SortBy::Newest, SortBy::Oldest]);
        r
    }
}

/// Licence filter of the search.
#[derive(Debug, Clone, Copy, PartialEq, Eq)]
pub enum LicenseFilter {
    All,
    CC0,
    CcBy,
    CcBySa,
    CcByNd,
    CcByNc,
    CcByNcSa,
    CcByNcNd,
    Standard,
    Editorial,
}

/// The `license` value the API takes for a filter (none for all licences).
pub open spec fn license_api(l: LicenseFilter) -> Option<Seq<char>> {
    match l {
        LicenseFilter::All => None,
        LicenseFilter::CC0 => Some("cc0"@),
        LicenseFilter::CcBy => Some("by"@),
        LicenseFilter::CcBySa => Some("by-sa"@),
        LicenseFilter::CcByNd => Some("by-nd"@),
        LicenseFilter::CcByNc => Some("by-nc"@),
        LicenseFilter::CcByNcSa => Some("by-nc-sa"@),
        LicenseFilter::CcByNcNd => Some("by-nc-nd"@),
        LicenseFilter::Standard => Some("st"@),
        LicenseFilter::Editorial => Some("ed"@),
    }
}

/// The label shown for a licence filter.
pub open spec fn license_label(l: LicenseFilter) -> Seq<char> {
    match l {
        LicenseFilter::All => "All Licenses"@,
        LicenseFilter::CC0 => "CC0"@,
        LicenseFilter::CcBy => "CC BY"@,
        LicenseFilter::CcBySa => "CC BY-SA"@,
        LicenseFilter::CcByNd => "CC BY-ND"@,
        LicenseFilter::CcByNc => "CC BY-NC"@,
        LicenseFilter::CcByNcSa => "CC BY-NC-SA"@,
        LicenseFilter::CcByNcNd => "CC BY-NC-ND"@,
        LicenseFilter::Standard => "Standard"@,
        LicenseFilter::Editorial => "Editorial"@,
    }
}

impl LicenseFilter {
    /// The `license` value the API takes, if any.
    pub fn api_value(&self) -> (r: Option<&'static str>)
        ensures
            opt_str_view(r) == license_api(*self),
    {
        match self {
            LicenseFilter::All => None,
            LicenseFilter::CC0 => Some("cc0"),
            LicenseFilter::CcBy => Some("by"),
            LicenseFilter::CcBySa => Some("by-sa"),
            LicenseFilter::CcByNd => Some("by-nd"),
            LicenseFilter::CcByNc => Some("by-nc"),
            LicenseFilter::CcByNcSa => Some("by-nc-sa"),
            LicenseFilter::CcByNcNd => Some("by-nc-nd"),
            LicenseFilter::Standard => Some("st"),
            LicenseFilter::Editorial => Some("ed"),
        }
    }

    /// The label shown for this filter.
    pub fn label(&self) -> (r: &'static str)
        ensures
            r@ == license_label(*self),
    {
        match self {
            LicenseFilter::All => "All Licenses",
            LicenseFilter::CC0 => "CC0",
            LicenseFilter::CcBy => "CC BY",
            LicenseFilter::CcBySa => "CC BY-SA",
            LicenseFilter::CcByNd => "CC BY-ND",
            LicenseFilter::CcByNc => "CC BY-NC",
            LicenseFilter::CcByNcSa => "CC BY-NC-SA",
            LicenseFilter::CcByNcNd => "CC BY-NC-ND",
            LicenseFilter::Standard => "Standard",
            LicenseFilter::Editorial => "Editorial",
        }
    }

    /// Every filter, in menu order.
    pub fn all() -> (r: Vec<LicenseFilter>)
        ensures
            r@ == seq![LicenseFilter::All, LicenseFilter::CC0, LicenseFilter::CcBy, LicenseFilter::CcBySa,
                LicenseFilter::CcByNd, LicenseFilter::CcByNc, LicenseFilter::CcByNcSa, LicenseFilter::CcByNcNd,
                LicenseFilter::Standard, LicenseFilter::Editorial],
    {
        let mut r: Vec<LicenseFilter> = Vec::new();
        r.push(LicenseFilter::All);
        r.push(LicenseFilter::CC0);
        r.push(LicenseFilter::CcBy);
        r.push(LicenseFilter::CcBySa);
        r.push(LicenseFilter::CcByNd);
        r.push(LicenseFilter::CcByNc);
        r.push(LicenseFilter::CcByNcSa);
        r.push(LicenseFilter::CcByNcNd);
        r.push(LicenseFilter::Standard);
        r.push(LicenseFilter::Editorial);
        assert(r@ =~= seq![LicenseFilter::All, LicenseFilter::CC0, LicenseFilter::CcBy, LicenseFilter::CcBySa,
            LicenseFilter::CcByNd, LicenseFilter::CcByNc, LicenseFilter::CcByNcSa, LicenseFilter::CcByNcNd,
            LicenseFilter::Standard, LicenseFilter::Editorial]);
        r
    }
}

/// Bytes that percent-encoding leaves as they are.
pub open spec fn is_unreserved(b: u8) -> bool {
    ||| 0x30 <= b <= 0x39
    ||| 0x41 <= b <= 0x5A
    ||| 0x61 <= b <= 0x7A
    ||| b == 0x2D
    ||| b == 0x2E
    ||| b == 0x5F
    ||| b == 0x7E
}

/// The upper-case hexadecimal digit for `d` (below sixteen).
pub open spec fn hex_upper(d: int) -> char {
    if d < 10 { (0x30 + d) as char } else { (0x41 - 10 + d) as char }
}

/// Percent-encoding of a byte string: each byte but the unreserved ones
/// becomes `%` and its two upper-case hexadecimal digits.
pub open spec fn percent_encode(bytes: Seq<u8>) -> Seq<char>
    decreases bytes.len(),
{
    if bytes.len() == 0 {
        Seq::<char>::empty()
    } else {
        let b = bytes[0];
        (if is_unreserved(b) {
            seq![b as char]
        } else {
            seq!['%', hex_upper((b / 16) as int), hex_upper((b % 16) as int)]
        }) + percent_encode(bytes.drop_first())
    }
}

/// Percent-encoded text holds only unreserved characters and `%` escapes,
/// so a query can never add its own `&`, `=`, `?`, `#` or space to the URL.
pub proof fn lemma_percent_encode_safe(bytes: Seq<u8>)
    ensures
        forall|i: int| 0 <= i < percent_encode(bytes).len() ==> {
            let c = #[trigger] percent_encode(bytes)[i];
            c != '&' && c != '=' && c != '?' && c != '#' && c != ' '
        },
    decreases bytes.len(),
{
    if bytes.len() > 0 {
        let rest = bytes.drop_first();
        lemma_percent_encode_safe(rest);
        let b = bytes[0];
        let head = if is_unreserved(b) { seq![b as char] } else { seq!['%', hex_upper((b / 16) as int), hex_upper((b % 16) as int)] };
        let t = percent_encode(bytes);
        assert(t == head + percent_encode(rest));
        assert forall|i: int| 0 <= i < t.len() implies {
            let c = #[trigger] t[i];
            c != '&' && c != '=' && c != '?' && c != '#' && c != ' '
        } by {
            if i >= head.len() {
                assert(t[i] == percent_encode(rest)[i - head.len()]);
            } else if is_unreserved(b) {
                assert(t[i] == b as char);
            }
        }
    }
}

/// Calls `urlencoding::encode`, which percent-encodes every byte of the
/// UTF-8 encoding of `s` except alphanumerics and `-`, `.`, `_`, `~`, with
/// upper-case hexadecimal digits.
#[verifier::external_body]
fn url_encode(s: &str) -> (r: String)
    ensures
        r@ == percent_encode(vstd::utf8::encode_utf8(s@)),
{
    urlencoding::encode(s).into_owned()
}

/// The settings a model search is made with.
#[derive(Debug, Clone)]
pub struct SearchFilters {
    pub search_query: String,
    pub sort_by: SortBy,
    pub filter_downloadable: bool,
    pub filter_animated: bool,
    pub filter_staffpicked: bool,
    pub filter_license: LicenseFilter,
}

/// `name=value` appended after `&`, when there is a value.
pub open spec fn opt_param(name: Seq<char>, value: Option<Seq<char>>) -> Seq<char> {
    match value {
        Some(v) => "&"@ + name + "="@ + v,
        None => ""@,
    }
}

/// `&name=true` when the flag is set.
pub open spec fn flag_param(name: Seq<char>, on: bool) -> Seq<char> {
    if on { "&"@ + name + "=true"@ } else { ""@ }
}

/// The search URL for the given settings.
pub open spec fn search_url(f: SearchFilters) -> Seq<char> {
    "https://api.sketchfab.com/v3/search?type=models&q="@
        + percent_encode(vstd::utf8::encode_utf8(crate::text::trim_ws(f.search_query@)))
        + "&count=24"@
        + opt_param("sort_by"@, sort_api(f.sort_by))
        + flag_param("downloadable"@, f.filter_downloadable)
        + flag_param("animated"@, f.filter_animated)
        + flag_param("staffpicked"@, f.filter_staffpicked)
        + opt_param("license"@, license_api(f.filter_license))
}

/// The search URL up to and including the result count.
pub open spec fn url_head(f: SearchFilters) -> Seq<char> {
    "https://api.sketchfab.com/v3/search?type=models&q="@
        + percent_encode(vstd::utf8::encode_utf8(crate::text::trim_ws(f.search_query@)))
        + "&count=24"@
}

/// The search URL after the sort order: the flags and the licence.
pub open spec fn url_tail(f: SearchFilters) -> Seq<char> {
    flag_param("downloadable"@, f.filter_downloadable)
        + flag_param("animated"@, f.filter_animated)
        + flag_param("staffpicked"@, f.filter_staffpicked)
        + opt_param("license"@, license_api(f.filter_license))
}

/// The search URL before the licence: everything but its last parameter.
pub open spec fn url_before_license(f: SearchFilters) -> Seq<char> {
    url_head(f)
        + opt_param("sort_by"@, sort_api(f.sort_by))
        + flag_param("downloadable"@, f.filter_downloadable)
        + flag_param("animated"@, f.filter_animated)
        + flag_param("staffpicked"@, f.filter_staffpicked)
}

/// Each licence filter sends its own `license` value, last in the URL: all
/// licences send none, CC0 `cc0`, CC BY `by`, CC BY-SA `by-sa`, CC BY-ND
/// `by-nd`, CC BY-NC `by-nc`, CC BY-NC-SA `by-nc-sa`, CC BY-NC-ND
/// `by-nc-nd`, Standard `st` and Editorial `ed`.
pub proof fn lemma_license_parameter(f: SearchFilters)
    ensures
        f.filter_license is All ==> search_url(f) == url_before_license(f),
        f.filter_license is CC0 ==> search_url(f) == url_before_license(f) + "&license=cc0"@,
        f.filter_license is CcBy ==> search_url(f) == url_before_license(f) + "&license=by"@,
        f.filter_license is CcBySa ==> search_url(f) == url_before_license(f) + "&license=by-sa"@,
        f.filter_license is CcByNd ==> search_url(f) == url_before_license(f) + "&license=by-nd"@,
        f.filter_license is CcByNc ==> search_url(f) == url_before_license(f) + "&license=by-nc"@,
        f.filter_license is CcByNcSa ==> search_url(f) == url_before_license(f) + "&license=by-nc-sa"@,
        f.filter_license is CcByNcNd ==> search_url(f) == url_before_license(f) + "&license=by-nc-nd"@,
        f.filter_license is Standard ==> search_url(f) == url_before_license(f) + "&license=st"@,
        f.filter_license is Editorial ==> search_url(f) == url_before_license(f) + "&license=ed"@,
{
    reveal_strlit("");
    reveal_strlit("&");
    reveal_strlit("=");
    reveal_strlit("license");
    reveal_strlit("cc0");
    reveal_strlit("&license=cc0");
    reveal_strlit("by");
    reveal_strlit("&license=by");
    reveal_strlit("by-sa");
    reveal_strlit("&license=by-sa");
    reveal_strlit("by-nd");
    reveal_strlit("&license=by-nd");
    reveal_strlit("by-nc");
    reveal_strlit("&license=by-nc");
    reveal_strlit("by-nc-sa");
    reveal_strlit("&license=by-nc-sa");
    reveal_strlit("by-nc-nd");
    reveal_strlit("&license=by-nc-nd");
    reveal_strlit("st");
    reveal_strlit("&license=st");
    reveal_strlit("ed");
    reveal_strlit("&license=ed");
    let b = url_before_license(f);
    let p = opt_param("license"@, license_api(f.filter_license));
    assert(search_url(f) =~= b + p);
    match f.filter_license {
        LicenseFilter::All => {
            assert(b + p =~= b);
        },
        LicenseFilter::CC0 => {
            assert(p =~= "&license=cc0"@);
        },
        LicenseFilter::CcBy => {
            assert(p =~= "&license=by"@);
        },
        LicenseFilter::CcBySa => {
            assert(p =~= "&license=by-sa"@);
        },
        LicenseFilter::CcByNd => {
            assert(p =~= "&license=by-nd"@);
        },
        LicenseFilter::CcByNc => {
            assert(p =~= "&license=by-nc"@);
        },
        LicenseFilter::CcByNcSa => {
            assert(p =~= "&license=by-nc-sa"@);
        },
        LicenseFilter::CcByNcNd => {
            assert(p =~= "&license=by-nc-nd"@);
        },
        LicenseFilter::Standard => {
            assert(p =~= "&license=st"@);
        },
        LicenseFilter::Editorial => {
            assert(p =~= "&license=ed"@);
        },
    }
}

/// Each sort order sends its own API field: relevance sends none, Most
/// Viewed sorts by `-viewCount`, Most Liked by `-likeCount`, Newest by
/// `-publishedAt` and Oldest by `publishedAt`.
pub proof fn lemma_sort_parameter(f: SearchFilters)
    ensures
        f.sort_by is Relevance ==> search_url(f) == url_head(f) + url_tail(f),
        f.sort_by is MostViewed ==> search_url(f) == url_head(f) + "&sort_by=-viewCount"@ + url_tail(f),
        f.sort_by is MostLiked ==> search_url(f) == url_head(f) + "&sort_by=-likeCount"@ + url_tail(f),
        f.sort_by is Newest ==> search_url(f) == url_head(f) + "&sort_by=-publishedAt"@ + url_tail(f),
        f.sort_by is Oldest ==> search_url(f) == url_head(f) + "&sort_by=publishedAt"@ + url_tail(f),
{
    reveal_strlit("");
    reveal_strlit("&");
    reveal_strlit("=");
    reveal_strlit("sort_by");
    reveal_strlit("-viewCount");
    reveal_strlit("-likeCount");
    reveal_strlit("-publishedAt");
    reveal_strlit("publishedAt");
    reveal_strlit("&sort_by=-viewCount");
    reveal_strlit("&sort_by=-likeCount");
    reveal_strlit("&sort_by=-publishedAt");
    reveal_strlit("&sort_by=publishedAt");
    let h = url_head(f);
    let t = url_tail(f);
    let p = opt_param("sort_by"@, sort_api(f.sort_by));
    assert(search_url(f) =~= h + p + t);
    match f.sort_by {
        SortBy::Relevance => {
            assert(h + p + t =~= h + t);
        },
        SortBy::MostViewed => {
            assert(p =~= "&sort_by=-viewCount"@);
        },
        SortBy::MostLiked => {
            assert(p =~= "&sort_by=-likeCount"@);
        },
        SortBy::Newest => {
            assert(p =~= "&sort_by=-publishedAt"@);
        },
        SortBy::Oldest => {
            assert(p =~= "&sort_by=publishedAt"@);
        },
    }
}

fn push_opt_param(v: &mut Vec<char>, name: &str, value: Option<&str>)
    ensures
        final(v)@ == old(v)@ + opt_param(name@, opt_str_view(value)),
{
    match value {
        Some(x) => {
            vec_append_str(v, "&");
            vec_append_str(v, name);
            vec_append_str(v, "=");
            vec_append_str(v, x);
            assert(final(v)@ =~= old(v)@ + opt_param(name@, opt_str_view(value)));
        },
        None => {
            proof {
                reveal_strlit("");
            }
            assert(old(v)@ + ""@ =~= old(v)@);
        },
    }
}

fn push_flag_param(v: &mut Vec<char>, name: &str, on: bool)
    ensures
        final(v)@ == old(v)@ + flag_param(name@, on),
{
    if on {
        vec_append_str(v, "&");
        vec_append_str(v, name);
        vec_append_str(v, "=true");
        assert(final(v)@ =~= old(v)@ + flag_param(name@, on));
    } else {
        proof {
            reveal_strlit("");
        }
        assert(old(v)@ + ""@ =~= old(v)@);
    }
}

impl SearchFilters {
    /// Whether there is something to search for: a search only starts when
    /// the trimmed query is not empty.
    pub fn has_query(&self) -> (r: bool)
        ensures
            r == (crate::text::trim_ws(self.search_query@).len() > 0),
    {
        trim(&chars_of(self.search_query.as_str())).len() > 0
    }

    /// The model search URL: the trimmed query, percent-encoded, then the
    /// sort order, the set flags and the licence filter.
    pub fn build_search_url(&self) -> (r: String)
        ensures
            r@ == search_url(*self),
    {
        let q = string_from_chars(&trim(&chars_of(self.search_query.as_str())));
        let enc = url_encode(q.as_str());
        let mut v = chars_of("https://api.sketchfab.com/v3/search?type=models&q=");
        vec_append_str(&mut v, enc.as_str());
        vec_append_str(&mut v, "&count=24");
        push_opt_param(&mut v, "sort_by", self.sort_by.api_value());
        push_flag_param(&mut v, "downloadable", self.filter_downloadable);
        push_flag_param(&mut v, "animated", self.filter_animated);
        push_flag_param(&mut v, "staffpicked", self.filter_staffpicked);
        push_opt_param(&mut v, "license", self.filter_license.api_value());
        let r = string_from_chars(&v);
        assert(r@ =~= search_url(*self));
        r
    }
}


/// The API token to store from what the user pasted: trimmed, and none when
/// nothing is left.
pub fn normalized_token(token: &str) -> (r: Option<String>)
    ensures
        r is None <==> crate::text::trim_ws(token@).len() == 0,
        r matches Some(t) ==> t@ == crate::text::trim_ws(token@),
{
    let t = trim(&chars_of(token));
    if t.len() == 0 {
        None
    } else {
        Some(string_from_chars(&t))
    }
}

} // verus!
