//! The plugin catalogue of the onboarding flow: searching the registry
//! plugins, telling which are installed, finding installed plugins that no
//! registry offers, and planning an install from a release.

use vstd::prelude::*;
use crate::text::{chars_of, lowercase, string_from_chars, str_eq, to_lowercase, vec_append_str};
use crate::types::{InstalledPlugin, PluginInstallMethod, RegistryPlugin};

verus! {

/// `needle` occurs in `hay` as a run of consecutive characters.
pub open spec fn contains_run(hay: Seq<char>, needle: Seq<char>) -> bool {
    exists|i: int| 0 <= i && i + needle.len() <= hay.len() && #[trigger] hay.subrange(i, i + needle.len()) == needle
}

fn run_at(hay: &Vec<char>, needle: &Vec<char>, i: usize) -> (r: bool)
    requires
        i + needle@.len() <= hay@.len(),
    ensures
        r == (hay@.subrange(i as int, i + needle@.len()) == needle@),
{
    let n = needle.len();
    let hl = hay.len();
    let mut j: usize = 0;
    while j < n
        invariant
            n == needle@.len(),
            hl == hay@.len(),
            i + n <= hl,
            j <= n,
            forall|m: int| 0 <= m < j ==> hay@[i + m] == needle@[m],
        decreases n - j,
    {
        if hay[i + j] != needle[j] {
            assert(hay@.subrange(i as int, i + n)[j as int] != needle@[j as int]);
            return false;
        }
        j = j + 1;
    }
    assert(hay@.subrange(i as int, i + n) =~= needle@);
    true
}

/// Whether `needle` occurs in `hay`, as `str::contains` answers for a
/// string pattern.
pub fn text_contains(hay: &Vec<char>, needle: &Vec<char>) -> (r: bool)
    ensures
        r == contains_run(hay@, needle@),
{
    let n = needle.len();
    if n > hay.len() {
        return false;
    }
    let last = hay.len() - n;
    let mut i: usize = 0;
    while i < last
        invariant
            n == needle@.len(),
            last + n == hay@.len(),
            i <= last,
            forall|k: int| 0 <= k < i ==> #[trigger] hay@.subrange(k, k + n) != needle@,
        decreases last - i,
    {
        if run_at(hay, needle, i) {
            return true;
        }
        i = i + 1;
    }
    if run_at(hay, needle, last) {
        return true;
    }
    assert forall|k: int| 0 <= k && k + n <= hay@.len() implies #[trigger] hay@.subrange(k, k + n) != needle@ by {
        assert(k <= last);
    }
    false
}

/// Whether `q`, already lower-cased, occurs in the lower-cased `s`.
pub open spec fn mentions(s: Seq<char>, q: Seq<char>) -> bool {
    contains_run(lowercase(s), q)
}

/// Whether a registry plugin matches a lower-cased search query: every
/// plugin matches the empty query; otherwise the query must occur, ignoring
/// case, in its name, description, author or one of its tags.
pub open spec fn plugin_matches(p: RegistryPlugin, q: Seq<char>) -> bool {
    ||| q.len() == 0
    ||| mentions(p.name@, q)
    ||| mentions(p.description@, q)
    ||| mentions(p.author@, q)
    ||| exists|t: int| 0 <= t < p.tags@.len() && mentions(#[trigger] p.tags@[t]@, q)
}

fn mentions_exec(s: &str, q: &Vec<char>) -> (r: bool)
    ensures
        r == mentions(s@, q@),
{
    let lower = to_lowercase(s);
    text_contains(&chars_of(lower.as_str()), q)
}

fn matches_exec(p: &RegistryPlugin, q: &Vec<char>) -> (r: bool)
    ensures
        r == plugin_matches(*p, q@),
{
    if q.len() == 0 || mentions_exec(p.name.as_str(), q) || mentions_exec(p.description.as_str(), q)
        || mentions_exec(p.author.as_str(), q) {
        return true;
    }
    let mut t: usize = 0;
    while t < p.tags.len()
        invariant
            t <= p.tags@.len(),
            forall|k: int| 0 <= k < t ==> !mentions(#[trigger] p.tags@[k]@, q@),
        decreases p.tags@.len() - t,
    {
        if mentions_exec(p.tags[t].as_str(), q) {
            return true;
        }
        t = t + 1;
    }
    false
}

/// The indices of the plugins matching a lower-cased query, in order.
pub open spec fn matching_indices(ps: Seq<RegistryPlugin>, q: Seq<char>) -> Seq<usize>
    decreases ps.len(),
{
    if ps.len() == 0 {
        Seq::empty()
    } else if plugin_matches(ps.last(), q) {
        matching_indices(ps.drop_last(), q).push((ps.len() - 1) as usize)
    } else {
        matching_indices(ps.drop_last(), q)
    }
}

/// The registry plugins the search box lets through, by index in list
/// order: the query is lower-cased and looked for in each plugin's name,
/// description, author and tags, case ignored.
pub fn matching_plugins(plugins: &Vec<RegistryPlugin>, query: &str) -> (r: Vec<usize>)
    ensures
        r@ == matching_indices(plugins@, lowercase(query@)),
{
    let q = chars_of(to_lowercase(query).as_str());
    let mut r: Vec<usize> = Vec::new();
    let mut i: usize = 0;
    while i < plugins.len()
        invariant
            i <= plugins@.len(),
            q@ == lowercase(query@),
            r@ == matching_indices(plugins@.take(i as int), q@),
        decreases plugins@.len() - i,
    {
        assert(plugins@.take(i + 1).drop_last() =~= plugins@.take(i as int));
        if matches_exec(&plugins[i], &q) {
            r.push(i);
        }
        i = i + 1;
    }
    assert(plugins@.take(plugins@.len() as int) =~= plugins@);
    r
}

/// An empty search shows every registry plugin, in order.
pub proof fn lemma_empty_query_shows_all(ps: Seq<RegistryPlugin>)
    ensures
        matching_indices(ps, Seq::empty()) == Seq::new(ps.len(), |i: int| i as usize),
    decreases ps.len(),
{
    if ps.len() > 0 {
        lemma_empty_query_shows_all(ps.drop_last());
        assert(matching_indices(ps, Seq::empty()) =~= Seq::new(ps.len(), |i: int| i as usize));
    }
}

/// Every plugin a search shows matches the query, each at most once and
/// in list order.
pub proof fn lemma_search_shows_matches(ps: Seq<RegistryPlugin>, q: Seq<char>)
    requires
        ps.len() <= usize::MAX,
    ensures
        forall|k: int| 0 <= k < matching_indices(ps, q).len() ==> {
            let i = #[trigger] matching_indices(ps, q)[k];
            i < ps.len() && plugin_matches(ps[i as int], q)
        },
        forall|k: int, l: int| 0 <= k < l < matching_indices(ps, q).len() ==>
            matching_indices(ps, q)[k] < matching_indices(ps, q)[l],
    decreases ps.len(),
{
    if ps.len() > 0 {
        let init = ps.drop_last();
        let prev = matching_indices(init, q);
        let r = matching_indices(ps, q);
        lemma_search_shows_matches(init, q);
        assert forall|k: int| 0 <= k < prev.len() implies prev[k] < init.len()
            && ps[prev[k] as int] == init[prev[k] as int] by {}
        if plugin_matches(ps.last(), q) {
            assert(r == prev.push((ps.len() - 1) as usize));
            assert forall|k: int| 0 <= k < r.len() implies {
                let i = #[trigger] r[k];
                i < ps.len() && plugin_matches(ps[i as int], q)
            } by {
                if k < prev.len() {
                    assert(r[k] == prev[k]);
                } else {
                    assert(r[k] == ps.len() - 1);
                }
            }
            assert forall|k: int, l: int| 0 <= k < l < r.len() implies r[k] < r[l] by {
                if l < prev.len() {
                    assert(r[k] == prev[k] && r[l] == prev[l]);
                } else {
                    assert(r[k] == prev[k]);
                    assert(r[l] == ps.len() - 1);
                }
            }
        } else {
            assert(r == prev);
        }
    }
}

/// Every plugin the query occurs in, ignoring case, is listed by the
/// search: one whose name, description, author or any of its tags mentions
/// the lower-cased query (and, for the empty query, every plugin).
pub proof fn lemma_search_lists_every_match(ps: Seq<RegistryPlugin>, q: Seq<char>, i: int)
    requires
        0 <= i < ps.len(),
        ps.len() <= usize::MAX,
        q.len() == 0 || mentions(ps[i].name@, q) || mentions(ps[i].description@, q) || mentions(ps[i].author@, q)
            || exists|t: int| 0 <= t < ps[i].tags@.len() && mentions(#[trigger] ps[i].tags@[t]@, q),
    ensures
        matching_indices(ps, q).contains(i as usize),
    decreases ps.len(),
{
    let init = ps.drop_last();
    let prev = matching_indices(init, q);
    if i == ps.len() - 1 {
        assert(ps.last() == ps[i]);
        if !(q.len() == 0 || mentions(ps[i].name@, q) || mentions(ps[i].description@, q) || mentions(ps[i].author@, q)) {
            let t = choose|t: int| 0 <= t < ps[i].tags@.len() && mentions(#[trigger] ps[i].tags@[t]@, q);
            assert(mentions(ps[i].tags@[t]@, q));
        }
        assert(plugin_matches(ps.last(), q));
        assert(matching_indices(ps, q) == prev.push(i as usize));
        assert(matching_indices(ps, q)[prev.len() as int] == i as usize);
    } else {
        assert(init[i] == ps[i]);
        lemma_search_lists_every_match(init, q, i);
        let k = choose|k: int| 0 <= k < prev.len() && prev[k] == i as usize;
        if plugin_matches(ps.last(), q) {
            assert(matching_indices(ps, q) == prev.push((ps.len() - 1) as usize));
            assert(matching_indices(ps, q)[k] == i as usize);
        } else {
            assert(matching_indices(ps, q) == prev);
        }
    }
}

/// The search ignores case: two plugins whose names, descriptions, authors
/// and tags read the same once lower-cased are both listed or both left out.
pub proof fn lemma_search_ignores_case(p1: RegistryPlugin, p2: RegistryPlugin, q: Seq<char>)
    requires
        lowercase(p1.name@) == lowercase(p2.name@),
        lowercase(p1.description@) == lowercase(p2.description@),
        lowercase(p1.author@) == lowercase(p2.author@),
        p1.tags@.len() == p2.tags@.len(),
        forall|t: int| 0 <= t < p1.tags@.len() ==> lowercase(#[trigger] p1.tags@[t]@) == lowercase(p2.tags@[t]@),
    ensures
        plugin_matches(p1, q) == plugin_matches(p2, q),
{
    if exists|t: int| 0 <= t < p1.tags@.len() && mentions(#[trigger] p1.tags@[t]@, q) {
        let t = choose|t: int| 0 <= t < p1.tags@.len() && mentions(#[trigger] p1.tags@[t]@, q);
        assert(lowercase(p1.tags@[t]@) == lowercase(p2.tags@[t]@));
        assert(mentions(p2.tags@[t]@, q));
    }
    if exists|t: int| 0 <= t < p2.tags@.len() && mentions(#[trigger] p2.tags@[t]@, q) {
        let t = choose|t: int| 0 <= t < p2.tags@.len() && mentions(#[trigger] p2.tags@[t]@, q);
        assert(lowercase(p1.tags@[t]@) == lowercase(p2.tags@[t]@));
        assert(mentions(p1.tags@[t]@, q));
    }
}

/// Index of the first installed plugin from this repository, or -1.
pub open spec fn installed_position(installed: Seq<InstalledPlugin>, repo_url: Seq<char>) -> int
    decreases installed.len(),
{
    if installed.len() == 0 {
        -1
    } else if installed.last().repo_url@ == repo_url && installed_position(installed.drop_last(), repo_url) == -1 {
        installed.len() - 1
    } else {
        installed_position(installed.drop_last(), repo_url)
    }
}

proof fn lemma_installed_position(installed: Seq<InstalledPlugin>, repo_url: Seq<char>)
    ensures
        -1 <= installed_position(installed, repo_url) < installed.len(),
        installed_position(installed, repo_url) >= 0 ==> installed[installed_position(installed, repo_url)].repo_url@ == repo_url,
        forall|k: int| 0 <= k < installed.len() && installed[k].repo_url@ == repo_url ==>
            0 <= installed_position(installed, repo_url) <= k,
    decreases installed.len(),
{
    if installed.len() > 0 {
        let init = installed.drop_last();
        lemma_installed_position(init, repo_url);
        assert forall|k: int| 0 <= k < installed.len() - 1 implies installed[k] == init[k] by {}
    }
}

/// The position of the installed plugin that came from `repo_url` (the
/// first, should there be several), as the remove button looks it up.
pub fn installed_index(installed: &Vec<InstalledPlugin>, repo_url: &str) -> (r: Option<usize>)
    ensures
        match r {
            Some(i) => i == installed_position(installed@, repo_url@),
            None => installed_position(installed@, repo_url@) == -1,
        },
{
    proof {
        lemma_installed_position(installed@, repo_url@);
    }
    let mut i: usize = 0;
    while i < installed.len()
        invariant
            i <= installed@.len(),
            -1 <= installed_position(installed@, repo_url@) < installed@.len(),
            installed_position(installed@, repo_url@) >= 0 ==>
                installed@[installed_position(installed@, repo_url@)].repo_url@ == repo_url@,
            forall|k: int| 0 <= k < installed@.len() && installed@[k].repo_url@ == repo_url@ ==>
                0 <= installed_position(installed@, repo_url@) <= k,
            forall|k: int| 0 <= k < i ==> (#[trigger] installed@[k]).repo_url@ != repo_url@,
        decreases installed@.len() - i,
    {
        if str_eq(installed[i].repo_url.as_str(), repo_url) {
            return Some(i);
        }
        i = i + 1;
    }
    None
}

/// Whether some registry plugin comes from `repo_url`.
pub open spec fn offered(registry: Seq<RegistryPlugin>, repo_url: Seq<char>) -> bool {
    exists|k: int| 0 <= k < registry.len() && (#[trigger] registry[k]).repo_url@ == repo_url
}

fn offered_exec(registry: &Vec<RegistryPlugin>, repo_url: &str) -> (r: bool)
    ensures
        r == offered(registry@, repo_url@),
{
    let mut k: usize = 0;
    while k < registry.len()
        invariant
            k <= registry@.len(),
            forall|j: int| 0 <= j < k ==> (#[trigger] registry@[j]).repo_url@ != repo_url@,
        decreases registry@.len() - k,
    {
        if str_eq(registry[k].repo_url.as_str(), repo_url) {
            return true;
        }
        k = k + 1;
    }
    false
}

/// The indices of the installed plugins that no registry plugin offers.
pub open spec fn custom_indices(installed: Seq<InstalledPlugin>, registry: Seq<RegistryPlugin>) -> Seq<usize>
    decreases installed.len(),
{
    if installed.len() == 0 {
        Seq::empty()
    } else if !offered(registry, installed.last().repo_url@) {
        custom_indices(installed.drop_last(), registry).push((installed.len() - 1) as usize)
    } else {
        custom_indices(installed.drop_last(), registry)
    }
}

/// The installed plugins listed under "custom": those whose repository no
/// registry plugin comes from, by index in list order.
pub fn custom_installed(installed: &Vec<InstalledPlugin>, registry: &Vec<RegistryPlugin>) -> (r: Vec<usize>)
    ensures
        r@ == custom_indices(installed@, registry@),
{
    let mut r: Vec<usize> = Vec::new();
    let mut i: usize = 0;
    while i < installed.len()
        invariant
            i <= installed@.len(),
            r@ == custom_indices(installed@.take(i as int), registry@),
        decreases installed@.len() - i,
    {
        assert(installed@.take(i + 1).drop_last() =~= installed@.take(i as int));
        if !offered_exec(registry, installed[i].repo_url.as_str()) {
            r.push(i);
        }
        i = i + 1;
    }
    assert(installed@.take(installed@.len() as int) =~= installed@);
    r
}

/// How a plugin gets installed from its latest release.
#[derive(Clone, Debug)]
pub enum ReleasePlan {
    /// The repository has no release.
    NoRelease,
    /// Download the release's prebuilt library, saved under `lib_name`.
    Download { url: String, tag: String, lib_name: String },
    /// Build the release's tag from source.
    Build { tag: String },
}

/// Decides how to install from the latest release of `repo` (its tag and,
/// when it ships one, the URL of a prebuilt library): a prebuilt library is
/// downloaded as `<repo>_<tag>.<ext>`, `ext` being the platform's library
/// extension; without one the tag is built from source.
pub fn release_plan(repo: &str, release: Option<(String, Option<String>)>, ext: &str) -> (r: ReleasePlan)
    ensures
        release is None ==> r is NoRelease,
        release matches Some((tag, None)) ==> (r matches ReleasePlan::Build { tag: t } && t == tag),
        release matches Some((tag, Some(url))) ==> (r matches ReleasePlan::Download { url: u, tag: t, lib_name: l }
            && u == url && t == tag && l@ == repo@ + "_"@ + tag@ + "."@ + ext@),
{
    match release {
        None => ReleasePlan::NoRelease,
        Some((tag, None)) => ReleasePlan::Build { tag },
        Some((tag, Some(url))) => {
            let mut v = chars_of(repo);
            vec_append_str(&mut v, "_");
            vec_append_str(&mut v, tag.as_str());
            vec_append_str(&mut v, ".");
            vec_append_str(&mut v, ext);
            ReleasePlan::Download { url, tag, lib_name: string_from_chars(&v) }
        },
    }
}

/// The record of a plugin once installed.
pub fn installed_plugin(plugin: &RegistryPlugin, version: String, installed_at: String,
    method: PluginInstallMethod, library_path: String) -> (r: InstalledPlugin)
    ensures
        r.name@ == plugin.name@,
        r.repo_url@ == plugin.repo_url@,
        r.version == version,
        r.installed_at == installed_at,
        r.install_method == method,
        r.library_path == library_path,
{
    InstalledPlugin {
        name: String::from_str(plugin.name.as_str()),
        repo_url: String::from_str(plugin.repo_url.as_str()),
        version,
        installed_at,
        install_method: method,
        library_path,
    }
}

/// The word shown for how a plugin was installed.
pub fn install_method_label(method: PluginInstallMethod) -> (r: &'static str)
    ensures
        r@ == (match method {
            PluginInstallMethod::BinaryDownload => "Binary"@,
            PluginInstallMethod::BuiltFromSource => "Source"@,
        }),
{
    match method {
        PluginInstallMethod::BinaryDownload => "Binary",
        PluginInstallMethod::BuiltFromSource => "Source",
    }
}

} // verus!
