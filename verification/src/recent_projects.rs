//! Bookkeeping of recently opened projects (at most twenty, most recent first).

use vstd::prelude::*;

verus! {

/// The most entries a recent-projects list keeps.
pub const MAX_RECENT: usize = 20;

/// One recently opened project.
#[derive(Debug, Clone)]
pub struct RecentProject {
    pub name: String,
    pub path: String,
    pub last_opened: Option<String>,
    pub is_git: bool,
}

/// A recent project as plain values.
pub struct RecentProjectView {
    pub name: Seq<char>,
    pub path: Seq<char>,
    pub last_opened: Option<Seq<char>>,
    pub is_git: bool,
}

impl View for RecentProject {
    type V = RecentProjectView;

    open spec fn view(&self) -> RecentProjectView {
        RecentProjectView {
            name: self.name@,
            path: self.path@,
            last_opened: match self.last_opened {
                Some(s) => Some(s@),
                None => None,
            },
            is_git: self.is_git,
        }
    }
}

/// The recently opened projects, most recent first.
#[derive(Debug, Clone)]
pub struct RecentProjectsList {
    pub projects: Vec<RecentProject>,
}

/// The entries of `v` as plain values.
pub open spec fn views_of(v: Seq<RecentProject>) -> Seq<RecentProjectView> {
    v.map_values(|p: RecentProject| p@)
}

impl View for RecentProjectsList {
    type V = Seq<RecentProjectView>;

    open spec fn view(&self) -> Seq<RecentProjectView> {
        views_of(self.projects@)
    }
}

/// Index of the first entry of `s` whose path is `path`, or -1.
pub open spec fn index_of_path(s: Seq<RecentProjectView>, path: Seq<char>) -> int
    decreases s.len(),
{
    if s.len() == 0 {
        -1
    } else if s[0].path == path {
        0
    } else {
        let r = index_of_path(s.drop_first(), path);
        if r < 0 { -1 } else { r + 1 }
    }
}

/// `s` cut to its first `MAX_RECENT` entries.
pub open spec fn capped(s: Seq<RecentProjectView>) -> Seq<RecentProjectView> {
    if s.len() > MAX_RECENT { s.take(MAX_RECENT as int) } else { s }
}

/// The list after recording `p` as opened: an entry with the same path is
/// replaced in place, otherwise `p` goes to the front; then the list is cut
/// to `MAX_RECENT` entries.
pub open spec fn added(s: Seq<RecentProjectView>, p: RecentProjectView) -> Seq<RecentProjectView> {
    let i = index_of_path(s, p.path);
    capped(if i >= 0 { s.update(i, p) } else { seq![p] + s })
}

/// `s` without the entries whose path is `path`, order kept.
pub open spec fn without_path(s: Seq<RecentProjectView>, path: Seq<char>) -> Seq<RecentProjectView>
    decreases s.len(),
{
    if s.len() == 0 {
        s
    } else {
        let r = without_path(s.drop_last(), path);
        if s.last().path == path { r } else { r.push(s.last()) }
    }
}

/// No two entries share a path.
pub open spec fn paths_unique(s: Seq<RecentProjectView>) -> bool {
    forall|i: int, j: int| 0 <= i < j < s.len() ==> s[i].path != s[j].path
}

impl RecentProjectsList {
    /// An empty list.
    pub fn new() -> (r: Self)
        ensures
            r@ == Seq::<RecentProjectView>::empty(),
    {
        RecentProjectsList { projects: Vec::new() }
    }

    /// Records `project` as opened: replaces the entry with the same path, or
    /// puts it first; keeps at most `MAX_RECENT` entries.
    pub fn add_or_update(&mut self, project: RecentProject)
        ensures
            final(self)@ == added(old(self)@, project@),
    {
        let ghost s = self@;
        let mut i: usize = 0;
        let mut found = false;
        assert(s.skip(0) =~= s);
        while i < self.projects.len()
            invariant_except_break
                self@ == s,
                i <= self.projects.len(),
                !found,
                index_of_path(s, project@.path) == (if index_of_path(s.skip(i as int), project@.path) < 0 {
                    -1
                } else {
                    index_of_path(s.skip(i as int), project@.path) + i
                }),
            ensures
                self@ == s,
                found ==> i < self.projects.len() && index_of_path(s, project@.path) == i,
                !found ==> index_of_path(s, project@.path) == -1,
            decreases self.projects.len() - i,
        {
            if self.projects[i].path == project.path {
                found = true;
                assert(s.skip(i as int)[0] == s[i as int]);
                break;
            }
            assert(s.skip(i as int).drop_first() =~= s.skip(i + 1));
            i = i + 1;
            assert(i == self.projects.len() ==> s.skip(i as int) =~= Seq::<RecentProjectView>::empty());
        }
        if found {
            self.projects.set(i, project);
            assert(self@ =~= s.update(i as int, project@));
        } else {
            self.projects.insert(0, project);
            assert(self@ =~= seq![project@] + s);
        }
        if self.projects.len() > MAX_RECENT {
            self.projects.truncate(MAX_RECENT);
        }
        assert(self@ =~= added(s, project@));
    }

    /// Forgets every entry whose path is `path`, keeping the others in order.
    pub fn remove(&mut self, path: &str)
        ensures
            final(self)@ == without_path(old(self)@, path@),
    {
        let ghost s = self@;
        let ghost mut j: int = 0;
        let mut i: usize = 0;
        while i < self.projects.len()
            invariant
                0 <= i <= j <= s.len(),
                self@.take(i as int) == without_path(s.take(j), path@),
                self@.skip(i as int) == s.skip(j),
                self@.len() - i == s.len() - j,
            decreases self.projects.len() - i,
        {
            assert(s.take(j + 1).drop_last() =~= s.take(j));
            assert(self@[i as int] == s.skip(j)[0]);
            assert(s.skip(j)[0] == s[j]);
            if crate::text::str_eq(self.projects[i].path.as_str(), path) {
                let ghost before = self@;
                self.projects.remove(i);
                assert(self@.take(i as int) =~= before.take(i as int));
                assert(self@.skip(i as int) =~= before.skip(i + 1));
                assert(before.skip(i + 1) =~= before.skip(i as int).drop_first());
                assert(s.skip(j + 1) =~= s.skip(j).drop_first());
            } else {
                let ghost before = self@;
                assert(self@.take(i + 1) =~= before.take(i as int).push(s[j]));
                assert(self@.skip(i + 1) =~= before.skip(i as int).drop_first());
                assert(s.skip(j + 1) =~= s.skip(j).drop_first());
                i = i + 1;
            }
            proof {
                j = j + 1;
            }
        }
        assert(s.take(j) =~= s);
        assert(self@.take(i as int) =~= self@);
    }
}


proof fn lemma_index_of_path(s: Seq<RecentProjectView>, path: Seq<char>)
    ensures
        -1 <= index_of_path(s, path) < s.len(),
        index_of_path(s, path) == -1 <==> forall|k: int| 0 <= k < s.len() ==> (#[trigger] s[k]).path != path,
        index_of_path(s, path) >= 0 ==> s[index_of_path(s, path)].path == path,
        forall|k: int| 0 <= k < index_of_path(s, path) ==> (#[trigger] s[k]).path != path,
    decreases s.len(),
{
    if s.len() > 0 {
        let rest = s.drop_first();
        lemma_index_of_path(rest, path);
        if s[0].path != path {
            assert forall|k: int| 0 < k < s.len() implies (#[trigger] s[k]).path == rest[k - 1].path by {}
            if index_of_path(rest, path) == -1 {
                assert forall|k: int| 0 <= k < s.len() implies (#[trigger] s[k]).path != path by {
                    if k > 0 {
                        assert(s[k] == rest[k - 1]);
                    }
                }
            }
        }
    }
}

proof fn lemma_without_path(s: Seq<RecentProjectView>, path: Seq<char>)
    ensures
        without_path(s, path).len() <= s.len(),
        forall|k: int| 0 <= k < without_path(s, path).len() ==> (#[trigger] without_path(s, path)[k]).path != path,
        (forall|k: int| 0 <= k < s.len() ==> (#[trigger] s[k]).path != path) ==> without_path(s, path) == s,
    decreases s.len(),
{
    if s.len() > 0 {
        lemma_without_path(s.drop_last(), path);
        if forall|k: int| 0 <= k < s.len() ==> (#[trigger] s[k]).path != path {
            assert forall|k: int| 0 <= k < s.drop_last().len() implies (#[trigger] s.drop_last()[k]).path != path by {
                assert(s.drop_last()[k] == s[k]);
            }
            assert(s.drop_last().push(s.last()) =~= s);
        }
    }
}

/// Recording a project keeps the list within `MAX_RECENT` entries.
pub proof fn lemma_added_bounded(s: Seq<RecentProjectView>, p: RecentProjectView)
    ensures
        added(s, p).len() <= MAX_RECENT,
{
}

/// After recording a project on a list of at most `MAX_RECENT` entries, the
/// project is in the list; a project that was not there before comes first.
pub proof fn lemma_added_present(s: Seq<RecentProjectView>, p: RecentProjectView)
    requires
        s.len() <= MAX_RECENT,
    ensures
        added(s, p).contains(p),
        index_of_path(s, p.path) < 0 ==> added(s, p)[0] == p,
        index_of_path(s, p.path) >= 0 ==> added(s, p)[index_of_path(s, p.path)] == p && added(s, p).len() == s.len(),
{
    lemma_index_of_path(s, p.path);
    let i = index_of_path(s, p.path);
    if i >= 0 {
        assert(added(s, p)[i] == p);
    } else {
        assert(added(s, p)[0] == p);
    }
}

/// Recording a project never makes two entries share a path.
pub proof fn lemma_added_paths_unique(s: Seq<RecentProjectView>, p: RecentProjectView)
    requires
        paths_unique(s),
    ensures
        paths_unique(added(s, p)),
{
    lemma_index_of_path(s, p.path);
    let i = index_of_path(s, p.path);
    let t = if i >= 0 { s.update(i, p) } else { seq![p] + s };
    assert(paths_unique(t)) by {
        if i < 0 {
            assert forall|a: int, b: int| 0 <= a < b < t.len() implies t[a].path != t[b].path by {
                if a == 0 {
                    assert(t[b] == s[b - 1]);
                } else {
                    assert(t[a] == s[a - 1]);
                    assert(t[b] == s[b - 1]);
                }
            }
        }
    }
    let u = added(s, p);
    assert forall|a: int, b: int| 0 <= a < b < u.len() implies u[a].path != u[b].path by {
        assert(u[a] == t[a]);
        assert(u[b] == t[b]);
    }
}

/// After removing a path, no entry has that path.
pub proof fn lemma_removed_absent(s: Seq<RecentProjectView>, path: Seq<char>)
    ensures
        forall|k: int| 0 <= k < without_path(s, path).len() ==> (#[trigger] without_path(s, path)[k]).path != path,
{
    lemma_without_path(s, path);
}

/// Removing the path of a project that was just recorded, when it was new
/// and the list had room, gives back the list as it was.
pub proof fn lemma_remove_undoes_add(s: Seq<RecentProjectView>, p: RecentProjectView)
    requires
        index_of_path(s, p.path) < 0,
        s.len() < MAX_RECENT,
    ensures
        without_path(added(s, p), p.path) == s,
{
    lemma_index_of_path(s, p.path);
    let t = seq![p] + s;
    assert(added(s, p) == t);
    lemma_without_path(s, p.path);
    lemma_without_path_front(p, s, p.path);
}

proof fn lemma_without_path_front(p: RecentProjectView, s: Seq<RecentProjectView>, path: Seq<char>)
    requires
        p.path == path,
    ensures
        without_path(seq![p] + s, path) == without_path(s, path),
    decreases s.len(),
{
    if s.len() == 0 {
        assert((seq![p] + s).drop_last() =~= Seq::<RecentProjectView>::empty());
        assert(without_path(Seq::<RecentProjectView>::empty(), path) == Seq::<RecentProjectView>::empty());
        assert((seq![p] + s).last() == p);
    } else {
        assert((seq![p] + s).last() == s.last());
        assert((seq![p] + s).drop_last() =~= seq![p] + s.drop_last());
        lemma_without_path_front(p, s.drop_last(), path);
    }
}

} // verus!
