//! Where project and template thumbnails live, and where to fetch them.

use vstd::prelude::*;
use crate::text::{chars_of, string_from_chars, vec_append, vec_append_str, vec_slice,
    trim_end_matches_char, trim_end_matches_suffix, vec_starts_with, lowercase, to_lowercase};

verus! {

/// Index of the last `/` in `s`, or -1.
pub open spec fn last_slash(s: Seq<char>) -> int
    decreases s.len(),
{
    if s.len() == 0 {
        -1
    } else if s.last() == '/' {
        s.len() - 1
    } else {
        last_slash(s.drop_last())
    }
}

/// Index of the first `/` in `s`, or -1.
pub open spec fn first_slash(s: Seq<char>) -> int
    decreases s.len(),
{
    if s.len() == 0 {
        -1
    } else if s[0] == '/' {
        0
    } else {
        let r = first_slash(s.drop_first());
        if r < 0 { -1 } else { r + 1 }
    }
}

proof fn lemma_last_slash(s: Seq<char>)
    ensures
        -1 <= last_slash(s) < s.len(),
        last_slash(s) >= 0 ==> s[last_slash(s)] == '/',
        forall|k: int| last_slash(s) < k < s.len() ==> s[k] != '/',
    decreases s.len(),
{
    if s.len() > 0 && s.last() != '/' {
        lemma_last_slash(s.drop_last());
        assert forall|k: int| 0 <= k < s.len() - 1 implies s[k] == s.drop_last()[k] by {}
    }
}

proof fn lemma_first_slash(s: Seq<char>)
    ensures
        -1 <= first_slash(s) < s.len(),
        first_slash(s) >= 0 ==> s[first_slash(s)] == '/',
        first_slash(s) == -1 ==> forall|k: int| 0 <= k < s.len() ==> s[k] != '/',
        forall|k: int| 0 <= k < first_slash(s) ==> s[k] != '/',
    decreases s.len(),
{
    if s.len() > 0 && s[0] != '/' {
        let r = s.drop_first();
        lemma_first_slash(r);
        assert forall|k: int| 0 < k < s.len() implies s[k] == r[k - 1] by {}
    }
}

/// The repository URL with trailing `.git`s and then trailing `/`s removed.
pub open spec fn trimmed_repo_url(url: Seq<char>) -> Seq<char> {
    crate::text::trim_end_char(crate::text::trim_end_suffix(url, ".git"@), '/')
}

/// The file-name stem a template's thumbnail is cached under: the last two
/// `/`-separated segments of the trimmed URL joined by `_`, the URL itself
/// when it has no `/`, and `template` when that is empty.
pub open spec fn repo_cache_name(url: Seq<char>) -> Seq<char> {
    let t = trimmed_repo_url(url);
    let j = last_slash(t);
    if j >= 0 {
        let head = t.take(j);
        let i = last_slash(head);
        head.skip(i + 1) + seq!['_'] + t.skip(j + 1)
    } else if t.len() == 0 {
        "template"@
    } else {
        t
    }
}

/// Index of the last `/` in `v` before `end`.
fn find_last_slash(v: &Vec<char>, end: usize) -> (r: Option<usize>)
    requires
        end <= v.len(),
    ensures
        r is None <==> last_slash(v@.take(end as int)) == -1,
        r matches Some(j) ==> j == last_slash(v@.take(end as int)) && j < end,
{
    let mut k: usize = end;
    while k > 0
        invariant
            k <= end <= v.len(),
            last_slash(v@.take(end as int)) == last_slash(v@.take(k as int)),
        decreases k,
    {
        assert(v@.take(k as int).last() == v@[k - 1]);
        if v[k - 1] == '/' {
            return Some(k - 1);
        }
        assert(v@.take(k as int).drop_last() =~= v@.take(k - 1));
        k = k - 1;
    }
    None
}

/// Index of the first `/` in `v` at or after `from`.
fn find_first_slash(v: &Vec<char>, from: usize) -> (r: Option<usize>)
    requires
        from <= v.len(),
    ensures
        r is None <==> first_slash(v@.skip(from as int)) == -1,
        r matches Some(j) ==> j - from == first_slash(v@.skip(from as int)) && from <= j < v.len(),
{
    let mut k: usize = from;
    let ghost s = v@.skip(from as int);
    assert(v@.skip(from as int).skip(0) =~= s);
    while k < v.len()
        invariant
            from <= k <= v.len(),
            s == v@.skip(from as int),
            first_slash(s) == (if first_slash(v@.skip(k as int)) < 0 { -1 } else { first_slash(v@.skip(k as int)) + (k - from) }),
        decreases v.len() - k,
    {
        assert(v@.skip(k as int)[0] == v@[k as int]);
        if v[k] == '/' {
            return Some(k);
        }
        assert(v@.skip(k as int).drop_first() =~= v@.skip(k + 1));
        k = k + 1;
    }
    assert(v@.skip(k as int) =~= Seq::<char>::empty());
    None
}

/// The repository URL trimmed of trailing `.git`s and `/`s.
fn trimmed_url(repo_url: &str) -> (r: Vec<char>)
    ensures
        r@ == trimmed_repo_url(repo_url@),
{
    let url = chars_of(repo_url);
    let git = chars_of(".git");
    let a = trim_end_matches_suffix(&url, &git);
    trim_end_matches_char(&a, '/')
}

/// The file-name stem a template's thumbnail is cached under.
pub fn sanitize_repo_name(repo_url: &str) -> (r: String)
    ensures
        r@ == repo_cache_name(repo_url@),
{
    let t = trimmed_url(repo_url);
    match find_last_slash(&t, t.len()) {
        Some(j) => {
            assert(t@.take(t.len() as int) =~= t@);
            proof {
                lemma_last_slash(t@);
            }
            let i_opt = find_last_slash(&t, j);
            let start: usize = match i_opt {
                Some(i) => i + 1,
                None => 0,
            };
            proof {
                lemma_last_slash(t@.take(j as int));
            }
            let mut out = vec_slice(&t, start, j);
            assert(out@ =~= t@.take(j as int).skip(start as int));
            out.push('_');
            let tail = vec_slice(&t, j + 1, t.len());
            assert(tail@ =~= t@.skip(j + 1));
            vec_append(&mut out, &tail);
            string_from_chars(&out)
        },
        None => {
            assert(t@.take(t.len() as int) =~= t@);
            if t.len() == 0 {
                let r = String::from_str("template");
                r
            } else {
                string_from_chars(&t)
            }
        },
    }
}


/// Owner and repository name of a GitHub repository URL.
pub open spec fn github_owner_repo(url: Seq<char>) -> Option<(Seq<char>, Seq<char>)> {
    let t = trimmed_repo_url(url);
    let pre = "https://github.com/"@;
    if crate::text::starts_with(t, pre) {
        let rest = t.skip(pre.len() as int);
        let i = first_slash(rest);
        if i >= 0 {
            let after = rest.skip(i + 1);
            let k = first_slash(after);
            Some((rest.take(i), if k >= 0 { after.take(k) } else { after }))
        } else {
            None
        }
    } else {
        None
    }
}

/// The raw-content URL of a repository's thumbnail on `branch`.
pub open spec fn raw_thumbnail_url(owner: Seq<char>, repo: Seq<char>, branch: Seq<char>) -> Seq<char> {
    "https://raw.githubusercontent.com/"@ + owner + "/"@ + repo + "/"@ + branch + "/.pulsar/thumbnail.png"@
}

/// Candidate thumbnail URLs of a template repository, in the order to try.
pub open spec fn thumbnail_urls(url: Seq<char>) -> Seq<Seq<char>> {
    match github_owner_repo(url) {
        Some((owner, repo)) => seq![
            raw_thumbnail_url(owner, repo, "main"@),
            raw_thumbnail_url(owner, repo, "master"@),
        ],
        None => Seq::<Seq<char>>::empty(),
    }
}

fn raw_url(owner: &Vec<char>, repo: &Vec<char>, branch: &str) -> (r: String)
    ensures
        r@ == raw_thumbnail_url(owner@, repo@, branch@),
{
    let mut v = chars_of("https://raw.githubusercontent.com/");
    vec_append(&mut v, owner);
    vec_append_str(&mut v, "/");
    vec_append(&mut v, repo);
    vec_append_str(&mut v, "/");
    vec_append_str(&mut v, branch);
    vec_append_str(&mut v, "/.pulsar/thumbnail.png");
    string_from_chars(&v)
}

/// Candidate raw-GitHub URLs of a template's `.pulsar/thumbnail.png`, tried
/// in order (the `main` branch, then `master`); none for other hosts.
pub fn template_thumbnail_urls(repo_url: &str) -> (r: Vec<String>)
    ensures
        r.len() == thumbnail_urls(repo_url@).len(),
        forall|i: int| 0 <= i < r.len() ==> (#[trigger] r[i])@ == thumbnail_urls(repo_url@)[i],
{
    let t = trimmed_url(repo_url);
    let pre = chars_of("https://github.com/");
    if !vec_starts_with(&t, &pre) {
        return Vec::new();
    }
    let n = pre.len();
    let ghost rest = t@.skip(n as int);
    match find_first_slash(&t, n) {
        None => Vec::new(),
        Some(i) => {
            proof {
                lemma_first_slash(rest);
            }
            let owner = vec_slice(&t, n, i);
            assert(owner@ =~= rest.take(i - n));
            assert(t@.skip(i + 1) =~= rest.skip(i - n + 1));
            let end: usize = match find_first_slash(&t, i + 1) {
                Some(k) => k,
                None => t.len(),
            };
            let repo = vec_slice(&t, i + 1, end);
            assert(repo@ =~= (if first_slash(rest.skip(i - n + 1)) >= 0 {
                rest.skip(i - n + 1).take(first_slash(rest.skip(i - n + 1)))
            } else {
                rest.skip(i - n + 1)
            }));
            let mut r: Vec<String> = Vec::new();
            r.push(raw_url(&owner, &repo, "main"));
            r.push(raw_url(&owner, &repo, "master"));
            r
        },
    }
}

/// A path separator on some platform: `/` everywhere, `\` on Windows.
pub open spec fn is_sep(c: char) -> bool {
    c == '/' || c == '\\'
}

/// A path with no platform prefix on any platform: no `:` (Windows drive
/// letters) and no two leading separators (Windows network and verbatim
/// paths).
pub open spec fn plain_base(b: Seq<char>) -> bool {
    &&& forall|i: int| 0 <= i < b.len() ==> b[i] != ':'
    &&& !(b.len() >= 2 && is_sep(b[0]) && is_sep(b[1]))
}

/// A file name that `Path::join` appends as one ordinary component: not
/// empty, not `.` or `..`, and free of separators and `:`.
pub open spec fn plain_name(n: Seq<char>) -> bool {
    &&& n.len() > 0
    &&& n != "."@
    &&& n != ".."@
    &&& forall|i: int| 0 <= i < n.len() ==> !is_sep(n[i]) && n[i] != ':'
}

/// `r` is `name` joined onto the prefix-free path `base` by `Path::join`
/// on some platform: nothing goes between them when `base` is empty or ends
/// in a separator of that platform; otherwise that platform's separator
/// (`/`, or `\` on Windows) goes between.
pub open spec fn joined(base: Seq<char>, name: Seq<char>, r: Seq<char>) -> bool {
    ||| r == base + name && (base.len() == 0 || is_sep(base.last()))
    ||| r == base + "/"@ + name && base.len() > 0 && base.last() != '/'
    ||| r == base + "\\"@ + name && base.len() > 0 && !is_sep(base.last())
}

/// Calls `Path::join` of std with one plain file name and reads the result
/// back as a string (both inputs are UTF-8, so nothing is lost). The result
/// ends with `name` on every platform. For a base without a platform prefix
/// std's `PathBuf::push` adds the platform's separator unless the base is
/// empty or already ends in one, so the result is one of the forms `joined`
/// allows. For a prefixed base (a drive such as `C:` or a `\\?\` path)
/// std may add no separator or rebuild the base, so nothing more is stated.
#[verifier::external_body]
fn path_join(base: &str, name: &str) -> (r: String)
    requires
        plain_name(name@),
    ensures
        crate::text::ends_with(r@, name@),
        plain_base(base@) ==> joined(base@, name@, r@),
{
    std::path::Path::new(base).join(name).to_string_lossy().into_owned()
}

proof fn lemma_joined_plain(base: Seq<char>, name: Seq<char>, r: Seq<char>)
    requires
        plain_base(base),
        plain_name(name),
        joined(base, name, r),
        !(base.len() == 1 && base[0] == '\\'),
    ensures
        plain_base(r),
        r.len() > 0,
        !is_sep(r.last()),
{
    reveal_strlit("/");
    reveal_strlit("\\");
    let mid: Seq<char> = if r == base + name {
        Seq::empty()
    } else if r == base + "/"@ + name {
        "/"@
    } else {
        "\\"@
    };
    assert(r =~= base + mid + name);
    assert(mid.len() <= 1);
    assert(forall|i: int| 0 <= i < mid.len() ==> is_sep(mid[i]));
    assert(mid.len() == 1 ==> base.len() > 0 && base.last() != '/');
    assert(mid.len() == 1 && mid[0] == '\\' ==> !is_sep(base.last()));
    assert(mid.len() == 0 ==> base.len() == 0 || is_sep(base.last()));
    assert(r.last() == name.last());
    assert forall|i: int| 0 <= i < r.len() implies r[i] != ':' by {
        if i < base.len() {
            assert(r[i] == base[i]);
        } else if i < base.len() + mid.len() {
            assert(r[i] == mid[i - base.len()]);
        } else {
            assert(r[i] == name[i - base.len() - mid.len()]);
        }
    }
    if base.len() >= 2 {
        assert(r[0] == base[0] && r[1] == base[1]);
    } else if base.len() == 1 {
        assert(r[0] == base[0]);
        if mid.len() == 0 {
            assert(r[1] == name[0]);
        } else {
            assert(base.last() == base[0]);
        }
    } else {
        assert(mid.len() == 0);
        assert(r[0] == name[0]);
    }
}

/// Path of a project's thumbnail, `<project>/.pulsar/thumbnail.png`, as the
/// level editor writes it.
pub open spec fn thumbnail_path_of(project: Seq<char>, r: Seq<char>) -> bool {
    exists|dir: Seq<char>| joined(project, ".pulsar"@, dir) && joined(dir, "thumbnail.png"@, r)
}

/// Path of a project's thumbnail, `<project>/.pulsar/thumbnail.png`, as the
/// level editor writes it; the separators are the platform's. For a project
/// path with a platform prefix (or a lone `\`) only the end is stated.
pub fn project_thumbnail_path(project_path: &str) -> (r: String)
    ensures
        crate::text::ends_with(r@, "thumbnail.png"@),
        plain_base(project_path@) && project_path@ != "\\"@ ==> thumbnail_path_of(project_path@, r@),
{
    proof {
        reveal_strlit(".pulsar");
        reveal_strlit("thumbnail.png");
        reveal_strlit(".");
        reveal_strlit("..");
        reveal_strlit("\\");
        assert(".pulsar"@.len() != "."@.len() && ".pulsar"@.len() != ".."@.len());
        assert("thumbnail.png"@.len() != "."@.len() && "thumbnail.png"@.len() != ".."@.len());
    }
    let dir = path_join(project_path, ".pulsar");
    let r = path_join(dir.as_str(), "thumbnail.png");
    proof {
        if plain_base(project_path@) && project_path@ != "\\"@ {
            assert(!(project_path@.len() == 1 && project_path@[0] == '\\')) by {
                if project_path@.len() == 1 && project_path@[0] == '\\' {
                    assert(project_path@ =~= "\\"@);
                }
            }
            lemma_joined_plain(project_path@, ".pulsar"@, dir@);
        }
    }
    r
}

/// Path of the `.git` entry inside a directory, `<path>/.git`; the separator
/// is the platform's. For a path with a platform prefix only the end is
/// stated.
pub fn git_dir_path(path: &str) -> (r: String)
    ensures
        crate::text::ends_with(r@, ".git"@),
        plain_base(path@) ==> joined(path@, ".git"@, r@),
{
    proof {
        reveal_strlit(".git");
        reveal_strlit(".");
        reveal_strlit("..");
        assert(".git"@.len() != "."@.len() && ".git"@.len() != ".."@.len());
    }
    path_join(path, ".git")
}

/// `s` with every space replaced by an underscore.
pub open spec fn spaces_to_underscores(s: Seq<char>) -> Seq<char> {
    Seq::new(s.len(), |i: int| if s[i] == ' ' { '_' } else { s[i] })
}

/// The folder a cloned project goes into: its name with spaces replaced by
/// underscores, in lower case.
pub fn project_folder_name(target_name: &str) -> (r: String)
    ensures
        r@ == lowercase(spaces_to_underscores(target_name@)),
{
    let cs = chars_of(target_name);
    let mut out: Vec<char> = Vec::new();
    let mut i: usize = 0;
    while i < cs.len()
        invariant
            i <= cs.len(),
            out@ == spaces_to_underscores(cs@).take(i as int),
        decreases cs.len() - i,
    {
        let c = cs[i];
        out.push(if c == ' ' { '_' } else { c });
        i = i + 1;
        assert(out@ =~= spaces_to_underscores(cs@).take(i as int));
    }
    assert(spaces_to_underscores(cs@).take(cs.len() as int) =~= spaces_to_underscores(cs@));
    let replaced = string_from_chars(&out);
    to_lowercase(replaced.as_str())
}

} // verus!
