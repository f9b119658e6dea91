//! The configured cloud servers as the entry screen keeps them, and what its
//! actions do to them: adding and removing servers, polling them, and
//! asking them to prepare, stop, create or delete projects. The requests go
//! out and come back elsewhere; here they are built and their replies
//! applied.

use vstd::prelude::*;
use crate::cloud::{CloudServer, CloudServerStatus, CloudProject, CloudProjectStatus, ServerRequest,
    normalize_url, normalized_url, new_cloud_server, selection_after, selection_after_remove,
    bearer_of, opt_view};
use crate::text::{chars_of, string_from_chars, vec_append_str, str_eq, trim, trim_ws};

verus! {

/// A request that creates a project: where it goes, and the fields of its
/// JSON body.
#[derive(Clone, Debug)]
pub struct CreateProjectRequest {
    pub url: String,
    pub bearer: Option<String>,
    pub name: String,
    pub description: String,
}

/// Where a cloud project is opened: the server, the project, the token to
/// present, and the virtual path the editor opens.
#[derive(Clone, Debug)]
pub struct OpenTarget {
    pub base_url: String,
    pub project_id: String,
    pub auth_token: Option<String>,
    pub virtual_path: String,
}

/// The servers, the selected one, and which form is open.
#[derive(Clone, Debug)]
pub struct CloudServerList {
    pub servers: Vec<CloudServer>,
    pub selected: Option<usize>,
    pub show_add_server: bool,
    pub show_create_project: bool,
}

/// The URL of a project, or of an action on it, on a server.
pub open spec fn project_url(base: Seq<char>, id: Seq<char>) -> Seq<char> {
    base + "/api/v1/projects/"@ + id
}

/// Index of the first project with this id, or -1.
pub open spec fn project_index(ps: Seq<CloudProject>, id: Seq<char>) -> int
    decreases ps.len(),
{
    if ps.len() == 0 {
        -1
    } else if ps.last().id@ == id && project_index(ps.drop_last(), id) == -1 {
        ps.len() - 1
    } else {
        project_index(ps.drop_last(), id)
    }
}

proof fn lemma_project_index(ps: Seq<CloudProject>, id: Seq<char>)
    ensures
        -1 <= project_index(ps, id) < ps.len(),
        project_index(ps, id) >= 0 ==> ps[project_index(ps, id)].id@ == id,
        forall|k: int| 0 <= k < ps.len() && ps[k].id@ == id ==> project_index(ps, id) >= 0 && project_index(ps, id) <= k,
    decreases ps.len(),
{
    if ps.len() > 0 {
        let init = ps.drop_last();
        lemma_project_index(init, id);
        assert forall|k: int| 0 <= k < ps.len() - 1 implies ps[k] == init[k] by {}
    }
}

/// `p` with its status replaced.
pub open spec fn with_status(p: CloudProject, status: CloudProjectStatus) -> CloudProject {
    CloudProject {
        id: p.id,
        name: p.name,
        description: p.description,
        status,
        last_modified: p.last_modified,
        size_bytes: p.size_bytes,
        owner: p.owner,
    }
}

/// The projects with the first one of id `id` given `status`; unchanged
/// when no project has that id.
pub open spec fn projects_with_status(ps: Seq<CloudProject>, id: Seq<char>, status: CloudProjectStatus) -> Seq<CloudProject> {
    let i = project_index(ps, id);
    if i >= 0 {
        ps.update(i, with_status(ps[i], status))
    } else {
        ps
    }
}

/// `s` with its status (and, when given, its projects) replaced.
pub open spec fn server_with(s: CloudServer, status: CloudServerStatus, projects: Vec<CloudProject>) -> CloudServer {
    CloudServer { id: s.id, alias: s.alias, url: s.url, auth_token: s.auth_token, status, projects }
}

/// The statuses of the servers that were never polled.
pub open spec fn unknown_indices(ss: Seq<CloudServer>) -> Seq<usize>
    decreases ss.len(),
{
    if ss.len() == 0 {
        Seq::empty()
    } else if ss.last().status is Unknown {
        unknown_indices(ss.drop_last()).push((ss.len() - 1) as usize)
    } else {
        unknown_indices(ss.drop_last())
    }
}

fn project_request(base: &Vec<char>, id: &str, action: &str, token: &str) -> (r: ServerRequest)
    ensures
        r.url@ == project_url(base@, id@) + action@,
        opt_view(r.bearer) == bearer_of(token@),
{
    let mut v = base.clone();
    assert(v@ == base@);
    vec_append_str(&mut v, "/api/v1/projects/");
    vec_append_str(&mut v, id);
    vec_append_str(&mut v, action);
    let bearer = if token.unicode_len() == 0 { None } else { Some(String::from_str(token)) };
    ServerRequest { url: string_from_chars(&v), bearer }
}

impl CloudServerList {
    /// No servers, nothing selected, no form open.
    pub fn new() -> (r: Self)
        ensures
            r.servers@.len() == 0,
            r.selected is None,
            !r.show_add_server,
            !r.show_create_project,
    {
        CloudServerList { servers: Vec::new(), selected: None, show_add_server: false, show_create_project: false }
    }

    /// Adds the server typed in the add-server form and closes the form; a
    /// blank URL changes nothing. Returns the index of the new server, which
    /// the caller polls next.
    pub fn add_server(&mut self, id: String, alias: &str, url: &str, token: String) -> (r: Option<usize>)
        ensures
            r is None <==> trim_ws(url@).len() == 0,
            r is None ==> *final(self) == *old(self),
            r matches Some(i) ==> {
                &&& i == old(self).servers@.len()
                &&& final(self).servers@.len() == i + 1
                &&& final(self).servers@.take(i as int) == old(self).servers@
                &&& final(self).servers@[i as int].id == id
                &&& final(self).servers@[i as int].alias@ == (if trim_ws(alias@).len() == 0 { url@ } else { alias@ })
                &&& final(self).servers@[i as int].url@ == crate::text::trim_end_char(url@, '/')
                &&& final(self).servers@[i as int].auth_token == token
                &&& final(self).servers@[i as int].status is Unknown
                &&& !final(self).show_add_server
                &&& final(self).selected == old(self).selected
                &&& final(self).show_create_project == old(self).show_create_project
            },
    {
        match new_cloud_server(id, alias, url, token) {
            None => None,
            Some(s) => {
                let i = self.servers.len();
                self.servers.push(s);
                assert(self.servers@.take(i as int) =~= old(self).servers@);
                self.show_add_server = false;
                Some(i)
            },
        }
    }

    /// Removes the server at `idx`, keeping the selection on the same server
    /// (or clearing it when that server is removed); an index past the end
    /// changes nothing.
    pub fn remove_server(&mut self, idx: usize)
        ensures
            idx < old(self).servers@.len() ==> {
                &&& final(self).servers@ == old(self).servers@.remove(idx as int)
                &&& final(self).selected == selection_after(old(self).selected, idx)
            },
            idx >= old(self).servers@.len() ==> *final(self) == *old(self),
            final(self).show_add_server == old(self).show_add_server,
            final(self).show_create_project == old(self).show_create_project,
    {
        if idx >= self.servers.len() {
            return;
        }
        self.servers.remove(idx);
        self.selected = selection_after_remove(self.selected, idx);
    }

    /// Starts polling the server at `idx`: it shows as connecting, and the
    /// normalised URL and token to poll it with are returned.
    pub fn begin_refresh(&mut self, idx: usize) -> (r: Option<(String, String)>)
        ensures
            idx >= old(self).servers@.len() ==> r is None && *final(self) == *old(self),
            idx < old(self).servers@.len() ==> {
                let s = old(self).servers@[idx as int];
                &&& r matches Some((u, t)) && u@ == normalized_url(s.url@) && t == s.auth_token
                &&& final(self).servers@ == old(self).servers@.update(idx as int,
                        server_with(s, CloudServerStatus::Connecting, s.projects))
                &&& final(self).selected == old(self).selected
                &&& final(self).show_add_server == old(self).show_add_server
                &&& final(self).show_create_project == old(self).show_create_project
            },
    {
        if idx >= self.servers.len() {
            return None;
        }
        let base = normalize_url(self.servers[idx].url.as_str());
        let token = self.servers[idx].auth_token.clone();
        self.servers[idx].status = CloudServerStatus::Connecting;
        Some((base, token))
    }

    /// Applies what polling the server at `idx` found: its status and
    /// projects, or offline when the poll failed altogether. The list may
    /// have changed meanwhile; an index past its end changes nothing.
    pub fn finish_refresh(&mut self, idx: usize, result: Option<(CloudServerStatus, Vec<CloudProject>)>)
        ensures
            idx >= old(self).servers@.len() ==> *final(self) == *old(self),
            idx < old(self).servers@.len() ==> {
                let s = old(self).servers@[idx as int];
                &&& final(self).servers@ == old(self).servers@.update(idx as int, match result {
                        Some((st, ps)) => server_with(s, st, ps),
                        None => server_with(s, CloudServerStatus::Offline, s.projects),
                    })
                &&& final(self).selected == old(self).selected
                &&& final(self).show_add_server == old(self).show_add_server
                &&& final(self).show_create_project == old(self).show_create_project
            },
    {
        if idx >= self.servers.len() {
            return;
        }
        match result {
            Some((st, ps)) => {
                self.servers[idx].status = st;
                self.servers[idx].projects = ps;
            },
            None => {
                self.servers[idx].status = CloudServerStatus::Offline;
            },
        }
    }

    /// The servers never polled yet, in list order.
    pub fn unknown_servers(&self) -> (r: Vec<usize>)
        ensures
            r@ == unknown_indices(self.servers@),
    {
        let mut r: Vec<usize> = Vec::new();
        let mut i: usize = 0;
        while i < self.servers.len()
            invariant
                i <= self.servers@.len(),
                r@ == unknown_indices(self.servers@.take(i as int)),
            decreases self.servers@.len() - i,
        {
            assert(self.servers@.take(i + 1).drop_last() =~= self.servers@.take(i as int));
            match self.servers[i].status {
                CloudServerStatus::Unknown => {
                    r.push(i);
                },
                _ => {},
            }
            i = i + 1;
        }
        assert(self.servers@.take(self.servers@.len() as int) =~= self.servers@);
        r
    }

    fn set_project_status(&mut self, idx: usize, project_id: &str, status: CloudProjectStatus)
        requires
            idx < old(self).servers@.len(),
        ensures
            final(self).servers@ == old(self).servers@.update(idx as int, server_with(
                old(self).servers@[idx as int],
                old(self).servers@[idx as int].status,
                final(self).servers@[idx as int].projects,
            )),
            final(self).servers@[idx as int].projects@ == projects_with_status(
                old(self).servers@[idx as int].projects@, project_id@, status),
            final(self).selected == old(self).selected,
            final(self).show_add_server == old(self).show_add_server,
            final(self).show_create_project == old(self).show_create_project,
    {
        let ghost ps = self.servers@[idx as int].projects@;
        proof {
            lemma_project_index(ps, project_id@);
        }
        let n = self.servers[idx].projects.len();
        let mut k: usize = 0;
        while k < n
            invariant
                n == ps.len(),
                k <= n,
                idx < self.servers@.len(),
                self.servers == old(self).servers,
                self.selected == old(self).selected,
                self.show_add_server == old(self).show_add_server,
                self.show_create_project == old(self).show_create_project,
                ps == self.servers@[idx as int].projects@,
                -1 <= project_index(ps, project_id@) < ps.len(),
                project_index(ps, project_id@) >= 0 ==> ps[project_index(ps, project_id@)].id@ == project_id@,
                forall|j: int| 0 <= j < ps.len() && ps[j].id@ == project_id@ ==>
                    project_index(ps, project_id@) >= 0 && project_index(ps, project_id@) <= j,
                forall|j: int| 0 <= j < k ==> ps[j].id@ != project_id@,
            decreases n - k,
        {
            if str_eq(self.servers[idx].projects[k].id.as_str(), project_id) {
                assert(project_index(ps, project_id@) == k);
                self.servers[idx].projects[k].status = status;
                assert(self.servers@[idx as int].projects@ =~= projects_with_status(ps, project_id@, status));
                return;
            }
            k = k + 1;
        }
        assert(project_index(ps, project_id@) == -1);
        assert(self.servers@[idx as int].projects@ =~= projects_with_status(ps, project_id@, status));
    }

    /// Asks the server at `idx` to prepare a project, showing it as
    /// preparing until the next poll says otherwise. Returns the request to
    /// send: `POST <server>/api/v1/projects/<id>/prepare`.
    pub fn begin_prepare(&mut self, idx: usize, project_id: &str) -> (r: Option<ServerRequest>)
        ensures
            idx >= old(self).servers@.len() ==> r is None && *final(self) == *old(self),
            idx < old(self).servers@.len() ==> {
                let s = old(self).servers@[idx as int];
                &&& r matches Some(req) && req.url@ == project_url(normalized_url(s.url@), project_id@) + "/prepare"@
                    && opt_view(req.bearer) == bearer_of(s.auth_token@)
                &&& final(self).servers@.len() == old(self).servers@.len()
                &&& final(self).servers@[idx as int].projects@ == projects_with_status(s.projects@,
                        project_id@, CloudProjectStatus::Preparing)
                &&& final(self).servers@ == old(self).servers@.update(idx as int,
                        server_with(s, s.status, final(self).servers@[idx as int].projects))
            },
            final(self).selected == old(self).selected,
            final(self).show_add_server == old(self).show_add_server,
            final(self).show_create_project == old(self).show_create_project,
    {
        if idx >= self.servers.len() {
            return None;
        }
        let base = chars_of(normalize_url(self.servers[idx].url.as_str()).as_str());
        let req = project_request(&base, project_id, "/prepare", self.servers[idx].auth_token.as_str());
        self.set_project_status(idx, project_id, CloudProjectStatus::Preparing);
        Some(req)
    }

    /// Asks the server at `idx` to stop a project, showing it as idle until
    /// the next poll. Returns the request to send:
    /// `POST <server>/api/v1/projects/<id>/stop`.
    pub fn begin_stop(&mut self, idx: usize, project_id: &str) -> (r: Option<ServerRequest>)
        ensures
            idx >= old(self).servers@.len() ==> r is None && *final(self) == *old(self),
            idx < old(self).servers@.len() ==> {
                let s = old(self).servers@[idx as int];
                &&& r matches Some(req) && req.url@ == project_url(normalized_url(s.url@), project_id@) + "/stop"@
                    && opt_view(req.bearer) == bearer_of(s.auth_token@)
                &&& final(self).servers@.len() == old(self).servers@.len()
                &&& final(self).servers@[idx as int].projects@ == projects_with_status(s.projects@,
                        project_id@, CloudProjectStatus::Idle)
                &&& final(self).servers@ == old(self).servers@.update(idx as int,
                        server_with(s, s.status, final(self).servers@[idx as int].projects))
            },
            final(self).selected == old(self).selected,
            final(self).show_add_server == old(self).show_add_server,
            final(self).show_create_project == old(self).show_create_project,
    {
        if idx >= self.servers.len() {
            return None;
        }
        let base = chars_of(normalize_url(self.servers[idx].url.as_str()).as_str());
        let req = project_request(&base, project_id, "/stop", self.servers[idx].auth_token.as_str());
        self.set_project_status(idx, project_id, CloudProjectStatus::Idle);
        Some(req)
    }

    /// The request that deletes a project on the server at `idx`:
    /// `DELETE <server>/api/v1/projects/<id>`.
    pub fn delete_request(&self, idx: usize, project_id: &str) -> (r: Option<ServerRequest>)
        ensures
            idx >= self.servers@.len() ==> r is None,
            idx < self.servers@.len() ==> (r matches Some(req)
                && req.url@ == project_url(normalized_url(self.servers@[idx as int].url@), project_id@)
                && opt_view(req.bearer) == bearer_of(self.servers@[idx as int].auth_token@)),
    {
        if idx >= self.servers.len() {
            return None;
        }
        let base = chars_of(normalize_url(self.servers[idx].url.as_str()).as_str());
        proof {
            reveal_strlit("");
        }
        let req = project_request(&base, project_id, "", self.servers[idx].auth_token.as_str());
        assert(req.url@ =~= project_url(normalized_url(self.servers@[idx as int].url@), project_id@));
        Some(req)
    }

    /// Submits the create-project form for the server at `idx`: closes the
    /// form and returns `POST <server>/api/v1/projects` with the name and
    /// description. A blank name, or an index past the end, changes nothing.
    pub fn begin_create(&mut self, idx: usize, name: String, description: String) -> (r: Option<CreateProjectRequest>)
        ensures
            (idx >= old(self).servers@.len() || trim_ws(name@).len() == 0) ==> r is None && *final(self) == *old(self),
            (idx < old(self).servers@.len() && trim_ws(name@).len() > 0) ==> {
                let s = old(self).servers@[idx as int];
                &&& r matches Some(req)
                    && req.url@ == normalized_url(s.url@) + "/api/v1/projects"@
                    && opt_view(req.bearer) == bearer_of(s.auth_token@)
                    && req.name == name
                    && req.description == description
                &&& !final(self).show_create_project
                &&& final(self).servers == old(self).servers
                &&& final(self).selected == old(self).selected
                &&& final(self).show_add_server == old(self).show_add_server
            },
    {
        if idx >= self.servers.len() || trim(&chars_of(name.as_str())).len() == 0 {
            return None;
        }
        let mut v = chars_of(normalize_url(self.servers[idx].url.as_str()).as_str());
        vec_append_str(&mut v, "/api/v1/projects");
        let token = self.servers[idx].auth_token.as_str();
        let bearer = if token.unicode_len() == 0 { None } else { Some(String::from_str(token)) };
        self.show_create_project = false;
        Some(CreateProjectRequest { url: string_from_chars(&v), bearer, name, description })
    }

    /// Where opening a project of the server at `idx` leads: the normalised
    /// server URL, the token (trimmed, none when blank) and the virtual path
    /// `cloud+pulsar://<host>/<project>`.
    pub fn open_target(&self, idx: usize, project_id: &str) -> (r: Option<OpenTarget>)
        ensures
            idx >= self.servers@.len() ==> r is None,
            idx < self.servers@.len() ==> {
                let s = self.servers@[idx as int];
                let base = normalized_url(s.url@);
                r matches Some(t)
                    && t.base_url@ == base
                    && t.project_id@ == project_id@
                    && opt_view(t.auth_token) == bearer_of(trim_ws(s.auth_token@))
                    && t.virtual_path@ == "cloud+pulsar://"@ + crate::text::trim_start_prefix(
                        crate::text::trim_start_prefix(base, "http://"@), "https://"@) + "/"@ + project_id@
            },
    {
        if idx >= self.servers.len() {
            return None;
        }
        let base = normalize_url(self.servers[idx].url.as_str());
        let t = trim(&chars_of(self.servers[idx].auth_token.as_str()));
        let auth_token = if t.len() == 0 { None } else { Some(string_from_chars(&t)) };
        let virtual_path = crate::cloud::CloudService::workspace_virtual_path(base.as_str(), project_id);
        Some(OpenTarget { base_url: base, project_id: String::from_str(project_id), auth_token, virtual_path })
    }
}

} // verus!
