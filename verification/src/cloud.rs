//! Remote Pulsar Host servers: their records, the requests sent to them and
//! the bookkeeping of the configured server list.

use vstd::prelude::*;
use crate::types::Tone;
use crate::text::{chars_of, string_from_chars, vec_append, vec_append_str, vec_starts_with,
    str_eq, trim, trim_end_matches_char, trim_start_matches_prefix, count_noun, counted_noun};

verus! {

/// Connection status of a cloud server, filled in at run time.
#[derive(Clone, Debug)]
pub enum CloudServerStatus {
    Unknown,
    Connecting,
    Online { latency_ms: u32, version: String, active_users: u32, active_projects: u32 },
    Offline,
    Unauthorized,
}

impl Default for CloudServerStatus {
    fn default() -> (r: Self)
        ensures
            r is Unknown,
    {
        CloudServerStatus::Unknown
    }
}

/// Status of one project on a remote server.
#[derive(Clone, Debug)]
pub enum CloudProjectStatus {
    Idle,
    Preparing,
    Running { user_count: u32 },
    Error(String),
}

/// A project hosted on a remote server.
#[derive(Clone, Debug)]
pub struct CloudProject {
    pub id: String,
    pub name: String,
    pub description: String,
    pub status: CloudProjectStatus,
    pub last_modified: String,
    pub size_bytes: u64,
    pub owner: String,
}

/// A user-configured remote server.
#[derive(Clone, Debug)]
pub struct CloudServer {
    pub id: String,
    pub alias: String,
    pub url: String,
    pub auth_token: String,
    pub status: CloudServerStatus,
    pub projects: Vec<CloudProject>,
}

impl Default for CloudServer {
    fn default() -> (r: Self)
        ensures
            r.id@.len() == 0,
            r.alias@.len() == 0,
            r.url@.len() == 0,
            r.auth_token@.len() == 0,
            r.status is Unknown,
            r.projects@.len() == 0,
    {
        CloudServer {
            id: String::new(),
            alias: String::new(),
            url: String::new(),
            auth_token: String::new(),
            status: CloudServerStatus::Unknown,
            projects: Vec::new(),
        }
    }
}

/// A request to send to a server: its URL and optional bearer token.
#[derive(Clone, Debug)]
pub struct ServerRequest {
    pub url: String,
    pub bearer: Option<String>,
}

/// The server URL as typed, trimmed, without trailing `/`s, with `http://`
/// put in front when it names no scheme.
pub open spec fn normalized_url(raw: Seq<char>) -> Seq<char> {
    let t = crate::text::trim_end_char(crate::text::trim_ws(raw), '/');
    if crate::text::starts_with(t, "http://"@) || crate::text::starts_with(t, "https://"@) {
        t
    } else {
        "http://"@ + t
    }
}

/// Normalises a server URL: trims it, drops trailing `/`s and adds
/// `http://` when no scheme is given, so bare `host:port` entries work.
pub fn normalize_url(raw: &str) -> (r: String)
    ensures
        r@ == normalized_url(raw@),
{
    let t = trim_end_matches_char(&trim(&chars_of(raw)), '/');
    if vec_starts_with(&t, &chars_of("http://")) || vec_starts_with(&t, &chars_of("https://")) {
        string_from_chars(&t)
    } else {
        let mut v = chars_of("http://");
        vec_append(&mut v, &t);
        string_from_chars(&v)
    }
}

proof fn lemma_trim_end_char_last(s: Seq<char>, c: char)
    ensures
        crate::text::trim_end_char(s, c).len() > 0 ==> crate::text::trim_end_char(s, c).last() != c,
    decreases s.len(),
{
    if s.len() > 0 && s.last() == c {
        lemma_trim_end_char_last(s.drop_last(), c);
    }
}

/// Normalising a normalised URL changes nothing, as long as the trimmed URL
/// it came from is not empty and does not end in whitespace (an empty one
/// becomes `http://`, whose slashes a second pass would trim, and one ending
/// in whitespace before its `/`s keeps that whitespace for a second trim).
pub proof fn lemma_normalize_url_idempotent(raw: Seq<char>)
    requires
        crate::text::trim_end_char(crate::text::trim_ws(raw), '/').len() > 0,
        !crate::text::is_ws(crate::text::trim_end_char(crate::text::trim_ws(raw), '/').last()),
    ensures
        normalized_url(normalized_url(raw)) == normalized_url(raw),
{
    reveal_strlit("http://");
    reveal_strlit("https://");
    let y = crate::text::trim_end_char(crate::text::trim_ws(raw), '/');
    lemma_trim_end_char_last(crate::text::trim_ws(raw), '/');
    let n = normalized_url(raw);
    if crate::text::starts_with(y, "http://"@) || crate::text::starts_with(y, "https://"@) {
        assert(n == y);
        if crate::text::starts_with(y, "http://"@) {
            assert(y.take(7)[0] == y[0]);
        } else {
            assert(y.take(8)[0] == y[0]);
        }
        assert(n[0] == 'h');
    } else {
        assert(n == "http://"@ + y);
        assert(n[0] == 'h');
        assert(n.last() == y.last());
        assert(n.take(7) =~= "http://"@);
    }
    assert(!crate::text::is_ws(n[0]));
    assert(crate::text::trim_start_ws(n) == n);
    assert(crate::text::trim_end_ws(n) == n);
    assert(crate::text::trim_ws(n) == n);
    assert(crate::text::trim_end_char(n, '/') == n);
    assert(crate::text::starts_with(n, "http://"@) || crate::text::starts_with(n, "https://"@));
}

/// The bearer token to send: none when the token is empty.
pub open spec fn bearer_of(token: Seq<char>) -> Option<Seq<char>> {
    if token.len() == 0 { None } else { Some(token) }
}

/// The URL of an action on a workspace.
pub open spec fn workspace_action_url(base: Seq<char>, id: Seq<char>, action: Seq<char>) -> Seq<char> {
    base + "/api/v1/workspaces/"@ + id + "/"@ + action
}

/// The view of an optional string.
pub open spec fn opt_view(o: Option<String>) -> Option<Seq<char>> {
    match o {
        Some(s) => Some(s@),
        None => None,
    }
}

fn workspace_post(base_url: &str, workspace_id: &str, action: &str, token: &str) -> (r: ServerRequest)
    ensures
        r.url@ == workspace_action_url(base_url@, workspace_id@, action@),
        opt_view(r.bearer) == bearer_of(token@),
{
    let mut v = chars_of(base_url);
    vec_append_str(&mut v, "/api/v1/workspaces/");
    vec_append_str(&mut v, workspace_id);
    vec_append_str(&mut v, "/");
    vec_append_str(&mut v, action);
    let bearer = if token.unicode_len() == 0 { None } else { Some(String::from_str(token)) };
    ServerRequest { url: string_from_chars(&v), bearer }
}

/// Requests to a Pulsar Host server.
pub struct CloudService;

impl CloudService {
    /// The request that asks a server to warm up a workspace.
    pub fn prepare_workspace(base_url: &str, workspace_id: &str, token: &str) -> (r: ServerRequest)
        ensures
            r.url@ == workspace_action_url(base_url@, workspace_id@, "prepare"@),
            opt_view(r.bearer) == bearer_of(token@),
    {
        workspace_post(base_url, workspace_id, "prepare", token)
    }

    /// The request that asks a server to stop a workspace.
    pub fn stop_workspace(base_url: &str, workspace_id: &str, token: &str) -> (r: ServerRequest)
        ensures
            r.url@ == workspace_action_url(base_url@, workspace_id@, "stop"@),
            opt_view(r.bearer) == bearer_of(token@),
    {
        workspace_post(base_url, workspace_id, "stop", token)
    }

    /// The virtual path under which the editor opens a cloud workspace:
    /// `cloud+pulsar://<host>/<workspace>`.
    pub fn workspace_virtual_path(base_url: &str, workspace_id: &str) -> (r: String)
        ensures
            r@ == "cloud+pulsar://"@ + crate::text::trim_start_prefix(
                crate::text::trim_start_prefix(base_url@, "http://"@), "https://"@) + "/"@ + workspace_id@,
    {
        let a = trim_start_matches_prefix(&chars_of(base_url), &chars_of("http://"));
        let b = trim_start_matches_prefix(&a, &chars_of("https://"));
        let mut v = chars_of("cloud+pulsar://");
        vec_append(&mut v, &b);
        vec_append_str(&mut v, "/");
        vec_append_str(&mut v, workspace_id);
        string_from_chars(&v)
    }
}

/// The status a project record carries, from the fields a server reports.
pub open spec fn project_status_spec(status: Option<Seq<char>>, user_count: u32, error_msg: Option<Seq<char>>) -> CloudProjectStatusView {
    let s = match status { Some(s) => s, None => "idle"@ };
    if s == "preparing"@ {
        CloudProjectStatusView::Preparing
    } else if s == "running"@ {
        CloudProjectStatusView::Running { user_count }
    } else if s == "error"@ {
        CloudProjectStatusView::Error(match error_msg { Some(m) => m, None => "unknown"@ })
    } else {
        CloudProjectStatusView::Idle
    }
}

/// A project status as plain values.
pub enum CloudProjectStatusView {
    Idle,
    Preparing,
    Running { user_count: u32 },
    Error(Seq<char>),
}

impl View for CloudProjectStatus {
    type V = CloudProjectStatusView;

    open spec fn view(&self) -> CloudProjectStatusView {
        match self {
            CloudProjectStatus::Idle => CloudProjectStatusView::Idle,
            CloudProjectStatus::Preparing => CloudProjectStatusView::Preparing,
            CloudProjectStatus::Running { user_count } => CloudProjectStatusView::Running { user_count: *user_count },
            CloudProjectStatus::Error(m) => CloudProjectStatusView::Error(m@),
        }
    }
}

/// Reads a project's status from what the server reported: `preparing`,
/// `running` (with its user count) and `error` (with its message, `unknown`
/// when missing) are recognised; anything else, or nothing, is idle.
pub fn project_status(status: Option<&str>, user_count: u32, error_msg: Option<&str>) -> (r: CloudProjectStatus)
    ensures
        r@ == project_status_spec(
            match status { Some(s) => Some(s@), None => None },
            user_count,
            match error_msg { Some(m) => Some(m@), None => None },
        ),
{
    let s = match status {
        Some(s) => s,
        None => "idle",
    };
    if str_eq(s, "preparing") {
        CloudProjectStatus::Preparing
    } else if str_eq(s, "running") {
        CloudProjectStatus::Running { user_count }
    } else if str_eq(s, "error") {
        let m = match error_msg {
            Some(m) => String::from_str(m),
            None => String::from_str("unknown"),
        };
        CloudProjectStatus::Error(m)
    } else {
        CloudProjectStatus::Idle
    }
}

/// A new server record from what the user typed, or none when the URL is
/// blank: the alias falls back to the URL, trailing `/`s leave the URL.
pub fn new_cloud_server(id: String, alias: &str, url: &str, token: String) -> (r: Option<CloudServer>)
    ensures
        r is None <==> crate::text::trim_ws(url@).len() == 0,
        r matches Some(s) ==> {
            &&& s.id == id
            &&& s.alias@ == (if crate::text::trim_ws(alias@).len() == 0 { url@ } else { alias@ })
            &&& s.url@ == crate::text::trim_end_char(url@, '/')
            &&& s.auth_token == token
            &&& s.status is Unknown
            &&& s.projects@.len() == 0
        },
{
    let u = chars_of(url);
    if trim(&u).len() == 0 {
        return None;
    }
    let a = if trim(&chars_of(alias)).len() == 0 { String::from_str(url) } else { String::from_str(alias) };
    Some(CloudServer {
        id,
        alias: a,
        url: string_from_chars(&trim_end_matches_char(&u, '/')),
        auth_token: token,
        status: CloudServerStatus::Unknown,
        projects: Vec::new(),
    })
}

/// The selection after the entry at `removed` leaves the list.
pub open spec fn selection_after(selected: Option<usize>, removed: usize) -> Option<usize> {
    match selected {
        Some(sel) => if sel == removed {
            None
        } else if sel > removed {
            Some((sel - 1) as usize)
        } else {
            Some(sel)
        },
        None => None,
    }
}

/// The selected server index after the server at `removed` is dropped from
/// the list: the selection is cleared when it was that server, and moves
/// down by one when it came after it.
pub fn selection_after_remove(selected: Option<usize>, removed: usize) -> (r: Option<usize>)
    ensures
        r == selection_after(selected, removed),
{
    match selected {
        Some(sel) => {
            if sel == removed {
                None
            } else if sel > removed {
                Some(sel - 1)
            } else {
                Some(sel)
            }
        },
        None => None,
    }
}


/// Removing a server keeps the selection on the same server, unless the
/// removed server was the selected one, which clears the selection.
pub proof fn lemma_selection_follows_server<T>(servers: Seq<T>, sel: usize, removed: usize)
    requires
        sel < servers.len(),
        removed < servers.len(),
    ensures
        sel == removed ==> selection_after(Some(sel), removed) is None,
        sel != removed ==> (selection_after(Some(sel), removed) matches Some(n)
            && n < servers.remove(removed as int).len()
            && servers.remove(removed as int)[n as int] == servers[sel as int]),
{
}

/// What the cloud page shows.
#[derive(Clone, Copy, Debug, PartialEq, Eq, Structural)]
pub enum CloudPanel {
    /// The form that adds a server.
    AddServer,
    /// The form that creates a project on the server at this index.
    CreateProject(usize),
    /// The projects of the server at this index.
    ServerDetail(usize),
    /// The list of configured servers.
    ServerList,
}

/// The panel for the page state: the add-server form wins; otherwise a
/// selection that names an existing server opens the create form or that
/// server's detail; anything else falls back to the server list.
pub open spec fn cloud_panel_of(show_add: bool, show_create: bool, selected: Option<usize>, server_count: usize) -> CloudPanel {
    let valid = match selected {
        Some(i) => i < server_count,
        None => false,
    };
    if show_add {
        CloudPanel::AddServer
    } else if valid && show_create {
        CloudPanel::CreateProject(selected->0)
    } else if valid {
        CloudPanel::ServerDetail(selected->0)
    } else {
        CloudPanel::ServerList
    }
}

/// Chooses the panel of the cloud page.
pub fn cloud_panel(show_add: bool, show_create: bool, selected: Option<usize>, server_count: usize) -> (r: CloudPanel)
    ensures
        r == cloud_panel_of(show_add, show_create, selected, server_count),
{
    let valid = match selected {
        Some(i) => i < server_count,
        None => false,
    };
    if show_add {
        CloudPanel::AddServer
    } else if valid {
        let i = match selected {
            Some(i) => i,
            None => 0,
        };
        if show_create {
            CloudPanel::CreateProject(i)
        } else {
            CloudPanel::ServerDetail(i)
        }
    } else {
        CloudPanel::ServerList
    }
}

/// The word shown for a server status.
pub open spec fn server_status_text(status: CloudServerStatus) -> Seq<char> {
    match status {
        CloudServerStatus::Online { .. } => "Online"@,
        CloudServerStatus::Offline => "Offline"@,
        CloudServerStatus::Unauthorized => "Auth Error"@,
        CloudServerStatus::Connecting => "Connecting\u{2026}"@,
        CloudServerStatus::Unknown => "Unknown"@,
    }
}

/// The label of a server's status badge.
pub fn server_status_label(status: &CloudServerStatus) -> (r: &'static str)
    ensures
        r@ == server_status_text(*status),
{
    match status {
        CloudServerStatus::Online { .. } => "Online",
        CloudServerStatus::Offline => "Offline",
        CloudServerStatus::Unauthorized => "Auth Error",
        CloudServerStatus::Connecting => "Connecting\u{2026}",
        CloudServerStatus::Unknown => "Unknown",
    }
}

/// The line under the page title: an invitation when no server is
/// configured, else how many are.
pub open spec fn servers_summary_text(count: nat) -> Seq<char> {
    if count == 0 {
        "Connect to a Pulsar Host server to browse and prepare shared projects."@
    } else {
        counted_noun(count, "studio server"@) + " configured"@
    }
}

/// The summary line of the server list for `count` configured servers.
pub fn servers_summary(count: usize) -> (r: String)
    ensures
        r@ == servers_summary_text(count as nat),
{
    if count == 0 {
        String::from_str("Connect to a Pulsar Host server to browse and prepare shared projects.")
    } else {
        let mut v = count_noun(count as u64, "studio server");
        vec_append_str(&mut v, " configured");
        string_from_chars(&v)
    }
}

/// The text of a project's status tag.
pub open spec fn project_status_text(status: CloudProjectStatusView) -> Seq<char> {
    match status {
        CloudProjectStatusView::Running { user_count } =>
            "Running  \u{2022}  "@ + counted_noun(user_count as nat, "editor"@),
        CloudProjectStatusView::Preparing => "Preparing"@,
        CloudProjectStatusView::Error(msg) => "Error: "@ + msg,
        CloudProjectStatusView::Idle => "Idle"@,
    }
}

/// The label of a project's status tag: the editors connected to a running
/// project, or the error a failed one reported.
pub fn project_status_label(status: &CloudProjectStatus) -> (r: String)
    ensures
        r@ == project_status_text(status@),
{
    match status {
        CloudProjectStatus::Running { user_count } => {
            let mut v = chars_of("Running  \u{2022}  ");
            let c = count_noun(*user_count as u64, "editor");
            vec_append(&mut v, &c);
            string_from_chars(&v)
        },
        CloudProjectStatus::Preparing => String::from_str("Preparing"),
        CloudProjectStatus::Error(msg) => {
            let mut v = chars_of("Error: ");
            vec_append_str(&mut v, msg.as_str());
            string_from_chars(&v)
        },
        CloudProjectStatus::Idle => String::from_str("Idle"),
    }
}

/// Something the user can do to a cloud project.
#[derive(Clone, Copy, Debug, PartialEq, Eq, Structural)]
pub enum ProjectAction {
    Open,
    Prepare,
    Stop,
    Delete,
}

/// The entries of a project's overflow menu, in order: open a running
/// project or else prepare it, stop it while it runs or prepares, and
/// always delete it.
pub open spec fn project_menu_of(status: CloudProjectStatusView) -> Seq<ProjectAction> {
    let running = status is Running;
    let active = running || status is Preparing;
    (if running { seq![ProjectAction::Open] } else { seq![ProjectAction::Prepare] })
        + (if active { seq![ProjectAction::Stop] } else { Seq::<ProjectAction>::empty() })
        + seq![ProjectAction::Delete]
}

/// The overflow menu of a project card.
pub fn project_menu(status: &CloudProjectStatus) -> (r: Vec<ProjectAction>)
    ensures
        r@ == project_menu_of(status@),
{
    let running = match status {
        CloudProjectStatus::Running { .. } => true,
        _ => false,
    };
    let preparing = match status {
        CloudProjectStatus::Preparing => true,
        _ => false,
    };
    let mut v: Vec<ProjectAction> = Vec::new();
    if running {
        v.push(ProjectAction::Open);
    } else {
        v.push(ProjectAction::Prepare);
    }
    if running || preparing {
        v.push(ProjectAction::Stop);
    }
    v.push(ProjectAction::Delete);
    assert(v@ =~= project_menu_of(status@));
    v
}

/// What a click on a project card does: nothing while it prepares, open it
/// while it runs, prepare it otherwise.
pub open spec fn project_click_of(status: CloudProjectStatusView) -> Option<ProjectAction> {
    match status {
        CloudProjectStatusView::Preparing => None,
        CloudProjectStatusView::Running { .. } => Some(ProjectAction::Open),
        _ => Some(ProjectAction::Prepare),
    }
}

/// The action of a click on a project card.
pub fn project_click(status: &CloudProjectStatus) -> (r: Option<ProjectAction>)
    ensures
        r == project_click_of(status@),
{
    match status {
        CloudProjectStatus::Preparing => None,
        CloudProjectStatus::Running { .. } => Some(ProjectAction::Open),
        _ => Some(ProjectAction::Prepare),
    }
}

/// The message shown in place of a server's projects when it lists none:
/// none while connecting, else whether the server answered.
pub fn empty_projects_message(status: &CloudServerStatus, project_count: usize) -> (r: Option<&'static str>)
    ensures
        r is None <==> (project_count > 0 || *status is Connecting),
        r matches Some(m) ==> m@ == (if *status is Online {
            "No projects on this server"@
        } else {
            "Could not connect to server"@
        }),
{
    if project_count > 0 {
        return None;
    }
    match status {
        CloudServerStatus::Connecting => None,
        CloudServerStatus::Online { .. } => Some("No projects on this server"),
        _ => Some("Could not connect to server"),
    }
}

/// The tone of a server's status bar and badge.
pub open spec fn server_status_tone_of(status: CloudServerStatus) -> Tone {
    match status {
        CloudServerStatus::Online { .. } => Tone::Success,
        CloudServerStatus::Offline => Tone::Danger,
        CloudServerStatus::Unauthorized => Tone::Warning,
        CloudServerStatus::Connecting => Tone::Info,
        CloudServerStatus::Unknown => Tone::Neutral,
    }
}

/// The tone a server card is drawn in for its status.
pub fn server_status_tone(status: &CloudServerStatus) -> (r: Tone)
    ensures
        r == server_status_tone_of(*status),
{
    match status {
        CloudServerStatus::Online { .. } => Tone::Success,
        CloudServerStatus::Offline => Tone::Danger,
        CloudServerStatus::Unauthorized => Tone::Warning,
        CloudServerStatus::Connecting => Tone::Info,
        CloudServerStatus::Unknown => Tone::Neutral,
    }
}

/// The tone of a project's status bar and tag.
pub open spec fn project_status_tone_of(status: CloudProjectStatusView) -> Tone {
    match status {
        CloudProjectStatusView::Running { .. } => Tone::Success,
        CloudProjectStatusView::Preparing => Tone::Info,
        CloudProjectStatusView::Error(_) => Tone::Danger,
        CloudProjectStatusView::Idle => Tone::Neutral,
    }
}

/// The tone a project card is drawn in for its status.
pub fn project_status_tone(status: &CloudProjectStatus) -> (r: Tone)
    ensures
        r == project_status_tone_of(status@),
{
    match status {
        CloudProjectStatus::Running { .. } => Tone::Success,
        CloudProjectStatus::Preparing => Tone::Info,
        CloudProjectStatus::Error(_) => Tone::Danger,
        CloudProjectStatus::Idle => Tone::Neutral,
    }
}

/// What to make of the reply to a server's info request.
#[derive(Clone, Copy, Debug, PartialEq, Eq, Structural)]
pub enum InfoVerdict {
    /// The server is offline: no reply, or a failure status.
    Offline,
    /// The server refused the token (401 or 403).
    Unauthorized,
    /// The server answered; its info body is to be read.
    ReadInfo,
}

/// The verdict on an info reply with this HTTP status, or on no reply:
/// `401` and `403` mean the token was refused, any other status outside `200..=299`
/// means offline.
pub open spec fn info_verdict_of(status: Option<u16>) -> InfoVerdict {
    match status {
        None => InfoVerdict::Offline,
        Some(c) => if c == 401 || c == 403 {
            InfoVerdict::Unauthorized
        } else if 200 <= c <= 299 {
            InfoVerdict::ReadInfo
        } else {
            InfoVerdict::Offline
        },
    }
}

/// Judges the reply to a server's info request by its HTTP status (none
/// when the request failed).
pub fn info_verdict(status: Option<u16>) -> (r: InfoVerdict)
    ensures
        r == info_verdict_of(status),
{
    match status {
        None => InfoVerdict::Offline,
        Some(c) => if c == 401 || c == 403 {
            InfoVerdict::Unauthorized
        } else if 200 <= c && c <= 299 {
            InfoVerdict::ReadInfo
        } else {
            InfoVerdict::Offline
        },
    }
}

/// The status of a server that answered, from the fields of its info body:
/// the version (`?` when missing) and the counts of active users and
/// projects (zero when missing, cut to 32 bits as the server reports 64).
pub fn online_status(latency_ms: u32, version: Option<&str>, active_users: Option<u64>, active_projects: Option<u64>) -> (r: CloudServerStatus)
    ensures
        r matches CloudServerStatus::Online { latency_ms: l, version: v, active_users: u, active_projects: p } && {
            &&& l == latency_ms
            &&& v@ == match version { Some(s) => s@, None => "?"@ }
            &&& u == (match active_users { Some(n) => n, None => 0 }) as u32
            &&& p == (match active_projects { Some(n) => n, None => 0 }) as u32
        },
{
    let v = match version {
        Some(s) => String::from_str(s),
        None => String::from_str("?"),
    };
    let u: u64 = match active_users {
        Some(n) => n,
        None => 0,
    };
    let p: u64 = match active_projects {
        Some(n) => n,
        None => 0,
    };
    CloudServerStatus::Online {
        latency_ms,
        version: v,
        active_users: u as u32,
        active_projects: p as u32,
    }
}

/// A project record as a server reports it, each field present (with the
/// right type) or not.
#[derive(Clone, Debug)]
pub struct ProjectRecord {
    pub id: Option<String>,
    pub name: Option<String>,
    pub description: Option<String>,
    pub last_modified: Option<String>,
    pub size_bytes: Option<u64>,
    pub owner: Option<String>,
    pub user_count: Option<u64>,
    pub status: Option<String>,
    pub error_msg: Option<String>,
}

/// The text of an optional field, empty when missing.
pub open spec fn text_or_empty(o: Option<String>) -> Seq<char> {
    match o {
        Some(s) => s@,
        None => Seq::empty(),
    }
}

fn string_or_empty(o: Option<String>) -> (r: String)
    ensures
        r@ == text_or_empty(o),
{
    match o {
        Some(s) => s,
        None => String::new(),
    }
}

/// The project a server's record describes, or none when it lacks an id or
/// a name. Missing texts are empty, a missing size or user count is zero
/// (the count cut to 32 bits), and the status is read as `project_status`
/// reads it.
pub fn project_from_record(rec: ProjectRecord) -> (r: Option<CloudProject>)
    ensures
        r is None <==> (rec.id is None || rec.name is None),
        r matches Some(p) ==> {
            &&& p.id == rec.id->0
            &&& p.name == rec.name->0
            &&& p.description@ == text_or_empty(rec.description)
            &&& p.last_modified@ == text_or_empty(rec.last_modified)
            &&& p.size_bytes == (match rec.size_bytes { Some(n) => n, None => 0 })
            &&& p.owner@ == text_or_empty(rec.owner)
            &&& p.status@ == project_status_spec(opt_view(rec.status),
                    (match rec.user_count { Some(n) => n, None => 0 }) as u32, opt_view(rec.error_msg))
        },
{
    let ProjectRecord { id, name, description, last_modified, size_bytes, owner, user_count, status, error_msg } = rec;
    let id = match id {
        Some(i) => i,
        None => return None,
    };
    let name = match name {
        Some(n) => n,
        None => return None,
    };
    let users: u64 = match user_count {
        Some(n) => n,
        None => 0,
    };
    let st = project_status(
        match &status {
            Some(t) => Some(t.as_str()),
            None => None,
        },
        users as u32,
        match &error_msg {
            Some(m) => Some(m.as_str()),
            None => None,
        },
    );
    Some(CloudProject {
        id,
        name,
        description: string_or_empty(description),
        status: st,
        last_modified: string_or_empty(last_modified),
        size_bytes: match size_bytes {
            Some(n) => n,
            None => 0,
        },
        owner: string_or_empty(owner),
    })
}

/// The outcome of a sign-in: the token and the user name, when the server
/// accepted the credentials and its reply holds both.
pub fn login_result(status_ok: bool, token: Option<String>, username: Option<String>) -> (r: Option<(String, String)>)
    ensures
        r is Some <==> (status_ok && token is Some && username is Some),
        r matches Some((t, u)) ==> t == token->0 && u == username->0,
{
    if !status_ok {
        return None;
    }
    match (token, username) {
        (Some(t), Some(u)) => Some((t, u)),
        _ => None,
    }
}

} // verus!
