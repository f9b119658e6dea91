//! Shared records of the entry screen: navigation, clone progress, git and
//! plugin status, onboarding and invitations, and the project templates.

use vstd::prelude::*;

verus! {

/// The views of the entry screen.
#[derive(Clone, Copy, PartialEq, Eq, Debug, Structural)]
pub enum EntryScreenView {
    Recent,
    Templates,
    NewProject,
    CloneGit,
    CloudProjects,
    Friends,
}

/// The title shown for a view.
pub open spec fn view_title_spec(v: EntryScreenView) -> Seq<char> {
    match v {
        EntryScreenView::Recent => "Recent Projects"@,
        EntryScreenView::Templates => "Templates"@,
        EntryScreenView::NewProject => "New Project"@,
        EntryScreenView::CloneGit => "Clone Repository"@,
        EntryScreenView::CloudProjects => "Cloud Projects"@,
        EntryScreenView::Friends => "Friends"@,
    }
}

/// The title shown for a view.
pub fn view_title(view: EntryScreenView) -> (r: &'static str)
    ensures
        r@ == view_title_spec(view),
{
    match view {
        EntryScreenView::Recent => "Recent Projects",
        EntryScreenView::Templates => "Templates",
        EntryScreenView::NewProject => "New Project",
        EntryScreenView::CloneGit => "Clone Repository",
        EntryScreenView::CloudProjects => "Cloud Projects",
        EntryScreenView::Friends => "Friends",
    }
}

/// What fills the entry window.
#[derive(Clone, Copy, PartialEq, Eq, Debug, Structural)]
pub enum EntryLayout {
    Onboarding,
    DependencySetup,
    UpstreamPrompt,
    ProjectSettings,
    /// The sidebar and the given view.
    Main(EntryScreenView),
}

/// The layout for the window state: onboarding first, then the dependency
/// setup, the upstream prompt and the project settings, each covering the
/// window while it is open; otherwise the sidebar and the current view.
pub open spec fn entry_layout_of(show_onboarding: bool, show_dependency_setup: bool,
    upstream_prompt: bool, project_settings: bool, view: EntryScreenView) -> EntryLayout {
    if show_onboarding {
        EntryLayout::Onboarding
    } else if show_dependency_setup {
        EntryLayout::DependencySetup
    } else if upstream_prompt {
        EntryLayout::UpstreamPrompt
    } else if project_settings {
        EntryLayout::ProjectSettings
    } else {
        EntryLayout::Main(view)
    }
}

/// Chooses what fills the entry window.
pub fn entry_layout(show_onboarding: bool, show_dependency_setup: bool, upstream_prompt: bool,
    project_settings: bool, view: EntryScreenView) -> (r: EntryLayout)
    ensures
        r == entry_layout_of(show_onboarding, show_dependency_setup, upstream_prompt, project_settings, view),
{
    if show_onboarding {
        EntryLayout::Onboarding
    } else if show_dependency_setup {
        EntryLayout::DependencySetup
    } else if upstream_prompt {
        EntryLayout::UpstreamPrompt
    } else if project_settings {
        EntryLayout::ProjectSettings
    } else {
        EntryLayout::Main(view)
    }
}

/// Whether showing the main layout starts checking the recent projects for
/// upstream updates: on the recent-projects view, when no check runs yet.
pub fn starts_update_check(layout: EntryLayout, fetching: bool) -> (r: bool)
    ensures
        r == (layout == EntryLayout::Main(EntryScreenView::Recent) && !fetching),
{
    match layout {
        EntryLayout::Main(EntryScreenView::Recent) => !fetching,
        _ => false,
    }
}

/// Progress of a repository clone.
#[derive(Clone, Debug)]
pub struct CloneProgress {
    pub current: usize,
    pub total: usize,
    pub message: String,
    pub completed: bool,
    pub error: Option<String>,
}

impl CloneProgress {
    /// A clone about to start: nothing done out of 100, `Initializing...`.
    pub fn new() -> (r: Self)
        ensures
            r.current == 0,
            r.total == 100,
            r.message@ == "Initializing..."@,
            !r.completed,
            r.error is None,
    {
        CloneProgress {
            current: 0,
            total: 100,
            message: String::from_str("Initializing..."),
            completed: false,
            error: None,
        }
    }

    /// The destination was chosen and the clone runs.
    pub fn start_cloning(&mut self)
        ensures
            final(self).current == 10,
            final(self).message@ == "Cloning repository..."@,
            final(self).total == old(self).total,
            final(self).completed == old(self).completed,
            final(self).error == old(self).error,
    {
        self.message = String::from_str("Cloning repository...");
        self.current = 10;
    }

    /// The clone succeeded: complete, at its total.
    pub fn finish_ok(&mut self)
        ensures
            final(self).completed,
            final(self).current == old(self).total,
            final(self).total == old(self).total,
            final(self).message@ == "Clone completed!"@,
            final(self).error == old(self).error,
    {
        self.completed = true;
        self.current = self.total;
        self.message = String::from_str("Clone completed!");
    }

    /// The clone failed for `reason`.
    pub fn finish_failed(&mut self, reason: &str)
        ensures
            final(self).error matches Some(e) && e@ == "Clone failed: "@ + reason@,
            final(self).message@ == "Error occurred"@,
            final(self).current == old(self).current,
            final(self).total == old(self).total,
            final(self).completed == old(self).completed,
    {
        let mut v = crate::text::chars_of("Clone failed: ");
        crate::text::vec_append_str(&mut v, reason);
        self.error = Some(crate::text::string_from_chars(&v));
        self.message = String::from_str("Error occurred");
    }

    /// The worker running the clone died.
    pub fn finish_crashed(&mut self)
        ensures
            final(self).error matches Some(e) && e@ == "Thread panic during clone"@,
            final(self).message == old(self).message,
            final(self).current == old(self).current,
            final(self).total == old(self).total,
            final(self).completed == old(self).completed,
    {
        self.error = Some(String::from_str("Thread panic during clone"));
    }
}

/// Whether answering the upstream prompt adds the user's upstream remote:
/// when not skipped and an URL was typed.
pub fn adds_upstream(skip: bool, upstream_url: &str) -> (r: bool)
    ensures
        r == (!skip && crate::text::trim_ws(upstream_url@).len() > 0),
{
    !skip && crate::text::trim(&crate::text::chars_of(upstream_url)).len() > 0
}

/// Result of checking a project for upstream updates.
#[derive(Clone, Debug)]
pub enum GitFetchStatus {
    NotStarted,
    Fetching,
    UpToDate,
    /// Number of commits the project is behind.
    UpdatesAvailable(usize),
    Error(String),
}

/// A recent project together with its git fetch status.
#[derive(Clone, Debug)]
pub struct ProjectWithGitStatus {
    pub name: String,
    pub path: String,
    pub last_opened: Option<String>,
    pub is_git: bool,
    pub fetch_status: GitFetchStatus,
}

/// A plugin registry the launcher reads plugins from.
#[derive(Clone, Debug)]
pub struct PluginRegistry {
    pub name: String,
    pub url: String,
}

/// A plugin offered by a registry.
#[derive(Clone, Debug)]
pub struct RegistryPlugin {
    pub name: String,
    pub description: String,
    pub repo_url: String,
    pub author: String,
    pub tags: Vec<String>,
    pub registry_url: String,
}

/// How a plugin got installed.
#[derive(Clone, Copy, Debug, PartialEq, Eq)]
pub enum PluginInstallMethod {
    BinaryDownload,
    BuiltFromSource,
}

/// A plugin installed locally.
#[derive(Clone, Debug)]
pub struct InstalledPlugin {
    pub name: String,
    pub repo_url: String,
    pub version: String,
    pub installed_at: String,
    pub install_method: PluginInstallMethod,
    pub library_path: String,
}

/// The tabs of the onboarding flow.
#[derive(Clone, Copy, PartialEq, Eq, Debug)]
pub enum OnboardingTab {
    Theme,
    Plugins,
}

impl Default for OnboardingTab {
    fn default() -> (r: Self)
        ensures
            r == OnboardingTab::Theme,
    {
        OnboardingTab::Theme
    }
}

/// An invitation from another user, waiting for an answer.
#[derive(Clone, Debug)]
pub struct PendingInvite {
    pub from_username: String,
    pub from_home_server: Option<String>,
    pub message: String,
    pub notification_id: String,
}

/// The icons project templates are shown with.
#[derive(Clone, Copy, PartialEq, Eq, Debug)]
pub enum TemplateIcon {
    Folder,
    Settings,
    Gamepad,
    WorldMap,
    Eye,
    Cube,
    Shield,
    Star,
    BookOpen,
    Box,
    CreditCard,
    Rocket,
}

/// A project template with its git repository.
#[derive(Clone, Debug)]
pub struct Template {
    pub name: String,
    pub description: String,
    pub icon: TemplateIcon,
    pub repo_url: String,
    pub category: String,
}

/// A template as plain values.
pub struct TemplateView {
    pub name: Seq<char>,
    pub description: Seq<char>,
    pub icon: TemplateIcon,
    pub repo_url: Seq<char>,
    pub category: Seq<char>,
}

impl View for Template {
    type V = TemplateView;

    open spec fn view(&self) -> TemplateView {
        TemplateView {
            name: self.name@,
            description: self.description@,
            icon: self.icon,
            repo_url: self.repo_url@,
            category: self.category@,
        }
    }
}

/// A template from its fields.
pub open spec fn tv(name: Seq<char>, desc: Seq<char>, icon: TemplateIcon, repo_url: Seq<char>, category: Seq<char>) -> TemplateView {
    TemplateView { name, description: desc, icon, repo_url, category }
}

impl Template {
    /// A template from its fields.
    pub fn new(name: &str, desc: &str, icon: TemplateIcon, repo_url: &str, category: &str) -> (r: Self)
        ensures
            r@ == tv(name@, desc@, icon, repo_url@, category@),
    {
        Template {
            name: String::from_str(name),
            description: String::from_str(desc),
            icon,
            repo_url: String::from_str(repo_url),
            category: String::from_str(category),
        }
    }
}

/// The built-in project templates, in the order they are shown.
pub open spec fn default_templates() -> Seq<TemplateView> {
    seq![
        tv("Blank Project"@, "Empty project with minimal structure"@, TemplateIcon::Folder, "https://github.com/Far-Beyond-Pulsar/Template-Blank"@, "Basic"@),
        tv("Core"@, "Core engine features and systems"@, TemplateIcon::Settings, "https://github.com/pulsar-templates/core.git"@, "Basic"@),
        tv("2D Platformer"@, "Classic side-scrolling platformer"@, TemplateIcon::Gamepad, "https://github.com/pulsar-templates/2d-platformer.git"@, "2D"@),
        tv("2D Top-Down"@, "Top-down 2D game with camera"@, TemplateIcon::WorldMap, "https://github.com/pulsar-templates/2d-topdown.git"@, "2D"@),
        tv("3D First Person"@, "FPS with movement and camera"@, TemplateIcon::Eye, "https://github.com/pulsar-templates/3d-fps.git"@, "3D"@),
        tv("3D Platformer"@, "3D platformer with physics"@, TemplateIcon::Cube, "https://github.com/pulsar-templates/3d-platformer.git"@, "3D"@),
        tv("Tower Defense"@, "Wave-based tower defense"@, TemplateIcon::Shield, "https://github.com/pulsar-templates/tower-defense.git"@, "Strategy"@),
        tv("Action RPG"@, "Action-oriented RPG systems"@, TemplateIcon::Star, "https://github.com/pulsar-templates/action-rpg.git"@, "RPG"@),
        tv("Visual Novel"@, "Narrative-driven visual novel"@, TemplateIcon::BookOpen, "https://github.com/pulsar-templates/visual-novel.git"@, "Narrative"@),
        tv("Puzzle"@, "Puzzle game mechanics"@, TemplateIcon::Box, "https://github.com/pulsar-templates/puzzle.git"@, "Puzzle"@),
        tv("Card Game"@, "Card-based game system"@, TemplateIcon::CreditCard, "https://github.com/pulsar-templates/card-game.git"@, "Card"@),
        tv("Racing"@, "Racing game with physics"@, TemplateIcon::Rocket, "https://github.com/pulsar-templates/racing.git"@, "Racing"@),
    ]
}

/// The built-in project templates.
pub fn get_default_templates() -> (r: Vec<Template>)
    ensures
        r@.len() == default_templates().len(),
        forall|i: int| 0 <= i < r@.len() ==> (#[trigger] r@[i])@ == default_templates()[i],
{
    let mut r: Vec<Template> = Vec::new();
    r.push(Template::new("Blank Project", "Empty project with minimal structure", TemplateIcon::Folder, "https://github.com/Far-Beyond-Pulsar/Template-Blank", "Basic"));
    r.push(Template::new("Core", "Core engine features and systems", TemplateIcon::Settings, "https://github.com/pulsar-templates/core.git", "Basic"));
    r.push(Template::new("2D Platformer", "Classic side-scrolling platformer", TemplateIcon::Gamepad, "https://github.com/pulsar-templates/2d-platformer.git", "2D"));
    r.push(Template::new("2D Top-Down", "Top-down 2D game with camera", TemplateIcon::WorldMap, "https://github.com/pulsar-templates/2d-topdown.git", "2D"));
    r.push(Template::new("3D First Person", "FPS with movement and camera", TemplateIcon::Eye, "https://github.com/pulsar-templates/3d-fps.git", "3D"));
    r.push(Template::new("3D Platformer", "3D platformer with physics", TemplateIcon::Cube, "https://github.com/pulsar-templates/3d-platformer.git", "3D"));
    r.push(Template::new("Tower Defense", "Wave-based tower defense", TemplateIcon::Shield, "https://github.com/pulsar-templates/tower-defense.git", "Strategy"));
    r.push(Template::new("Action RPG", "Action-oriented RPG systems", TemplateIcon::Star, "https://github.com/pulsar-templates/action-rpg.git", "RPG"));
    r.push(Template::new("Visual Novel", "Narrative-driven visual novel", TemplateIcon::BookOpen, "https://github.com/pulsar-templates/visual-novel.git", "Narrative"));
    r.push(Template::new("Puzzle", "Puzzle game mechanics", TemplateIcon::Box, "https://github.com/pulsar-templates/puzzle.git", "Puzzle"));
    r.push(Template::new("Card Game", "Card-based game system", TemplateIcon::CreditCard, "https://github.com/pulsar-templates/card-game.git", "Card"));
    r.push(Template::new("Racing", "Racing game with physics", TemplateIcon::Rocket, "https://github.com/pulsar-templates/racing.git", "Racing"));
    r
}

/// The colour family a badge or accent is drawn in.
#[derive(Clone, Copy, Debug, PartialEq, Eq, Structural)]
pub enum Tone {
    Success,
    Primary,
    Warning,
    Info,
    Danger,
    Neutral,
}

/// The tone of a template category.
pub open spec fn category_tone_of(category: Seq<char>) -> Tone {
    if category == "2D"@ {
        Tone::Success
    } else if category == "3D"@ {
        Tone::Primary
    } else if category == "Strategy"@ {
        Tone::Warning
    } else if category == "RPG"@ {
        Tone::Info
    } else if category == "Racing"@ {
        Tone::Danger
    } else {
        Tone::Neutral
    }
}

/// The accent of a template card by its category: 2D, 3D, Strategy, RPG
/// and Racing have their own; every other category is neutral.
pub fn category_tone(category: &str) -> (r: Tone)
    ensures
        r == category_tone_of(category@),
{
    if crate::text::str_eq(category, "2D") {
        Tone::Success
    } else if crate::text::str_eq(category, "3D") {
        Tone::Primary
    } else if crate::text::str_eq(category, "Strategy") {
        Tone::Warning
    } else if crate::text::str_eq(category, "RPG") {
        Tone::Info
    } else if crate::text::str_eq(category, "Racing") {
        Tone::Danger
    } else {
        Tone::Neutral
    }
}

} // verus!
