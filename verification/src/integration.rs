//! Which external tool to start for an editor, git tool or file manager.

use vstd::prelude::*;
use crate::text::str_eq;

verus! {

/// Kinds of external tools.
#[derive(Debug, Clone, Copy, PartialEq, Eq)]
pub enum IntegrationType {
    Editor,
    GitTool,
    Terminal,
    FileManager,
}

/// The outcome of starting a tool.
#[derive(Debug, Clone)]
pub struct LaunchResult {
    pub success: bool,
    pub error: Option<String>,
}

impl LaunchResult {
    /// A successful start.
    pub fn success() -> (r: Self)
        ensures
            r.success,
            r.error is None,
    {
        LaunchResult { success: true, error: None }
    }

    /// A failed start with its message.
    pub fn error(message: String) -> (r: Self)
        ensures
            !r.success,
            r.error == Some(message),
    {
        LaunchResult { success: false, error: Some(message) }
    }
}

/// How to start a tool on a project directory.
#[derive(Debug, Clone)]
pub enum LaunchPlan {
    /// Start `program` with the directory as its argument.
    Gui { program: String },
    /// Start Visual Studio on the directory's solution file, if it has one.
    VisualStudio,
    /// Start `program` in a terminal opened in the directory.
    TerminalEditor { program: String },
}

/// A launch plan as plain values.
pub enum LaunchPlanView {
    Gui { program: Seq<char> },
    VisualStudio,
    TerminalEditor { program: Seq<char> },
}

impl View for LaunchPlan {
    type V = LaunchPlanView;

    open spec fn view(&self) -> LaunchPlanView {
        match self {
            LaunchPlan::Gui { program } => LaunchPlanView::Gui { program: program@ },
            LaunchPlan::VisualStudio => LaunchPlanView::VisualStudio,
            LaunchPlan::TerminalEditor { program } => LaunchPlanView::TerminalEditor { program: program@ },
        }
    }
}

/// Operating systems with a known file manager.
#[derive(Debug, Clone, Copy, PartialEq, Eq)]
pub enum TargetOs {
    Windows,
    MacOs,
    Linux,
}

/// The plan for an editor command.
pub open spec fn editor_plan(command: Seq<char>) -> LaunchPlanView {
    if command == "devenv"@ {
        LaunchPlanView::VisualStudio
    } else if command == "nvim"@ || command == "vim"@ || command == "emacs"@ {
        LaunchPlanView::TerminalEditor { program: command }
    } else {
        LaunchPlanView::Gui { program: command }
    }
}

/// The plan for a git tool command.
pub open spec fn git_tool_plan(command: Seq<char>) -> LaunchPlanView {
    if command == "github"@ || command == "gitkraken"@ || command == "sourcetree"@ || command == "git-cola"@
        || command == "emacs"@ {
        LaunchPlanView::Gui { program: command }
    } else if command == "lazygit"@ {
        LaunchPlanView::TerminalEditor { program: "lazygit"@ }
    } else {
        LaunchPlanView::Gui { program: "git"@ }
    }
}

/// The file manager program of an operating system.
pub open spec fn file_manager_program(os: TargetOs) -> Seq<char> {
    match os {
        TargetOs::Windows => "explorer"@,
        TargetOs::MacOs => "open"@,
        TargetOs::Linux => "nautilus"@,
    }
}

/// Chooses how external tools are started.
pub struct IntegrationService;

impl IntegrationService {
    /// How to open a project in the editor named by `command`: Visual
    /// Studio for `devenv`, a terminal for `nvim`, `vim` and `emacs`, and
    /// the command itself as a GUI program otherwise.
    pub fn launch_editor(command: &str) -> (r: LaunchPlan)
        ensures
            r@ == editor_plan(command@),
    {
        if str_eq(command, "devenv") {
            LaunchPlan::VisualStudio
        } else if str_eq(command, "nvim") || str_eq(command, "vim") || str_eq(command, "emacs") {
            LaunchPlan::TerminalEditor { program: String::from_str(command) }
        } else {
            LaunchPlan::Gui { program: String::from_str(command) }
        }
    }

    /// How to open a project in the git tool named by `command`: the known
    /// GUI tools by name, `lazygit` in a terminal, and `git` otherwise.
    pub fn launch_git_tool(command: &str) -> (r: LaunchPlan)
        ensures
            r@ == git_tool_plan(command@),
    {
        if str_eq(command, "github") || str_eq(command, "gitkraken") || str_eq(command, "sourcetree")
            || str_eq(command, "git-cola") || str_eq(command, "emacs") {
            LaunchPlan::Gui { program: String::from_str(command) }
        } else if str_eq(command, "lazygit") {
            LaunchPlan::TerminalEditor { program: String::from_str("lazygit") }
        } else {
            LaunchPlan::Gui { program: String::from_str("git") }
        }
    }

    /// How to open a directory in the file manager of `os`.
    pub fn launch_file_manager(os: TargetOs) -> (r: LaunchPlan)
        ensures
            r@ == (LaunchPlanView::Gui { program: file_manager_program(os) }),
    {
        let program = match os {
            TargetOs::Windows => String::from_str("explorer"),
            TargetOs::MacOs => String::from_str("open"),
            TargetOs::Linux => String::from_str("nautilus"),
        };
        LaunchPlan::Gui { program }
    }
}

/// The name shown for a tool command.
pub open spec fn tool_display_name(command: Seq<char>) -> Seq<char> {
    if command == "code"@ { "VS Code"@ }
    else if command == "devenv"@ { "Visual Studio"@ }
    else if command == "subl"@ { "Sublime Text"@ }
    else if command == "vim"@ { "Vim"@ }
    else if command == "nvim"@ { "Neovim"@ }
    else if command == "emacs"@ { "Emacs"@ }
    else if command == "idea"@ { "IntelliJ IDEA"@ }
    else if command == "clion"@ { "CLion"@ }
    else if command == "notepad++"@ { "Notepad++"@ }
    else if command == "git"@ { "Git GUI"@ }
    else if command == "github"@ { "GitHub Desktop"@ }
    else if command == "gitkraken"@ { "GitKraken"@ }
    else if command == "sourcetree"@ { "SourceTree"@ }
    else if command == "git-cola"@ { "Git Cola"@ }
    else if command == "lazygit"@ { "Lazygit"@ }
    else { command }
}

/// The name shown for a tool command; unknown commands show as themselves.
pub fn get_tool_display_name(command: &str) -> (r: String)
    ensures
        r@ == tool_display_name(command@),
{
    let name = if str_eq(command, "code") { "VS Code" }
    else if str_eq(command, "devenv") { "Visual Studio" }
    else if str_eq(command, "subl") { "Sublime Text" }
    else if str_eq(command, "vim") { "Vim" }
    else if str_eq(command, "nvim") { "Neovim" }
    else if str_eq(command, "emacs") { "Emacs" }
    else if str_eq(command, "idea") { "IntelliJ IDEA" }
    else if str_eq(command, "clion") { "CLion" }
    else if str_eq(command, "notepad++") { "Notepad++" }
    else if str_eq(command, "git") { "Git GUI" }
    else if str_eq(command, "github") { "GitHub Desktop" }
    else if str_eq(command, "gitkraken") { "GitKraken" }
    else if str_eq(command, "sourcetree") { "SourceTree" }
    else if str_eq(command, "git-cola") { "Git Cola" }
    else if str_eq(command, "lazygit") { "Lazygit" }
    else { command };
    String::from_str(name)
}

} // verus!
