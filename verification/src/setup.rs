//! The dependency setup flow: its tasks, their status, and the decisions
//! taken between checking for Rust and installing it.

use vstd::prelude::*;
use crate::integration::TargetOs;

verus! {

/// Status of a setup task.
#[derive(Clone, Debug)]
pub enum TaskStatus {
    Pending,
    InProgress,
    Completed,
    Failed(String),
}

/// A task status as plain values.
pub enum TaskStatusView {
    Pending,
    InProgress,
    Completed,
    Failed(Seq<char>),
}

impl View for TaskStatus {
    type V = TaskStatusView;

    open spec fn view(&self) -> TaskStatusView {
        match self {
            TaskStatus::Pending => TaskStatusView::Pending,
            TaskStatus::InProgress => TaskStatusView::InProgress,
            TaskStatus::Completed => TaskStatusView::Completed,
            TaskStatus::Failed(m) => TaskStatusView::Failed(m@),
        }
    }
}

/// One step of the setup, with a name, a description and a status.
#[derive(Clone, Debug)]
pub struct SetupTask {
    pub name: String,
    pub description: String,
    pub status: TaskStatus,
}

impl SetupTask {
    /// A task that has not started yet.
    pub fn new(name: String, description: String) -> (r: Self)
        ensures
            r.name == name,
            r.description == description,
            r.status is Pending,
    {
        SetupTask { name, description, status: TaskStatus::Pending }
    }
}

/// What to do once the check for Rust is done.
#[derive(Clone, Copy, Debug, PartialEq, Eq)]
pub enum SetupNext {
    /// Rust is there: the setup is complete.
    Done,
    /// Rust is missing: run the installer.
    Install,
}

/// The state of the setup window apart from its progress bar.
#[derive(Debug)]
pub struct SetupFlow {
    pub setup_tasks: Vec<SetupTask>,
    pub is_running: bool,
    pub setup_complete: bool,
}

/// The statuses of a list of tasks.
pub open spec fn statuses(tasks: Seq<SetupTask>) -> Seq<TaskStatusView> {
    tasks.map_values(|t: SetupTask| t.status@)
}

/// `a` and `b` list the same tasks: same number, names and descriptions.
pub open spec fn same_tasks(a: Seq<SetupTask>, b: Seq<SetupTask>) -> bool {
    &&& a.len() == b.len()
    &&& forall|i: int| 0 <= i < a.len() ==> (#[trigger] a[i]).name == b[i].name && a[i].description == b[i].description
}

impl SetupFlow {
    /// Two pending tasks, checking for Rust and installing it; not running.
    pub fn new() -> (r: Self)
        ensures
            r.setup_tasks@.len() == 2,
            r.setup_tasks@[0].name@ == "Checking Rust"@,
            r.setup_tasks@[1].name@ == "Installing Rust"@,
            statuses(r.setup_tasks@) == seq![TaskStatusView::Pending, TaskStatusView::Pending],
            !r.is_running,
            !r.setup_complete,
    {
        let mut tasks: Vec<SetupTask> = Vec::new();
        tasks.push(SetupTask::new(String::from_str("Checking Rust"), String::from_str("Looking for an existing toolchain")));
        tasks.push(SetupTask::new(
            String::from_str("Installing Rust"),
            String::from_str("Running rustup — handles toolchains, build tools, and SDKs for this platform"),
        ));
        let r = SetupFlow { setup_tasks: tasks, is_running: false, setup_complete: false };
        assert(statuses(r.setup_tasks@) =~= seq![TaskStatusView::Pending, TaskStatusView::Pending]);
        r
    }

    /// Sets the status of the task at `index`; an index past the end changes nothing.
    pub fn update_task(&mut self, index: usize, status: TaskStatus)
        ensures
            final(self).setup_tasks@.len() == old(self).setup_tasks@.len(),
            forall|i: int| 0 <= i < old(self).setup_tasks@.len() && i != index ==>
                (#[trigger] final(self).setup_tasks@[i]) == old(self).setup_tasks@[i],
            index < old(self).setup_tasks@.len() ==> final(self).setup_tasks@[index as int].status == status
                && final(self).setup_tasks@[index as int].name == old(self).setup_tasks@[index as int].name
                && final(self).setup_tasks@[index as int].description == old(self).setup_tasks@[index as int].description,
            final(self).is_running == old(self).is_running,
            final(self).setup_complete == old(self).setup_complete,
    {
        if index < self.setup_tasks.len() {
            let ghost before = self.setup_tasks@;
            let t = self.setup_tasks.remove(index);
            let nt = SetupTask { name: t.name, description: t.description, status };
            self.setup_tasks.insert(index, nt);
            assert forall|i: int| 0 <= i < before.len() && i != index implies
                (#[trigger] self.setup_tasks@[i]) == before[i] by {
                if i < index {
                    assert(self.setup_tasks@[i] == before.remove(index as int)[i]);
                } else {
                    assert(self.setup_tasks@[i] == before.remove(index as int)[i - 1]);
                }
            }
        }
    }

    /// Starts the setup unless it is already running; says whether it started.
    /// A started setup marks the first task in progress.
    pub fn start_setup(&mut self) -> (r: bool)
        ensures
            r == !old(self).is_running,
            !r ==> *final(self) == *old(self),
            r ==> final(self).is_running && final(self).setup_complete == old(self).setup_complete,
            r ==> same_tasks(final(self).setup_tasks@, old(self).setup_tasks@),
            r ==> forall|i: int| 1 <= i < old(self).setup_tasks@.len() ==>
                (#[trigger] final(self).setup_tasks@[i]) == old(self).setup_tasks@[i],
            r && old(self).setup_tasks@.len() > 0 ==> final(self).setup_tasks@[0].status is InProgress,
    {
        if self.is_running {
            return false;
        }
        self.is_running = true;
        self.update_task(0, TaskStatus::InProgress);
        true
    }

    /// Records the outcome of the check for Rust and says what comes next:
    /// when Rust was found both tasks complete and the setup is done;
    /// otherwise the check fails with `Not found` and the install starts.
    pub fn finish_check(&mut self, rust_ok: bool) -> (r: SetupNext)
        requires
            old(self).setup_tasks@.len() == 2,
        ensures
            same_tasks(final(self).setup_tasks@, old(self).setup_tasks@),
            r == (if rust_ok { SetupNext::Done } else { SetupNext::Install }),
            rust_ok ==> final(self).setup_tasks@[0].status is Completed && final(self).setup_tasks@[1].status is Completed
                && final(self).setup_complete && !final(self).is_running,
            !rust_ok ==> final(self).setup_tasks@[0].status@ == TaskStatusView::Failed("Not found"@)
                && final(self).setup_tasks@[1].status is InProgress
                && final(self).setup_complete == old(self).setup_complete
                && final(self).is_running == old(self).is_running,
    {
        if rust_ok {
            self.update_task(0, TaskStatus::Completed);
            self.update_task(1, TaskStatus::Completed);
            self.setup_complete = true;
            self.is_running = false;
            SetupNext::Done
        } else {
            self.update_task(0, TaskStatus::Failed(String::from_str("Not found")));
            self.update_task(1, TaskStatus::InProgress);
            SetupNext::Install
        }
    }

    /// Records the outcome of the install; the setup stops, complete exactly
    /// when the install succeeded.
    pub fn finish_install(&mut self, install_ok: bool)
        requires
            old(self).setup_tasks@.len() == 2,
        ensures
            same_tasks(final(self).setup_tasks@, old(self).setup_tasks@),
            final(self).setup_tasks@[0] == old(self).setup_tasks@[0],
            install_ok ==> final(self).setup_tasks@[1].status is Completed,
            !install_ok ==> final(self).setup_tasks@[1].status@ == TaskStatusView::Failed("rustup install failed"@),
            final(self).setup_complete == install_ok,
            !final(self).is_running,
    {
        if install_ok {
            self.update_task(1, TaskStatus::Completed);
        } else {
            self.update_task(1, TaskStatus::Failed(String::from_str("rustup install failed")));
        }
        self.setup_complete = install_ok;
        self.is_running = false;
    }
}

/// Whether Rust and a C toolchain are installed, and which compiler.
#[derive(Clone, Debug)]
pub struct DependencyStatus {
    pub rust_installed: bool,
    pub build_tools_installed: bool,
    pub compiler_info: Option<String>,
}

/// The compiler reported for the probes that succeeded, in the order the
/// platform prefers: MSVC, GCC (MinGW), Clang on Windows; GCC, Clang on
/// Linux; Clang, GCC on macOS.
pub open spec fn compiler_found(os: TargetOs, cl_ok: bool, gcc_ok: bool, clang_ok: bool) -> Option<Seq<char>> {
    match os {
        TargetOs::Windows => if cl_ok { Some("MSVC"@) } else if gcc_ok { Some("GCC (MinGW)"@) }
            else if clang_ok { Some("Clang"@) } else { None },
        TargetOs::Linux => if gcc_ok { Some("GCC"@) } else if clang_ok { Some("Clang"@) } else { None },
        TargetOs::MacOs => if clang_ok { Some("Clang"@) } else if gcc_ok { Some("GCC"@) } else { None },
    }
}

impl DependencyStatus {
    /// Whether something must still be installed (Rust or a C toolchain);
    /// the entry screen then offers the setup.
    pub fn is_missing(&self) -> (r: bool)
        ensures
            r == (!self.rust_installed || !self.build_tools_installed),
    {
        !self.rust_installed || !self.build_tools_installed
    }
}

/// Reads dependency status from the outcome of tool probes.
pub struct DependencyService;

impl DependencyService {
    /// The dependency status from whether `rustc`, `cl`, `gcc` and `clang`
    /// could be run.
    pub fn status_from_probes(os: TargetOs, rust_ok: bool, cl_ok: bool, gcc_ok: bool, clang_ok: bool) -> (r: DependencyStatus)
        ensures
            r.rust_installed == rust_ok,
            r.build_tools_installed == compiler_found(os, cl_ok, gcc_ok, clang_ok) is Some,
            crate::cloud::opt_view(r.compiler_info) == compiler_found(os, cl_ok, gcc_ok, clang_ok),
    {
        let info: Option<&str> = match os {
            TargetOs::Windows => if cl_ok { Some("MSVC") } else if gcc_ok { Some("GCC (MinGW)") }
                else if clang_ok { Some("Clang") } else { None },
            TargetOs::Linux => if gcc_ok { Some("GCC") } else if clang_ok { Some("Clang") } else { None },
            TargetOs::MacOs => if clang_ok { Some("Clang") } else if gcc_ok { Some("GCC") } else { None },
        };
        match info {
            Some(s) => DependencyStatus { rust_installed: rust_ok, build_tools_installed: true, compiler_info: Some(String::from_str(s)) },
            None => DependencyStatus { rust_installed: rust_ok, build_tools_installed: false, compiler_info: None },
        }
    }
}

/// A C compiler the dependency check looks for.
#[derive(Clone, Copy, Debug, PartialEq, Eq, Structural)]
pub enum Compiler {
    Msvc,
    Gcc,
    Clang,
}

/// The compilers to probe, in the order the platform prefers them.
pub open spec fn probe_order_of(os: TargetOs) -> Seq<Compiler> {
    match os {
        TargetOs::Windows => seq![Compiler::Msvc, Compiler::Gcc, Compiler::Clang],
        TargetOs::Linux => seq![Compiler::Gcc, Compiler::Clang],
        TargetOs::MacOs => seq![Compiler::Clang, Compiler::Gcc],
    }
}

/// The order in which the dependency check probes compilers; it stops at
/// the first one that runs, which `status_from_probes` then reports.
pub fn probe_order(os: TargetOs) -> (r: Vec<Compiler>)
    ensures
        r@ == probe_order_of(os),
{
    let mut v: Vec<Compiler> = Vec::new();
    match os {
        TargetOs::Windows => {
            v.push(Compiler::Msvc);
            v.push(Compiler::Gcc);
            v.push(Compiler::Clang);
        },
        TargetOs::Linux => {
            v.push(Compiler::Gcc);
            v.push(Compiler::Clang);
        },
        TargetOs::MacOs => {
            v.push(Compiler::Clang);
            v.push(Compiler::Gcc);
        },
    }
    assert(v@ =~= probe_order_of(os));
    v
}

} // verus!
