//! The vocabulary of a run: the steps it is made of, what each asks of the
//! operating system, what the system may answer, and how a failure is named.

use crate::text::decimal;
use crate::token::Token;
use vstd::prelude::*;
use vstd::string::StringExecFns;

verus! {

/// The context that a step belongs to.
#[derive(Clone, Copy, Debug, PartialEq, Eq, Structural)]
pub enum Stage {
    /// Before the namespaces exist.
    Launch,
    /// Outside the new namespaces, beside the container.
    Setup,
    /// Inside the new namespaces.
    Container,
}

/// The steps of a run. A failure names the step that it stopped.
#[derive(Clone, Copy, Debug, PartialEq, Eq, Structural)]
pub enum Step {
    Command,
    Pipe,
    Spawn,
    OpenUidMap,
    WriteUidMap,
    OpenSetgroups,
    WriteSetgroups,
    OpenGidMap,
    WriteGidMap,
    SendReady,
    AwaitFinish,
    AwaitReady,
    BindRoot,
    EnterMountPoint,
    MakePutOld,
    PivotRoot,
    EnterRoot,
    MakeProc,
    MountProc,
    DetachPutOld,
    ClearEnv,
    SetEnv,
    SetUid,
    SetGid,
    Exec,
    SendFinish,
}

/// The classes of failure.
#[derive(Clone, Copy, Debug, PartialEq, Eq, Structural)]
pub enum ErrorClass {
    /// The request itself cannot be carried out.
    Configuration,
    /// A system call failed; the error carries its code.
    Syscall,
    /// A file, a directory or a stream failed.
    Io,
}

impl Step {
    /// The context in which the step is taken.
    pub open spec fn spec_stage(self) -> Stage {
        match self {
            Step::Command | Step::Pipe | Step::Spawn => Stage::Launch,
            Step::OpenUidMap
            | Step::WriteUidMap
            | Step::OpenSetgroups
            | Step::WriteSetgroups
            | Step::OpenGidMap
            | Step::WriteGidMap
            | Step::SendReady
            | Step::AwaitFinish => Stage::Setup,
            _ => Stage::Container,
        }
    }

    /// The class of a failure of the step.
    pub open spec fn spec_class(self) -> ErrorClass {
        match self {
            Step::Command | Step::ClearEnv | Step::SetEnv => ErrorClass::Configuration,
            Step::Spawn
            | Step::BindRoot
            | Step::PivotRoot
            | Step::MountProc
            | Step::DetachPutOld
            | Step::SetUid
            | Step::SetGid => ErrorClass::Syscall,
            _ => ErrorClass::Io,
        }
    }

    /// What is said of a failure of the step.
    pub open spec fn spec_text(self) -> Seq<char> {
        match self {
            Step::Command => "You should provide a command"@,
            Step::Pipe => "Could not create IPC pipe"@,
            Step::Spawn => "Could not call clone3 with these options"@,
            Step::OpenUidMap => "Could not open uid_map"@,
            Step::WriteUidMap => "Could not write to uid_map"@,
            Step::OpenSetgroups => "Could not open setgroups"@,
            Step::WriteSetgroups => "Could not write to setgroups"@,
            Step::OpenGidMap => "Could not open gid_map"@,
            Step::WriteGidMap => "Could not write to gid_map"@,
            Step::SendReady => "Could not send ready message to container"@,
            Step::AwaitFinish => "Could not read message from container"@,
            Step::AwaitReady => "Could not read message from setup"@,
            Step::BindRoot => "Could not mount container root fs"@,
            Step::EnterMountPoint => "Could not change directory to mount point"@,
            Step::MakePutOld => "Could not create `put_old`"@,
            Step::PivotRoot => "Could not pivot root"@,
            Step::EnterRoot => "Could not change directory to container root"@,
            Step::MakeProc => "Could not create /proc"@,
            Step::MountProc => "Could not mount /proc"@,
            Step::DetachPutOld => "Could not unmount `put_old`"@,
            Step::ClearEnv => "Could not clear the environment"@,
            Step::SetEnv => "Could not set an environment variable"@,
            Step::SetUid => "Could not set the user id"@,
            Step::SetGid => "Could not set the group id"@,
            Step::Exec => "Could not run entry command"@,
            Step::SendFinish => "Could not send finish message to setup"@,
        }
    }

    /// The context in which the step is taken.
    #[verifier::when_used_as_spec(spec_stage)]
    pub fn stage(self) -> (s: Stage)
        ensures
            s == self.spec_stage(),
    {
        match self {
            Step::Command | Step::Pipe | Step::Spawn => Stage::Launch,
            Step::OpenUidMap
            | Step::WriteUidMap
            | Step::OpenSetgroups
            | Step::WriteSetgroups
            | Step::OpenGidMap
            | Step::WriteGidMap
            | Step::SendReady
            | Step::AwaitFinish => Stage::Setup,
            _ => Stage::Container,
        }
    }

    /// The class of a failure of the step.
    #[verifier::when_used_as_spec(spec_class)]
    pub fn class(self) -> (c: ErrorClass)
        ensures
            c == self.spec_class(),
    {
        match self {
            Step::Command | Step::ClearEnv | Step::SetEnv => ErrorClass::Configuration,
            Step::Spawn
            | Step::BindRoot
            | Step::PivotRoot
            | Step::MountProc
            | Step::DetachPutOld
            | Step::SetUid
            | Step::SetGid => ErrorClass::Syscall,
            _ => ErrorClass::Io,
        }
    }

    /// What is said of a failure of the step.
    pub fn text(self) -> (s: &'static str)
        ensures
            s@ == self.spec_text(),
    {
        match self {
            Step::Command => "You should provide a command",
            Step::Pipe => "Could not create IPC pipe",
            Step::Spawn => "Could not call clone3 with these options",
            Step::OpenUidMap => "Could not open uid_map",
            Step::WriteUidMap => "Could not write to uid_map",
            Step::OpenSetgroups => "Could not open setgroups",
            Step::WriteSetgroups => "Could not write to setgroups",
            Step::OpenGidMap => "Could not open gid_map",
            Step::WriteGidMap => "Could not write to gid_map",
            Step::SendReady => "Could not send ready message to container",
            Step::AwaitFinish => "Could not read message from container",
            Step::AwaitReady => "Could not read message from setup",
            Step::BindRoot => "Could not mount container root fs",
            Step::EnterMountPoint => "Could not change directory to mount point",
            Step::MakePutOld => "Could not create `put_old`",
            Step::PivotRoot => "Could not pivot root",
            Step::EnterRoot => "Could not change directory to container root",
            Step::MakeProc => "Could not create /proc",
            Step::MountProc => "Could not mount /proc",
            Step::DetachPutOld => "Could not unmount `put_old`",
            Step::ClearEnv => "Could not clear the environment",
            Step::SetEnv => "Could not set an environment variable",
            Step::SetUid => "Could not set the user id",
            Step::SetGid => "Could not set the group id",
            Step::Exec => "Could not run entry command",
            Step::SendFinish => "Could not send finish message to setup",
        }
    }
}

impl Stage {
    /// The tag that a failure in this context carries in front.
    pub open spec fn spec_tag(self) -> Seq<char> {
        match self {
            Stage::Launch => Seq::empty(),
            Stage::Setup => "[setup] "@,
            Stage::Container => "[container] "@,
        }
    }

    /// The tag that a failure in this context carries in front.
    pub fn tag(self) -> (s: &'static str)
        ensures
            s@ == self.spec_tag(),
    {
        match self {
            Stage::Launch => {
                proof {
                    reveal_strlit("");
                    assert(""@ =~= Seq::<char>::empty());
                }
                ""
            },
            Stage::Setup => "[setup] ",
            Stage::Container => "[container] ",
        }
    }
}

/// The one error that a run ends with: the step that failed, the class of
/// the failure and the code that the system gave.
#[derive(Clone, Copy, Debug, PartialEq, Eq, Structural)]
pub struct LaunchError {
    pub class: ErrorClass,
    pub step: Step,
    pub code: i64,
}

impl LaunchError {
    /// The failure of `step` with the code `code`.
    pub open spec fn at(step: Step, code: i64) -> LaunchError {
        LaunchError { class: step.spec_class(), step, code }
    }

    /// The text of the error: the tag of its context, then what failed.
    pub open spec fn spec_message(self) -> Seq<char> {
        self.step.spec_stage().spec_tag() + self.step.spec_text()
    }

    /// The failure of `step` with the code `code`.
    pub fn new(step: Step, code: i64) -> (e: LaunchError)
        ensures
            e == LaunchError::at(step, code),
    {
        LaunchError { class: step.class(), step, code }
    }

    /// The text of the error: the tag of its context, then what failed.
    pub fn message(&self) -> (s: String)
        ensures
            s@ == self.spec_message(),
    {
        let mut s = String::from_str(self.step.stage().tag());
        s.append(self.step.text());
        s
    }
}

/// What a step asks of the operating system.
#[derive(Debug, PartialEq, Eq)]
pub enum Action {
    /// Open a pipe between the two contexts. The first pipe of a run leads
    /// from setup to the container, the second one back.
    OpenPipe,
    /// Duplicate the process into new namespaces, as `flags` says.
    Spawn { flags: u64 },
    /// Create the file at `path`, or truncate it, and keep it open.
    CreateFile { path: String },
    /// Write `data` to the file that was opened last.
    Write { data: String },
    /// Send the line of `token` to the other context.
    Send { token: Token },
    /// Read one line from the other context, in the hope that it carries
    /// `token`. The read waits as long as it takes: there is no bound on the
    /// rendezvous, and a context whose partner has died waits for good.
    Await { token: Token },
    /// Mount `source` at `target`; with `bind`, as a bind mount.
    Mount { source: String, target: String, fstype: String, bind: bool },
    /// Change the working directory.
    ChangeDir { path: String },
    /// Create one directory with the permissions `mode`.
    MakeDir { path: String, mode: u32 },
    /// Make `new_root` the root of the file system and move the old root to
    /// `put_old`.
    PivotRoot { new_root: String, put_old: String },
    /// Unmount `target`; with `detach`, lazily.
    Unmount { target: String, detach: bool },
    /// Remove every variable from the environment.
    ClearEnv,
    /// Set one variable of the environment.
    SetEnv { name: String, value: String },
    /// Set the user id.
    SetUid { uid: u32 },
    /// Set the group id.
    SetGid { gid: u32 },
    /// Run `command` and wait for it; with `piped`, with streams of its own.
    Exec { command: Vec<String>, piped: bool },
}

/// An action as the contracts see it.
pub enum ActionView {
    OpenPipe,
    Spawn { flags: u64 },
    CreateFile { path: Seq<char> },
    Write { data: Seq<char> },
    Send { token: Token },
    Await { token: Token },
    Mount { source: Seq<char>, target: Seq<char>, fstype: Seq<char>, bind: bool },
    ChangeDir { path: Seq<char> },
    MakeDir { path: Seq<char>, mode: u32 },
    PivotRoot { new_root: Seq<char>, put_old: Seq<char> },
    Unmount { target: Seq<char>, detach: bool },
    ClearEnv,
    SetEnv { name: Seq<char>, value: Seq<char> },
    SetUid { uid: u32 },
    SetGid { gid: u32 },
    Exec { command: Seq<Seq<char>>, piped: bool },
}

impl View for Action {
    type V = ActionView;

    open spec fn view(&self) -> ActionView {
        match *self {
            Action::OpenPipe => ActionView::OpenPipe,
            Action::Spawn { flags } => ActionView::Spawn { flags },
            Action::CreateFile { path } => ActionView::CreateFile { path: path@ },
            Action::Write { data } => ActionView::Write { data: data@ },
            Action::Send { token } => ActionView::Send { token },
            Action::Await { token } => ActionView::Await { token },
            Action::Mount { source, target, fstype, bind } => ActionView::Mount {
                source: source@,
                target: target@,
                fstype: fstype@,
                bind,
            },
            Action::ChangeDir { path } => ActionView::ChangeDir { path: path@ },
            Action::MakeDir { path, mode } => ActionView::MakeDir { path: path@, mode },
            Action::PivotRoot { new_root, put_old } => ActionView::PivotRoot {
                new_root: new_root@,
                put_old: put_old@,
            },
            Action::Unmount { target, detach } => ActionView::Unmount { target: target@, detach },
            Action::ClearEnv => ActionView::ClearEnv,
            Action::SetEnv { name, value } => ActionView::SetEnv { name: name@, value: value@ },
            Action::SetUid { uid } => ActionView::SetUid { uid },
            Action::SetGid { gid } => ActionView::SetGid { gid },
            Action::Exec { command, piped } => ActionView::Exec {
                command: command@.map_values(|w: String| w@),
                piped,
            },
        }
    }
}

/// One entry of a plan: a step and what it asks for.
#[derive(Debug, PartialEq, Eq)]
pub struct Task {
    pub step: Step,
    pub action: Action,
}

/// A task as the contracts see it.
pub struct TaskView {
    pub step: Step,
    pub action: ActionView,
}

impl View for Task {
    type V = TaskView;

    open spec fn view(&self) -> TaskView {
        TaskView { step: self.step, action: self.action@ }
    }
}

/// A plan as the contracts see it.
pub open spec fn plan_view(tasks: Seq<Task>) -> Seq<TaskView> {
    tasks.map_values(|t: Task| t@)
}

/// What the operating system answered to an action.
#[derive(Debug, PartialEq, Eq)]
pub enum Event {
    /// The action succeeded.
    Done,
    /// The directory to create was there already.
    Exists,
    /// The call came back with this value: the process id after a spawn,
    /// the raw return code otherwise.
    Returned(i64),
    /// The line that was read.
    Line(String),
    /// The action failed with this code.
    Failed(i64),
}

/// An event as the contracts see it.
pub enum EventView {
    Done,
    Exists,
    Returned(i64),
    Line(Seq<char>),
    Failed(i64),
}

impl View for Event {
    type V = EventView;

    open spec fn view(&self) -> EventView {
        match *self {
            Event::Done => EventView::Done,
            Event::Exists => EventView::Exists,
            Event::Returned(v) => EventView::Returned(v),
            Event::Line(l) => EventView::Line(l@),
            Event::Failed(c) => EventView::Failed(c),
        }
    }
}

/// The file of the process `pid` that the kernel shows under the name
/// `name`.
pub open spec fn spec_proc_file(pid: int, name: Seq<char>) -> Seq<char> {
    "/proc/"@ + decimal(pid) + "/"@ + name
}

/// The path of the file of the process `pid` that the kernel shows under
/// the name `name`.
pub fn proc_file(pid: i64, name: &str) -> (path: String)
    ensures
        path@ == spec_proc_file(pid as int, name@),
{
    let mut path = String::from_str("/proc/");
    crate::text::push_signed(&mut path, pid);
    path.append("/");
    path.append(name);
    path
}

} // verus!
