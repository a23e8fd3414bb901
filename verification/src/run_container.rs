//! The launcher: the plan of each of the two contexts of a run, and the
//! session that walks a context through its plan, one answer of the
//! operating system at a time.

use crate::namespaces::{
    env_plan, env_steps, mnt_ns_plan, mount_plan, mount_steps_in_order, prepare_mnt_ns,
    prepare_user_ns, user_ns_plan,
};
use crate::options::{words_view, Policy, RunOptions};
use crate::spawn::{clone_request, flags_of, namespace_flags, request_flags};
use clone3::Clone3;
use crate::steps::{
    plan_view, Action, ActionView, Event, EventView, LaunchError, Stage, Step, Task, TaskView,
};
use crate::syscall::pivot_root;
use crate::token::Token;
use vstd::prelude::*;

verus! {

/// What the launcher does before there are two contexts: it opens the two
/// pipes and duplicates the process into the new namespaces.
pub open spec fn launch_plan(o: Policy) -> Seq<TaskView> {
    seq![
        TaskView { step: Step::Pipe, action: ActionView::OpenPipe },
        TaskView { step: Step::Pipe, action: ActionView::OpenPipe },
        TaskView { step: Step::Spawn, action: ActionView::Spawn { flags: namespace_flags(o) } },
    ]
}

/// The identity mapping, where the policy isolates the users.
pub open spec fn mapping_plan(o: Policy, pid: int) -> Seq<TaskView> {
    if o.isolate_user {
        user_ns_plan(o, pid)
    } else {
        Seq::empty()
    }
}

/// The two halves of the rendezvous as setup sees them.
pub open spec fn rendezvous_plan() -> Seq<TaskView> {
    seq![
        TaskView { step: Step::SendReady, action: ActionView::Send { token: Token::Ready } },
        TaskView { step: Step::AwaitFinish, action: ActionView::Await { token: Token::Finish } },
    ]
}

/// What setup does beside the container `pid`: it maps the identities,
/// where the policy isolates the users, says that it is ready, and waits
/// until the container has finished.
pub open spec fn setup_plan(o: Policy, pid: int) -> Seq<TaskView> {
    mapping_plan(o, pid) + rendezvous_plan()
}

/// The waiting for setup.
pub open spec fn await_ready_plan() -> Seq<TaskView> {
    seq![TaskView { step: Step::AwaitReady, action: ActionView::Await { token: Token::Ready } }]
}

/// The preparation of the mount namespace, where the policy isolates the
/// mounts.
pub open spec fn root_plan(o: Policy) -> Seq<TaskView> {
    if o.isolate_mnt {
        mnt_ns_plan(o)
    } else {
        Seq::empty()
    }
}

/// The drop to the root identity inside the namespace.
pub open spec fn identity_plan() -> Seq<TaskView> {
    seq![
        TaskView { step: Step::SetUid, action: ActionView::SetUid { uid: 0 } },
        TaskView { step: Step::SetGid, action: ActionView::SetGid { gid: 0 } },
    ]
}

/// The running of the entry command. It is run only where the policy
/// isolates the network.
pub open spec fn exec_plan(o: Policy, cmd: Seq<Seq<char>>) -> Seq<TaskView> {
    if o.isolate_net {
        seq![
            TaskView {
                step: Step::Exec,
                action: ActionView::Exec { command: cmd, piped: o.detach },
            },
        ]
    } else {
        Seq::empty()
    }
}

/// The last word of the container.
pub open spec fn finish_plan() -> Seq<TaskView> {
    seq![TaskView { step: Step::SendFinish, action: ActionView::Send { token: Token::Finish } }]
}

/// What the container does: it waits for setup, prepares the mount
/// namespace, where the policy isolates the mounts, becomes root, runs the
/// entry command, where the policy isolates the network, and says that it
/// has finished.
pub open spec fn container_plan(o: Policy, cmd: Seq<Seq<char>>) -> Seq<TaskView> {
    await_ready_plan() + root_plan(o) + identity_plan() + exec_plan(o, cmd) + finish_plan()
}

/// The plan of a context.
pub open spec fn plan_of(o: Policy, cmd: Seq<Seq<char>>, stage: Stage, pid: int) -> Seq<TaskView> {
    match stage {
        Stage::Launch => launch_plan(o),
        Stage::Setup => setup_plan(o, pid),
        Stage::Container => container_plan(o, cmd),
    }
}

/// What an answer means for the task that it answers.
#[derive(Clone, Copy, Debug, PartialEq, Eq, Structural)]
pub enum Verdict {
    /// The task is done.
    Proceed,
    /// The event does not answer the task, which stays in turn.
    Stay,
    /// A line came that does not carry the token that is awaited. It is
    /// passed over, and the token is awaited still.
    Deviation,
    /// The task has failed, and the run with it.
    Abort(LaunchError),
}

/// Whether `v` is a process id.
pub open spec fn is_pid(v: i64) -> bool {
    -0x8000_0000 <= v <= 0x7fff_ffff
}

/// What `event` means for `task`.
///
/// A failure ends the run, but for the drop to root, whose outcome is not
/// looked at. While a token is awaited, a line that carries another token
/// or none is a deviation: it is passed over and never ends the run. A
/// directory that exists already counts as made.
/// The change of root has failed where its call returned anything but zero.
/// An event that is no answer to the task changes nothing.
pub open spec fn spec_judge(task: TaskView, event: EventView) -> Verdict {
    match task.action {
        ActionView::Await { token } => match event {
            EventView::Line(line) => if Token::spec_parse(line) == Some(token) {
                Verdict::Proceed
            } else {
                Verdict::Deviation
            },
            EventView::Failed(code) => Verdict::Abort(LaunchError::at(task.step, code)),
            _ => Verdict::Stay,
        },
        ActionView::MakeDir { .. } => match event {
            EventView::Done | EventView::Exists => Verdict::Proceed,
            EventView::Failed(code) => Verdict::Abort(LaunchError::at(task.step, code)),
            _ => Verdict::Stay,
        },
        ActionView::PivotRoot { .. } => match event {
            EventView::Returned(code) => if code == 0 {
                Verdict::Proceed
            } else {
                Verdict::Abort(LaunchError::at(task.step, code))
            },
            EventView::Failed(code) => Verdict::Abort(LaunchError::at(task.step, code)),
            _ => Verdict::Stay,
        },
        ActionView::Spawn { .. } => match event {
            EventView::Returned(pid) => if is_pid(pid) {
                Verdict::Proceed
            } else {
                Verdict::Stay
            },
            EventView::Failed(code) => Verdict::Abort(LaunchError::at(task.step, code)),
            _ => Verdict::Stay,
        },
        ActionView::SetUid { .. } | ActionView::SetGid { .. } => match event {
            EventView::Done | EventView::Returned(_) | EventView::Failed(_) => Verdict::Proceed,
            _ => Verdict::Stay,
        },
        _ => match event {
            EventView::Done => Verdict::Proceed,
            EventView::Failed(code) => Verdict::Abort(LaunchError::at(task.step, code)),
            _ => Verdict::Stay,
        },
    }
}

/// What `event` means for `task`.
pub fn judge(task: &Task, event: &Event) -> (v: Verdict)
    ensures
        v == spec_judge(task@, event@),
{
    match &task.action {
        Action::Await { token } => match event {
            Event::Line(line) => {
                let read = Token::parse(line.as_str());
                match read {
                    Some(t) => if t == *token {
                        Verdict::Proceed
                    } else {
                        Verdict::Deviation
                    },
                    None => Verdict::Deviation,
                }
            },
            Event::Failed(code) => Verdict::Abort(LaunchError::new(task.step, *code)),
            _ => Verdict::Stay,
        },
        Action::MakeDir { .. } => match event {
            Event::Done | Event::Exists => Verdict::Proceed,
            Event::Failed(code) => Verdict::Abort(LaunchError::new(task.step, *code)),
            _ => Verdict::Stay,
        },
        Action::PivotRoot { .. } => match event {
            Event::Returned(code) => match pivot_root(*code) {
                Ok(_) => Verdict::Proceed,
                Err(e) => Verdict::Abort(LaunchError::new(task.step, e.code())),
            },
            Event::Failed(code) => Verdict::Abort(LaunchError::new(task.step, *code)),
            _ => Verdict::Stay,
        },
        Action::Spawn { .. } => match event {
            Event::Returned(pid) => if -0x8000_0000 <= *pid && *pid <= 0x7fff_ffff {
                Verdict::Proceed
            } else {
                Verdict::Stay
            },
            Event::Failed(code) => Verdict::Abort(LaunchError::new(task.step, *code)),
            _ => Verdict::Stay,
        },
        Action::SetUid { .. } | Action::SetGid { .. } => match event {
            Event::Done | Event::Returned(_) | Event::Failed(_) => Verdict::Proceed,
            _ => Verdict::Stay,
        },
        _ => match event {
            Event::Done => Verdict::Proceed,
            Event::Failed(code) => Verdict::Abort(LaunchError::new(task.step, *code)),
            _ => Verdict::Stay,
        },
    }
}

fn task(step: Step, action: Action) -> (t: Task)
    ensures
        t@ == (TaskView { step, action: action@ }),
{
    Task { step, action }
}

fn launch_tasks(opts: &RunOptions) -> (plan: Vec<Task>)
    ensures
        plan_view(plan@) == launch_plan(opts@),
{
    let mut plan: Vec<Task> = Vec::new();
    plan.push(task(Step::Pipe, Action::OpenPipe));
    plan.push(task(Step::Pipe, Action::OpenPipe));
    plan.push(task(Step::Spawn, Action::Spawn { flags: flags_of(opts) }));
    assert(plan_view(plan@) =~= launch_plan(opts@));
    plan
}

/// The plan of setup beside the container `container_pid`.
pub fn container_setup(opts: &RunOptions, container_pid: i32) -> (plan: Vec<Task>)
    ensures
        plan_view(plan@) == setup_plan(opts@, container_pid as int),
{
    let mut plan: Vec<Task> = if opts.isolate_user {
        prepare_user_ns(opts, container_pid)
    } else {
        Vec::new()
    };
    assert(plan_view(plan@) =~= mapping_plan(opts@, container_pid as int));
    plan.push(task(Step::SendReady, Action::Send { token: Token::Ready }));
    plan.push(task(Step::AwaitFinish, Action::Await { token: Token::Finish }));
    assert(plan_view(plan@) =~= setup_plan(opts@, container_pid as int));
    plan
}

fn words(cmd: &[String]) -> (copy: Vec<String>)
    ensures
        words_view(copy@) == words_view(cmd@),
{
    let mut copy: Vec<String> = Vec::new();
    let mut i: usize = 0;
    while i < cmd.len()
        invariant
            i <= cmd.len(),
            words_view(copy@) == words_view(cmd@.take(i as int)),
        decreases cmd.len() - i,
    {
        let ghost before = copy@;
        let word = cmd[i].clone();
        copy.push(word);
        proof {
            assert(cmd@.take(i + 1) =~= cmd@.take(i as int).push(cmd@[i as int]));
            assert(words_view(copy@) =~= words_view(before).push(word@));
            assert(words_view(cmd@.take(i + 1)) =~= words_view(cmd@.take(i as int)).push(
                cmd@[i as int]@,
            ));
        }
        i += 1;
    }
    assert(cmd@.take(i as int) =~= cmd@);
    copy
}

/// The plan of the container that is to run `cmd`.
pub fn container_main(opts: &RunOptions, cmd: &[String]) -> (plan: Vec<Task>)
    ensures
        plan_view(plan@) == container_plan(opts@, words_view(cmd@)),
{
    let mut plan: Vec<Task> = Vec::new();
    plan.push(task(Step::AwaitReady, Action::Await { token: Token::Ready }));
    assert(plan_view(plan@) =~= await_ready_plan());
    if opts.isolate_mnt {
        let mut root = prepare_mnt_ns(opts);
        let ghost head = plan@;
        let ghost tail = root@;
        plan.append(&mut root);
        assert(plan_view(head + tail) =~= plan_view(head) + plan_view(tail));
    }
    assert(plan_view(plan@) =~= await_ready_plan() + root_plan(opts@));
    plan.push(task(Step::SetUid, Action::SetUid { uid: 0 }));
    plan.push(task(Step::SetGid, Action::SetGid { gid: 0 }));
    assert(plan_view(plan@) =~= await_ready_plan() + root_plan(opts@) + identity_plan());
    if opts.isolate_net {
        let ghost before = plan_view(plan@);
        let command = words(cmd);
        plan.push(task(Step::Exec, Action::Exec { command, piped: opts.detach }));
        assert(plan_view(plan@) =~= before + exec_plan(opts@, words_view(cmd@)));
    }
    assert(plan_view(plan@) =~= await_ready_plan() + root_plan(opts@) + identity_plan()
        + exec_plan(opts@, words_view(cmd@)));
    plan.push(task(Step::SendFinish, Action::Send { token: Token::Finish }));
    assert(plan_view(plan@) =~= container_plan(opts@, words_view(cmd@)));
    plan
}

/// Where a run stands: in which context, beside which container, how many
/// tasks of the context's plan are done, and whether it has failed.
pub struct State {
    pub stage: Stage,
    /// What the spawn returned; it is the container's process id in setup.
    pub pid: i32,
    pub pos: nat,
    pub error: Option<LaunchError>,
}

/// Where every run starts.
pub open spec fn initial() -> State {
    State { stage: Stage::Launch, pid: 0, pos: 0, error: None }
}

/// Where a context starts after the spawn has returned `pid`: zero is
/// returned to the container, the container's process id to setup.
pub open spec fn entered(pid: i64) -> State {
    State {
        stage: if pid == 0 {
            Stage::Container
        } else {
            Stage::Setup
        },
        pid: pid as i32,
        pos: 0,
        error: None,
    }
}

/// What the driver of a run is to do.
#[derive(Debug, PartialEq, Eq)]
pub enum Directive<'a> {
    /// Carry out the task's action and report what came of it.
    Perform(&'a Task),
    /// Nothing: the context has come to the end of its plan.
    Finished,
    /// Nothing: the run has failed.
    Failed(LaunchError),
}

/// A directive as the contracts see it.
pub enum DirectiveView {
    Perform(TaskView),
    Finished,
    Failed(LaunchError),
}

impl<'a> View for Directive<'a> {
    type V = DirectiveView;

    open spec fn view(&self) -> DirectiveView {
        match *self {
            Directive::Perform(t) => DirectiveView::Perform(t@),
            Directive::Finished => DirectiveView::Finished,
            Directive::Failed(e) => DirectiveView::Failed(e),
        }
    }
}

/// What is to be done in the state `s`.
pub open spec fn directive_of(o: Policy, cmd: Seq<Seq<char>>, s: State) -> DirectiveView {
    let plan = plan_of(o, cmd, s.stage, s.pid as int);
    if s.error is Some {
        DirectiveView::Failed(s.error->0)
    } else if s.pos < plan.len() {
        DirectiveView::Perform(plan[s.pos as int])
    } else {
        DirectiveView::Finished
    }
}

/// The state that follows `s` when `event` is reported.
///
/// A run that has failed or finished stays as it is. Otherwise the event is
/// held against the task in turn: the run fails with the task, or stays
/// where it is, or goes on to the next task. After the spawn it goes on in
/// the context that the returned process id stands for.
pub open spec fn next(o: Policy, cmd: Seq<Seq<char>>, s: State, event: EventView) -> State {
    let plan = plan_of(o, cmd, s.stage, s.pid as int);
    if s.error is Some || s.pos >= plan.len() {
        s
    } else {
        match spec_judge(plan[s.pos as int], event) {
            Verdict::Stay | Verdict::Deviation => s,
            Verdict::Abort(e) => State { error: Some(e), ..s },
            Verdict::Proceed => match (plan[s.pos as int].action, event) {
                (ActionView::Spawn { .. }, EventView::Returned(pid)) => entered(pid),
                _ => State { pos: s.pos + 1, ..s },
            },
        }
    }
}

/// One context of a run on its way through its plan.
#[derive(Debug)]
pub struct Session<'a> {
    opts: &'a RunOptions,
    cmd: &'a [String],
    stage: Stage,
    pid: i32,
    plan: Vec<Task>,
    pos: usize,
    error: Option<LaunchError>,
}

impl<'a> Session<'a> {
    #[verifier::type_invariant]
    spec fn well_formed(self) -> bool {
        &&& plan_view(self.plan@) == plan_of(
            self.opts@,
            words_view(self.cmd@),
            self.stage,
            self.pid as int,
        )
        &&& self.pos <= self.plan.len()
    }

    /// The policy of the run.
    pub closed spec fn policy(&self) -> Policy {
        self.opts@
    }

    /// The entry command of the run.
    pub closed spec fn command(&self) -> Seq<Seq<char>> {
        words_view(self.cmd@)
    }

    /// Where the run stands.
    pub closed spec fn state(&self) -> State {
        State { stage: self.stage, pid: self.pid, pos: self.pos as nat, error: self.error }
    }

    /// The context that the session is in.
    pub fn stage(&self) -> (stage: Stage)
        ensures
            stage == self.state().stage,
    {
        self.stage
    }

    /// What the spawn returned: zero before it and in the container, the
    /// container's process id in setup.
    pub fn pid(&self) -> (pid: i32)
        ensures
            pid == self.state().pid,
    {
        self.pid
    }

    /// How many tasks of the context's plan are done.
    pub fn position(&self) -> (pos: usize)
        ensures
            pos == self.state().pos,
    {
        self.pos
    }

    /// What is to be done now.
    pub fn current(&self) -> (d: Directive<'_>)
        ensures
            d@ == directive_of(self.policy(), self.command(), self.state()),
    {
        proof {
            use_type_invariant(self);
        }
        match self.error {
            Some(e) => Directive::Failed(e),
            None => if self.pos < self.plan.len() {
                Directive::Perform(&self.plan[self.pos])
            } else {
                Directive::Finished
            },
        }
    }

    /// The request that carries out the spawn, while the spawn is in turn:
    /// it holds the flags that the task names.
    pub fn spawn_request(&self) -> (request: Option<Clone3<'static>>)
        ensures
            request is Some <==> (directive_of(self.policy(), self.command(), self.state())
                matches DirectiveView::Perform(t) && t.action is Spawn),
            request is Some ==> request_flags(request->0) == namespace_flags(self.policy()),
            request is Some ==> directive_of(
                self.policy(),
                self.command(),
                self.state(),
            )->Perform_0.action == (ActionView::Spawn { flags: request_flags(request->0) }),
    {
        proof {
            use_type_invariant(self);
            let s = self.state();
            if s.error is None && s.pos < self.plan.len() {
                match s.stage {
                    Stage::Launch => {},
                    Stage::Setup => {
                        setup_task_kinds(self.policy(), s.pid as int, s.pos as int);
                    },
                    Stage::Container => {
                        container_task_kinds(self.policy(), self.command(), s.pos as int);
                    },
                }
            }
        }
        if self.error.is_none() && self.pos < self.plan.len() {
            match &self.plan[self.pos].action {
                Action::Spawn { .. } => Some(clone_request(self.opts)),
                _ => None,
            }
        } else {
            None
        }
    }

    /// Takes the answer to the task in turn.
    pub fn advance(&mut self, event: &Event)
        ensures
            final(self).policy() == old(self).policy(),
            final(self).command() == old(self).command(),
            final(self).state() == next(
                old(self).policy(),
                old(self).command(),
                old(self).state(),
                event@,
            ),
    {
        proof {
            use_type_invariant(&*self);
        }
        if self.error.is_some() || self.pos >= self.plan.len() {
            return ;
        }
        let verdict = judge(&self.plan[self.pos], event);
        match verdict {
            Verdict::Stay | Verdict::Deviation => {},
            Verdict::Abort(e) => {
                self.error = Some(e);
            },
            Verdict::Proceed => {
                let spawned: Option<i32> = match (&self.plan[self.pos].action, event) {
                    (Action::Spawn { .. }, Event::Returned(pid)) => Some(*pid as i32),
                    _ => None,
                };
                match spawned {
                    Some(pid) => {
                        let opts = self.opts;
                        let cmd = self.cmd;
                        if pid == 0 {
                            let plan = container_main(opts, cmd);
                            *self = Session {
                                opts,
                                cmd,
                                stage: Stage::Container,
                                pid,
                                plan,
                                pos: 0,
                                error: None,
                            };
                        } else {
                            let plan = container_setup(opts, pid);
                            *self = Session {
                                opts,
                                cmd,
                                stage: Stage::Setup,
                                pid,
                                plan,
                                pos: 0,
                                error: None,
                            };
                        }
                    },
                    None => {
                        self.pos = self.pos + 1;
                    },
                }
            },
        }
    }
}

/// Starts a run of `cmd` under the policy `opts`.
///
/// A run without a command is refused before anything is asked of the
/// operating system. Otherwise the session stands at the first task of the
/// launcher.
pub fn run_container<'a>(opts: &'a RunOptions, cmd: &'a [String]) -> (r: Result<
    Session<'a>,
    LaunchError,
>)
    ensures
        cmd@.len() == 0 <==> r is Err,
        r is Err ==> r->Err_0 == LaunchError::at(Step::Command, 0),
        r is Ok ==> r->Ok_0.policy() == opts@ && r->Ok_0.command() == words_view(cmd@)
            && r->Ok_0.state() == initial(),
{
    if cmd.len() == 0 {
        return Err(LaunchError::new(Step::Command, 0));
    }
    let plan = launch_tasks(opts);
    Ok(Session { opts, cmd, stage: Stage::Launch, pid: 0, plan, pos: 0, error: None })
}

/// The state after each of `events` was reported, in order.
pub open spec fn after(o: Policy, cmd: Seq<Seq<char>>, s: State, events: Seq<EventView>) -> State
    decreases events.len(),
{
    if events.len() == 0 {
        s
    } else {
        next(o, cmd, after(o, cmd, s, events.drop_last()), events.last())
    }
}

/// How many of `events` report a success.
pub open spec fn successes(events: Seq<EventView>) -> nat
    decreases events.len(),
{
    if events.len() == 0 {
        0
    } else {
        successes(events.drop_last()) + if events.last() is Done {
            1nat
        } else {
            0nat
        }
    }
}

/// Setup, where the policy isolates the users, maps the identities in full
/// and only then says that it is ready: its plan is the identity mapping,
/// then the sending of `ready`, then the waiting for `finish`.
pub proof fn mapping_precedes_ready(o: Policy, pid: int)
    requires
        o.isolate_user,
    ensures
        setup_plan(o, pid).len() == 8,
        setup_plan(o, pid).subrange(0, 6) == user_ns_plan(o, pid),
        setup_plan(o, pid)[6] == (TaskView {
            step: Step::SendReady,
            action: ActionView::Send { token: Token::Ready },
        }),
        setup_plan(o, pid)[7] == (TaskView {
            step: Step::AwaitFinish,
            action: ActionView::Await { token: Token::Finish },
        }),
        forall|i: int|
            0 <= i < 8 ==> ((#[trigger] setup_plan(o, pid)[i]).action is Send <==> i == 6),
        forall|i: int|
            0 <= i < 6 ==> (#[trigger] setup_plan(o, pid)[i]).action is CreateFile || setup_plan(
                o,
                pid,
            )[i].action is Write,
{
    let plan = setup_plan(o, pid);
    assert(plan.subrange(0, 6) =~= user_ns_plan(o, pid));
    assert forall|i: int| 0 <= i < 6 implies (#[trigger] plan[i]) == user_ns_plan(o, pid)[i] by {}
}

/// Every task of the container's plan belongs to the container; none of
/// them spawns, and the entry command is run only where the policy isolates
/// the network: then it is the last task but one.
pub proof fn container_task_kinds(o: Policy, cmd: Seq<Seq<char>>, i: int)
    requires
        0 <= i < container_plan(o, cmd).len(),
    ensures
        !(container_plan(o, cmd)[i].action is Spawn),
        container_plan(o, cmd)[i].action is Exec <==> o.isolate_net && i == container_plan(
            o,
            cmd,
        ).len() - 2,
        container_plan(o, cmd)[i].step == Step::Exec <==> container_plan(o, cmd)[i].action is Exec,
{
    let a = await_ready_plan();
    let r = root_plan(o);
    let d = identity_plan();
    let e = exec_plan(o, cmd);
    let f = finish_plan();
    let p = container_plan(o, cmd);
    assert(p.len() == 1 + r.len() + 2 + e.len() + 1);
    if i < 1 {
        assert(p[i] == a[i]);
    } else if i < 1 + r.len() {
        assert(p[i] == r[i - 1]);
        mount_steps_in_order(o);
        if i - 1 < 8 {
            assert(r[i - 1] == mount_plan(o)[i - 1]);
        } else {
            env_steps(o, i - 9);
            assert(r[i - 1] == env_plan(o)[i - 9]);
        }
    } else if i < 1 + r.len() + 2 {
        assert(p[i] == d[i - 1 - r.len()]);
    } else if i < 1 + r.len() + 2 + e.len() {
        assert(p[i] == e[i - 3 - r.len()]);
    } else {
        assert(p[i] == f[i - 3 - r.len() - e.len()]);
    }
}

/// Where the policy does not isolate the network, no state of a run asks
/// for the entry command to be run.
pub proof fn command_needs_network(o: Policy, cmd: Seq<Seq<char>>, s: State)
    requires
        !o.isolate_net,
    ensures
        directive_of(o, cmd, s) matches DirectiveView::Perform(t) ==> !(t.action is Exec),
{
    let plan = plan_of(o, cmd, s.stage, s.pid as int);
    if s.error is None && s.pos < plan.len() {
        match s.stage {
            Stage::Launch => {},
            Stage::Setup => {
                setup_task_kinds(o, s.pid as int, s.pos as int);
            },
            Stage::Container => {
                container_task_kinds(o, cmd, s.pos as int);
            },
        }
    }
}

/// No task of setup spawns or runs a command, and a task of setup before
/// the rendezvous creates a file or writes to one.
pub proof fn setup_task_kinds(o: Policy, pid: int, i: int)
    requires
        0 <= i < setup_plan(o, pid).len(),
    ensures
        !(setup_plan(o, pid)[i].action is Spawn),
        !(setup_plan(o, pid)[i].action is Exec),
        i < setup_plan(o, pid).len() - 2 ==> setup_plan(o, pid)[i].action is CreateFile
            || setup_plan(o, pid)[i].action is Write,
{
    let m = mapping_plan(o, pid);
    let p = setup_plan(o, pid);
    if i < m.len() {
        assert(p[i] == m[i]);
    } else {
        assert(p[i] == rendezvous_plan()[i - m.len()]);
    }
}

/// A run goes through a plan task by task. A run that has failed or
/// finished stays as it is. Any other run changes only when the event
/// answers the task in turn: it fails with that task, or it goes on to the
/// next task of its context, or, from the launcher's spawn and from there
/// only, to the first task of one of the two contexts.
pub proof fn progress_is_stepwise(o: Policy, cmd: Seq<Seq<char>>, s: State, event: EventView)
    ensures
        ({
            let plan = plan_of(o, cmd, s.stage, s.pid as int);
            let t = next(o, cmd, s, event);
            &&& s.error is Some || s.pos >= plan.len() ==> t == s
            &&& t != s ==> spec_judge(plan[s.pos as int], event) != Verdict::Stay && spec_judge(
                plan[s.pos as int],
                event,
            ) != Verdict::Deviation
            &&& t.error is Some && s.error is None ==> t.stage == s.stage && t.pos == s.pos
                && spec_judge(plan[s.pos as int], event) == Verdict::Abort(t.error->0)
                && t.error->0.step == plan[s.pos as int].step
            &&& t.error is None && t.stage == s.stage ==> t.pid == s.pid && (t.pos == s.pos || (
            t.pos == s.pos + 1 && spec_judge(plan[s.pos as int], event) == Verdict::Proceed))
            &&& t.stage != s.stage ==> s.stage == Stage::Launch && s.pos == 2 && event is Returned
                && t == entered(event->Returned_0)
        }),
{
    let plan = plan_of(o, cmd, s.stage, s.pid as int);
    if s.error is None && s.pos < plan.len() {
        match s.stage {
            Stage::Launch => {},
            Stage::Setup => {
                setup_task_kinds(o, s.pid as int, s.pos as int);
            },
            Stage::Container => {
                container_task_kinds(o, cmd, s.pos as int);
            },
        }
    }
}

/// Whatever is reported to one of the two contexts, and in whatever order:
/// the context stays what it is, a task that was done is not asked for
/// again, and each event does one task at most. So the tasks of a context
/// are asked for in the order of its plan.
pub proof fn position_never_falls(
    o: Policy,
    cmd: Seq<Seq<char>>,
    s: State,
    events: Seq<EventView>,
)
    requires
        s.stage != Stage::Launch,
    ensures
        after(o, cmd, s, events).stage == s.stage,
        after(o, cmd, s, events).pid == s.pid,
        s.pos <= after(o, cmd, s, events).pos <= s.pos + events.len(),
        s.error is Some ==> after(o, cmd, s, events) == s,
    decreases events.len(),
{
    if events.len() > 0 {
        position_never_falls(o, cmd, s, events.drop_last());
        progress_is_stepwise(o, cmd, after(o, cmd, s, events.drop_last()), events.last());
    }
}

/// Events that are reported one after the other can be taken in two parts.
pub proof fn after_in_two_parts(
    o: Policy,
    cmd: Seq<Seq<char>>,
    s: State,
    earlier: Seq<EventView>,
    later: Seq<EventView>,
)
    ensures
        after(o, cmd, s, earlier + later) == after(o, cmd, after(o, cmd, s, earlier), later),
    decreases later.len(),
{
    if later.len() == 0 {
        assert(earlier + later =~= earlier);
    } else {
        assert((earlier + later).drop_last() =~= earlier + later.drop_last());
        after_in_two_parts(o, cmd, s, earlier, later.drop_last());
    }
}

/// The tasks of a context are asked for in the order of its plan: of two
/// moments of a run, the later one never stands at an earlier task. So who
/// records the calls of a run records them in the order of the plan.
pub proof fn tasks_come_in_plan_order(
    o: Policy,
    cmd: Seq<Seq<char>>,
    s: State,
    earlier: Seq<EventView>,
    later: Seq<EventView>,
)
    requires
        s.stage != Stage::Launch,
    ensures
        after(o, cmd, s, earlier + later).stage == after(o, cmd, s, earlier).stage,
        after(o, cmd, s, earlier).pos <= after(o, cmd, s, earlier + later).pos,
{
    after_in_two_parts(o, cmd, s, earlier, later);
    position_never_falls(o, cmd, s, earlier);
    position_never_falls(o, cmd, after(o, cmd, s, earlier), later);
}

/// Whatever is reported to setup, and in whatever order: where the policy
/// isolates the users, setup comes to the sending of `ready` only after six
/// successes were reported, one for each step of the identity mapping.
pub proof fn ready_follows_mapping(o: Policy, cmd: Seq<Seq<char>>, pid: i32, events: Seq<EventView>)
    requires
        o.isolate_user,
        pid != 0,
    ensures
        after(o, cmd, entered(pid as i64), events).stage == Stage::Setup,
        after(o, cmd, entered(pid as i64), events).pid == pid,
        after(o, cmd, entered(pid as i64), events).pos <= 8,
        after(o, cmd, entered(pid as i64), events).pos < 6 ==> after(
            o,
            cmd,
            entered(pid as i64),
            events,
        ).pos <= successes(events),
        after(o, cmd, entered(pid as i64), events).pos >= 6 ==> successes(events) >= 6,
    decreases events.len(),
{
    if events.len() > 0 {
        let before = after(o, cmd, entered(pid as i64), events.drop_last());
        ready_follows_mapping(o, cmd, pid, events.drop_last());
        mapping_precedes_ready(o, pid as int);
        progress_is_stepwise(o, cmd, before, events.last());
        if before.error is None && before.pos < 8 {
            setup_task_kinds(o, pid as int, before.pos as int);
        }
    }
}

} // verus!
