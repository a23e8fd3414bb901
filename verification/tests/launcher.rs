use korobok::options::RunOptions;
use korobok::run_container;
use korobok::run_container::{container_main, container_setup, judge, Directive, Session, Verdict};
use korobok::spawn::{clone_request, flags_of, NEWIPC, NEWNET, NEWNS, NEWPID, NEWUSER, NEWUTS};
use korobok::steps::{Action, ErrorClass, Event, LaunchError, Stage, Step, Task};
use korobok::token::Token;

fn options() -> RunOptions {
    RunOptions {
        uid_map: String::from("0 1000 1"),
        gid_map: String::from("0 1000 1"),
        container_mount_point: String::from("/tmp/x"),
        isolate_mnt: true,
        isolate_uts: true,
        isolate_user: true,
        isolate_net: false,
        isolate_ipc: false,
        unset_env_vars: false,
        env: Vec::new(),
        detach: false,
    }
}

fn bare() -> RunOptions {
    RunOptions {
        uid_map: String::new(),
        gid_map: String::new(),
        container_mount_point: String::new(),
        isolate_mnt: false,
        isolate_uts: false,
        isolate_user: false,
        isolate_net: false,
        isolate_ipc: false,
        unset_env_vars: false,
        env: Vec::new(),
        detach: false,
    }
}

fn command() -> Vec<String> {
    vec![String::from("/bin/true")]
}

/// What a system on which everything goes well answers to an action.
fn success(action: &Action) -> Event {
    match action {
        Action::Await { token } => Event::Line(String::from(token.line())),
        Action::PivotRoot { .. } => Event::Returned(0),
        Action::SetUid { .. } | Action::SetGid { .. } => Event::Returned(0),
        Action::Spawn { .. } => panic!("the spawn is answered by the test"),
        _ => Event::Done,
    }
}

/// Walks the session to the end of its context, answering every action with
/// success, and returns the steps that were asked for.
fn walk(session: &mut Session) -> Vec<Step> {
    let mut steps = Vec::new();
    for _ in 0..1000 {
        let event = match session.current() {
            Directive::Perform(task) => {
                steps.push(task.step);
                success(&task.action)
            }
            _ => return steps,
        };
        session.advance(&event);
    }
    panic!("the session does not end");
}

fn spawned<'a>(opts: &'a RunOptions, cmd: &'a [String], pid: i64) -> Session<'a> {
    let mut session = run_container(opts, cmd).unwrap();
    session.advance(&Event::Done);
    session.advance(&Event::Done);
    session.advance(&Event::Returned(pid));
    session
}

fn current_task(session: &Session) -> (Step, String) {
    match session.current() {
        Directive::Perform(task) => (task.step, format!("{:?}", task.action)),
        other => panic!("no task in turn: {:?}", other),
    }
}

#[test]
fn run_without_a_command_is_refused() {
    let opts = options();
    let cmd: Vec<String> = Vec::new();
    let err = run_container(&opts, &cmd).unwrap_err();
    assert_eq!(err, LaunchError { class: ErrorClass::Configuration, step: Step::Command, code: 0 });
    assert_eq!(err.message(), "You should provide a command");
}

#[test]
fn run_without_a_command_asks_for_no_spawn() {
    let opts = options();
    let cmd: Vec<String> = Vec::new();
    assert!(run_container(&opts, &cmd).is_err());
    let cmd = command();
    let session = run_container(&opts, &cmd).unwrap();
    assert_eq!(session.stage(), Stage::Launch);
    assert_eq!(session.position(), 0);
}

#[test]
fn launcher_opens_two_pipes_and_spawns() {
    let opts = options();
    let cmd = command();
    let mut session = run_container(&opts, &cmd).unwrap();
    assert_eq!(
        session.current(),
        Directive::Perform(&Task { step: Step::Pipe, action: Action::OpenPipe })
    );
    session.advance(&Event::Done);
    assert_eq!(
        session.current(),
        Directive::Perform(&Task { step: Step::Pipe, action: Action::OpenPipe })
    );
    assert_eq!(session.position(), 1);
    session.advance(&Event::Done);
    assert_eq!(
        session.current(),
        Directive::Perform(&Task { step: Step::Spawn, action: Action::Spawn { flags: 0x3402_0000 } })
    );
}

#[test]
fn pipe_failure_ends_the_run() {
    let opts = options();
    let cmd = command();
    let mut session = run_container(&opts, &cmd).unwrap();
    session.advance(&Event::Done);
    session.advance(&Event::Failed(24));
    let expected = LaunchError { class: ErrorClass::Io, step: Step::Pipe, code: 24 };
    assert_eq!(session.current(), Directive::Failed(expected));
    assert_eq!(expected.message(), "Could not create IPC pipe");
    session.advance(&Event::Done);
    assert_eq!(session.current(), Directive::Failed(expected));
}

#[test]
fn spawn_failure_is_a_syscall_failure() {
    let opts = options();
    let cmd = command();
    let mut session = run_container(&opts, &cmd).unwrap();
    session.advance(&Event::Done);
    session.advance(&Event::Done);
    session.advance(&Event::Failed(1));
    let expected = LaunchError { class: ErrorClass::Syscall, step: Step::Spawn, code: 1 };
    assert_eq!(session.current(), Directive::Failed(expected));
    assert_eq!(expected.message(), "Could not call clone3 with these options");
    assert_eq!(session.stage(), Stage::Launch);
}

#[test]
fn spawn_returns_zero_to_the_container() {
    let opts = options();
    let cmd = command();
    let session = spawned(&opts, &cmd, 0);
    assert_eq!(session.stage(), Stage::Container);
    assert_eq!(session.pid(), 0);
    assert_eq!(session.position(), 0);
}

#[test]
fn spawn_returns_the_container_to_setup() {
    let opts = options();
    let cmd = command();
    let session = spawned(&opts, &cmd, 4242);
    assert_eq!(session.stage(), Stage::Setup);
    assert_eq!(session.pid(), 4242);
    assert_eq!(session.position(), 0);
}

#[test]
fn spawn_needs_a_process_id() {
    let opts = options();
    let cmd = command();
    let mut session = run_container(&opts, &cmd).unwrap();
    session.advance(&Event::Done);
    session.advance(&Event::Done);
    session.advance(&Event::Done);
    assert_eq!(session.stage(), Stage::Launch);
    assert_eq!(session.position(), 2);
    session.advance(&Event::Returned(1 << 40));
    assert_eq!(session.stage(), Stage::Launch);
    assert_eq!(session.position(), 2);
    session.advance(&Event::Line(String::from("ready\n")));
    assert_eq!(session.position(), 2);
}

#[test]
fn flags_follow_the_policy() {
    assert_eq!(flags_of(&bare()), 0);
    let mut opts = bare();
    opts.isolate_uts = true;
    assert_eq!(flags_of(&opts), 0x0400_0000);
    let mut opts = bare();
    opts.isolate_user = true;
    assert_eq!(flags_of(&opts), 0x1000_0000);
    let mut opts = bare();
    opts.isolate_net = true;
    assert_eq!(flags_of(&opts), 0x4000_0000);
    let mut opts = bare();
    opts.isolate_ipc = true;
    assert_eq!(flags_of(&opts), 0x0800_0000);
}

#[test]
fn mount_isolation_brings_pid_isolation() {
    let mut opts = bare();
    opts.isolate_mnt = true;
    assert_eq!(flags_of(&opts), 0x0002_0000 | 0x2000_0000);
    assert_eq!(flags_of(&opts), NEWNS | NEWPID);
    assert_eq!(flags_of(&bare()) & NEWPID, 0);
}

#[test]
fn all_namespaces_together() {
    let mut opts = options();
    opts.isolate_net = true;
    opts.isolate_ipc = true;
    assert_eq!(flags_of(&opts), NEWUTS | NEWUSER | NEWNS | NEWPID | NEWNET | NEWIPC);
    assert_eq!(flags_of(&opts), 0x7c02_0000);
}

#[test]
fn clone_request_holds_the_flags_of_the_policy() {
    assert_eq!(clone_request(&bare()).as_clone_args().flags, 0);
    assert_eq!(clone_request(&options()).as_clone_args().flags, 0x3402_0000);
    let mut every = options();
    every.isolate_net = true;
    every.isolate_ipc = true;
    assert_eq!(clone_request(&every).as_clone_args().flags, 0x7c02_0000);
    for bits in 0..32u32 {
        let mut opts = bare();
        opts.isolate_uts = bits & 1 != 0;
        opts.isolate_user = bits & 2 != 0;
        opts.isolate_mnt = bits & 4 != 0;
        opts.isolate_net = bits & 8 != 0;
        opts.isolate_ipc = bits & 16 != 0;
        let mut request = clone_request(&opts);
        let args = request.as_clone_args();
        assert_eq!(args.flags, flags_of(&opts));
        assert_eq!(args.exit_signal, 0);
        assert_eq!(args.stack, 0);
        assert_eq!(args.pidfd, 0);
    }
}

#[test]
fn session_hands_out_the_request_while_the_spawn_is_in_turn() {
    let opts = options();
    let cmd = command();
    let mut session = run_container(&opts, &cmd).unwrap();
    assert!(session.spawn_request().is_none());
    session.advance(&Event::Done);
    assert!(session.spawn_request().is_none());
    session.advance(&Event::Done);
    let mut request = session.spawn_request().unwrap();
    assert_eq!(request.as_clone_args().flags, 0x3402_0000);
    assert_eq!(
        session.current(),
        Directive::Perform(&Task {
            step: Step::Spawn,
            action: Action::Spawn { flags: request.as_clone_args().flags }
        })
    );
    session.advance(&Event::Returned(77));
    assert!(session.spawn_request().is_none());
    let mut failed = run_container(&opts, &cmd).unwrap();
    failed.advance(&Event::Done);
    failed.advance(&Event::Done);
    failed.advance(&Event::Failed(1));
    assert!(failed.spawn_request().is_none());
}

#[test]
fn clone_request_sets_each_flag_alone() {
    let mut opts = bare();
    opts.isolate_uts = true;
    assert_eq!(clone_request(&opts).as_clone_args().flags, clone3::Flags::NEWUTS.bits());
    let mut opts = bare();
    opts.isolate_user = true;
    assert_eq!(clone_request(&opts).as_clone_args().flags, clone3::Flags::NEWUSER.bits());
    let mut opts = bare();
    opts.isolate_net = true;
    assert_eq!(clone_request(&opts).as_clone_args().flags, clone3::Flags::NEWNET.bits());
    let mut opts = bare();
    opts.isolate_ipc = true;
    assert_eq!(clone_request(&opts).as_clone_args().flags, clone3::Flags::NEWIPC.bits());
    let mut opts = bare();
    opts.isolate_mnt = true;
    assert_eq!(
        clone_request(&opts).as_clone_args().flags,
        (clone3::Flags::NEWNS | clone3::Flags::NEWPID).bits()
    );
}

#[test]
fn setup_maps_identities_before_ready() {
    let opts = options();
    let plan = container_setup(&opts, 4242);
    let expected = vec![
        Task {
            step: Step::OpenUidMap,
            action: Action::CreateFile { path: String::from("/proc/4242/uid_map") },
        },
        Task { step: Step::WriteUidMap, action: Action::Write { data: String::from("0 1000 1") } },
        Task {
            step: Step::OpenSetgroups,
            action: Action::CreateFile { path: String::from("/proc/4242/setgroups") },
        },
        Task { step: Step::WriteSetgroups, action: Action::Write { data: String::from("deny") } },
        Task {
            step: Step::OpenGidMap,
            action: Action::CreateFile { path: String::from("/proc/4242/gid_map") },
        },
        Task { step: Step::WriteGidMap, action: Action::Write { data: String::from("0 1000 1") } },
        Task { step: Step::SendReady, action: Action::Send { token: Token::Ready } },
        Task { step: Step::AwaitFinish, action: Action::Await { token: Token::Finish } },
    ];
    assert_eq!(plan, expected);
}

#[test]
fn setup_writes_the_maps_of_the_policy_byte_for_byte() {
    let mut opts = options();
    opts.uid_map = String::from("0 100000 65536");
    opts.gid_map = String::from("5 7 1");
    let plan = container_setup(&opts, 1);
    assert_eq!(plan[1].action, Action::Write { data: String::from("0 100000 65536") });
    assert_eq!(plan[3].action, Action::Write { data: String::from("deny") });
    assert_eq!(plan[5].action, Action::Write { data: String::from("5 7 1") });
    assert_eq!(plan[0].action, Action::CreateFile { path: String::from("/proc/1/uid_map") });
    assert_eq!(plan[2].action, Action::CreateFile { path: String::from("/proc/1/setgroups") });
    assert_eq!(plan[4].action, Action::CreateFile { path: String::from("/proc/1/gid_map") });
}

#[test]
fn setup_without_user_isolation_only_keeps_the_rendezvous() {
    let mut opts = options();
    opts.isolate_user = false;
    let plan = container_setup(&opts, 7);
    assert_eq!(
        plan,
        vec![
            Task { step: Step::SendReady, action: Action::Send { token: Token::Ready } },
            Task { step: Step::AwaitFinish, action: Action::Await { token: Token::Finish } },
        ]
    );
}

#[test]
fn setup_session_walks_its_plan_in_order() {
    let opts = options();
    let cmd = command();
    let mut session = spawned(&opts, &cmd, 4242);
    let steps = walk(&mut session);
    assert_eq!(
        steps,
        vec![
            Step::OpenUidMap,
            Step::WriteUidMap,
            Step::OpenSetgroups,
            Step::WriteSetgroups,
            Step::OpenGidMap,
            Step::WriteGidMap,
            Step::SendReady,
            Step::AwaitFinish,
        ]
    );
    assert_eq!(session.current(), Directive::Finished);
    assert_eq!(session.position(), 8);
}

#[test]
fn setup_does_not_say_ready_while_the_mapping_is_unanswered() {
    let opts = options();
    let cmd = command();
    let mut session = spawned(&opts, &cmd, 4242);
    for _ in 0..5 {
        session.advance(&Event::Done);
    }
    assert_eq!(current_task(&session).0, Step::WriteGidMap);
    session.advance(&Event::Exists);
    session.advance(&Event::Returned(0));
    session.advance(&Event::Line(String::from("finish\n")));
    assert_eq!(current_task(&session).0, Step::WriteGidMap);
    session.advance(&Event::Done);
    assert_eq!(current_task(&session).0, Step::SendReady);
}

#[test]
fn setup_failures_carry_stage_and_step() {
    let opts = options();
    let cmd = command();
    let texts = [
        "[setup] Could not open uid_map",
        "[setup] Could not write to uid_map",
        "[setup] Could not open setgroups",
        "[setup] Could not write to setgroups",
        "[setup] Could not open gid_map",
        "[setup] Could not write to gid_map",
        "[setup] Could not send ready message to container",
        "[setup] Could not read message from container",
    ];
    for (at, text) in texts.iter().enumerate() {
        let mut session = spawned(&opts, &cmd, 4242);
        for _ in 0..at {
            session.advance(&Event::Done);
        }
        let step = current_task(&session).0;
        session.advance(&Event::Failed(13));
        match session.current() {
            Directive::Failed(e) => {
                assert_eq!(e, LaunchError { class: ErrorClass::Io, step, code: 13 });
                assert_eq!(e.message(), *text);
                assert_eq!(e.step.stage(), Stage::Setup);
            }
            other => panic!("no failure: {:?}", other),
        }
        assert_eq!(session.position(), at);
    }
}

#[test]
fn setup_waits_for_finish_and_passes_over_other_lines() {
    let opts = options();
    let cmd = command();
    let mut session = spawned(&opts, &cmd, 4242);
    for _ in 0..7 {
        session.advance(&Event::Done);
    }
    assert_eq!(current_task(&session).0, Step::AwaitFinish);
    for line in ["", "ready\n", "hello\n", "finish now\n", "FINISH\n"] {
        session.advance(&Event::Line(String::from(line)));
        assert_eq!(current_task(&session).0, Step::AwaitFinish);
    }
    session.advance(&Event::Done);
    assert_eq!(current_task(&session).0, Step::AwaitFinish);
    session.advance(&Event::Line(String::from("finish\n")));
    assert_eq!(session.current(), Directive::Finished);
}

#[test]
fn container_prepares_the_mounts_in_their_order() {
    let opts = options();
    let cmd = command();
    let mut session = spawned(&opts, &cmd, 0);
    let steps = walk(&mut session);
    let mounts: Vec<Step> = steps
        .iter()
        .copied()
        .filter(|s| {
            matches!(s, Step::BindRoot | Step::PivotRoot | Step::MountProc | Step::DetachPutOld)
        })
        .collect();
    assert_eq!(
        mounts,
        vec![Step::BindRoot, Step::PivotRoot, Step::MountProc, Step::DetachPutOld]
    );
    assert_ne!(
        mounts,
        vec![Step::BindRoot, Step::MountProc, Step::PivotRoot, Step::DetachPutOld]
    );
    assert_eq!(
        steps,
        vec![
            Step::AwaitReady,
            Step::BindRoot,
            Step::EnterMountPoint,
            Step::MakePutOld,
            Step::PivotRoot,
            Step::EnterRoot,
            Step::MakeProc,
            Step::MountProc,
            Step::DetachPutOld,
            Step::SetUid,
            Step::SetGid,
            Step::SendFinish,
        ]
    );
}

#[test]
fn container_plan_names_every_call() {
    let mut opts = options();
    opts.isolate_net = true;
    opts.detach = true;
    opts.unset_env_vars = true;
    opts.env = vec![(String::from("A"), String::from("1")), (String::from("B"), String::from("2"))];
    let cmd = vec![String::from("/bin/sh"), String::from("-c"), String::from("true")];
    let plan = container_main(&opts, &cmd);
    let x = || String::from("/tmp/x");
    let expected = vec![
        Task { step: Step::AwaitReady, action: Action::Await { token: Token::Ready } },
        Task {
            step: Step::BindRoot,
            action: Action::Mount {
                source: x(),
                target: x(),
                fstype: String::from("ext4"),
                bind: true,
            },
        },
        Task { step: Step::EnterMountPoint, action: Action::ChangeDir { path: x() } },
        Task {
            step: Step::MakePutOld,
            action: Action::MakeDir { path: String::from("put_old"), mode: 0o777 },
        },
        Task {
            step: Step::PivotRoot,
            action: Action::PivotRoot {
                new_root: String::from("."),
                put_old: String::from("put_old"),
            },
        },
        Task { step: Step::EnterRoot, action: Action::ChangeDir { path: String::from("/") } },
        Task {
            step: Step::MakeProc,
            action: Action::MakeDir { path: String::from("/proc"), mode: 0o555 },
        },
        Task {
            step: Step::MountProc,
            action: Action::Mount {
                source: String::from("proc"),
                target: String::from("/proc"),
                fstype: String::from("proc"),
                bind: false,
            },
        },
        Task {
            step: Step::DetachPutOld,
            action: Action::Unmount { target: String::from("put_old"), detach: true },
        },
        Task { step: Step::ClearEnv, action: Action::ClearEnv },
        Task {
            step: Step::SetEnv,
            action: Action::SetEnv { name: String::from("A"), value: String::from("1") },
        },
        Task {
            step: Step::SetEnv,
            action: Action::SetEnv { name: String::from("B"), value: String::from("2") },
        },
        Task { step: Step::SetUid, action: Action::SetUid { uid: 0 } },
        Task { step: Step::SetGid, action: Action::SetGid { gid: 0 } },
        Task { step: Step::Exec, action: Action::Exec { command: cmd.clone(), piped: true } },
        Task { step: Step::SendFinish, action: Action::Send { token: Token::Finish } },
    ];
    assert_eq!(plan, expected);
}

#[test]
fn container_without_mount_isolation_does_not_touch_mounts_or_environment() {
    let mut opts = options();
    opts.isolate_mnt = false;
    opts.unset_env_vars = true;
    opts.env = vec![(String::from("A"), String::from("1"))];
    let cmd = command();
    let mut session = spawned(&opts, &cmd, 0);
    assert_eq!(
        walk(&mut session),
        vec![Step::AwaitReady, Step::SetUid, Step::SetGid, Step::SendFinish]
    );
}

#[test]
fn end_to_end_without_network_isolation_never_runs_the_command() {
    let opts = options();
    let cmd = command();
    let mut session = spawned(&opts, &cmd, 0);
    for _ in 0..1000 {
        let event = match session.current() {
            Directive::Perform(task) => {
                assert!(!matches!(task.action, Action::Exec { .. }));
                assert_ne!(task.step, Step::Exec);
                success(&task.action)
            }
            _ => break,
        };
        session.advance(&event);
    }
    assert_eq!(session.current(), Directive::Finished);
    assert_eq!(session.stage(), Stage::Container);
    let mut setup = spawned(&opts, &cmd, 31337);
    let steps = walk(&mut setup);
    assert!(!steps.contains(&Step::Exec));
    assert_eq!(setup.current(), Directive::Finished);
}

#[test]
fn command_runs_with_network_isolation() {
    let mut opts = options();
    opts.isolate_net = true;
    let cmd = command();
    let plan = container_main(&opts, &cmd);
    let at = plan.len() - 2;
    assert_eq!(
        plan[at],
        Task { step: Step::Exec, action: Action::Exec { command: command(), piped: false } }
    );
    assert_eq!(plan.iter().filter(|t| t.step == Step::Exec).count(), 1);
    opts.detach = true;
    let plan = container_main(&opts, &cmd);
    assert_eq!(
        plan[at],
        Task { step: Step::Exec, action: Action::Exec { command: command(), piped: true } }
    );
}

#[test]
fn container_waits_for_ready() {
    let opts = options();
    let cmd = command();
    let mut session = spawned(&opts, &cmd, 0);
    assert_eq!(current_task(&session).0, Step::AwaitReady);
    session.advance(&Event::Line(String::from("finish\n")));
    session.advance(&Event::Line(String::from("\n")));
    session.advance(&Event::Done);
    assert_eq!(session.position(), 0);
    session.advance(&Event::Line(String::from(" ready\n")));
    assert_eq!(session.position(), 1);
    assert_eq!(current_task(&session).0, Step::BindRoot);
}

#[test]
fn container_failures_carry_stage_and_step() {
    let mut opts = options();
    opts.isolate_net = true;
    opts.unset_env_vars = true;
    opts.env = vec![(String::from("A"), String::from("1"))];
    let cmd = command();
    let cases = [
        (Step::AwaitReady, ErrorClass::Io, "[container] Could not read message from setup"),
        (Step::BindRoot, ErrorClass::Syscall, "[container] Could not mount container root fs"),
        (
            Step::EnterMountPoint,
            ErrorClass::Io,
            "[container] Could not change directory to mount point",
        ),
        (Step::MakePutOld, ErrorClass::Io, "[container] Could not create `put_old`"),
        (Step::PivotRoot, ErrorClass::Syscall, "[container] Could not pivot root"),
        (
            Step::EnterRoot,
            ErrorClass::Io,
            "[container] Could not change directory to container root",
        ),
        (Step::MakeProc, ErrorClass::Io, "[container] Could not create /proc"),
        (Step::MountProc, ErrorClass::Syscall, "[container] Could not mount /proc"),
        (Step::DetachPutOld, ErrorClass::Syscall, "[container] Could not unmount `put_old`"),
        (Step::ClearEnv, ErrorClass::Configuration, "[container] Could not clear the environment"),
        (
            Step::SetEnv,
            ErrorClass::Configuration,
            "[container] Could not set an environment variable",
        ),
        (Step::Exec, ErrorClass::Io, "[container] Could not run entry command"),
        (Step::SendFinish, ErrorClass::Io, "[container] Could not send finish message to setup"),
    ];
    for (step, class, text) in cases {
        let mut session = spawned(&opts, &cmd, 0);
        for _ in 0..100 {
            let event = match session.current() {
                Directive::Perform(task) if task.step == step => Event::Failed(5),
                Directive::Perform(task) => success(&task.action),
                _ => break,
            };
            session.advance(&event);
        }
        match session.current() {
            Directive::Failed(e) => {
                assert_eq!(e, LaunchError { class, step, code: 5 });
                assert_eq!(e.message(), text);
                assert_eq!(e.step.stage(), Stage::Container);
            }
            other => panic!("no failure at {:?}: {:?}", step, other),
        }
    }
}

#[test]
fn pivot_root_fails_on_any_code_but_zero() {
    let opts = options();
    let cmd = command();
    let mut session = spawned(&opts, &cmd, 0);
    session.advance(&Event::Line(String::from("ready\n")));
    session.advance(&Event::Done);
    session.advance(&Event::Done);
    session.advance(&Event::Done);
    assert_eq!(current_task(&session).0, Step::PivotRoot);
    session.advance(&Event::Done);
    assert_eq!(current_task(&session).0, Step::PivotRoot);
    session.advance(&Event::Returned(-1));
    assert_eq!(
        session.current(),
        Directive::Failed(LaunchError {
            class: ErrorClass::Syscall,
            step: Step::PivotRoot,
            code: -1
        })
    );
}

#[test]
fn existing_directories_are_tolerated() {
    let opts = options();
    let cmd = command();
    let mut session = spawned(&opts, &cmd, 0);
    for _ in 0..100 {
        let event = match session.current() {
            Directive::Perform(task) => match task.action {
                Action::MakeDir { .. } => Event::Exists,
                _ => success(&task.action),
            },
            _ => break,
        };
        session.advance(&event);
    }
    assert_eq!(session.current(), Directive::Finished);
}

#[test]
fn drop_to_root_is_not_looked_at() {
    let mut opts = options();
    opts.isolate_mnt = false;
    let cmd = command();
    let mut session = spawned(&opts, &cmd, 0);
    session.advance(&Event::Line(String::from("ready\n")));
    assert_eq!(
        session.current(),
        Directive::Perform(&Task { step: Step::SetUid, action: Action::SetUid { uid: 0 } })
    );
    session.advance(&Event::Failed(1));
    assert_eq!(
        session.current(),
        Directive::Perform(&Task { step: Step::SetGid, action: Action::SetGid { gid: 0 } })
    );
    session.advance(&Event::Returned(-1));
    assert_eq!(current_task(&session).0, Step::SendFinish);
}

#[test]
fn a_finished_session_stays_finished() {
    let mut opts = options();
    opts.isolate_mnt = false;
    let cmd = command();
    let mut session = spawned(&opts, &cmd, 0);
    walk(&mut session);
    let at = session.position();
    for event in [Event::Done, Event::Failed(1), Event::Returned(9), Event::Exists] {
        session.advance(&event);
        assert_eq!(session.current(), Directive::Finished);
        assert_eq!(session.position(), at);
    }
}

#[test]
fn verdicts() {
    let mkdir =
        Task { step: Step::MakeProc, action: Action::MakeDir { path: String::from("/proc"), mode: 0o555 } };
    assert_eq!(judge(&mkdir, &Event::Done), Verdict::Proceed);
    assert_eq!(judge(&mkdir, &Event::Exists), Verdict::Proceed);
    assert_eq!(judge(&mkdir, &Event::Returned(0)), Verdict::Stay);
    assert_eq!(
        judge(&mkdir, &Event::Failed(30)),
        Verdict::Abort(LaunchError { class: ErrorClass::Io, step: Step::MakeProc, code: 30 })
    );
    let write = Task { step: Step::WriteUidMap, action: Action::Write { data: String::from("x") } };
    assert_eq!(judge(&write, &Event::Exists), Verdict::Stay);
    assert_eq!(judge(&write, &Event::Done), Verdict::Proceed);
    let wait = Task { step: Step::AwaitReady, action: Action::Await { token: Token::Ready } };
    assert_eq!(judge(&wait, &Event::Line(String::from("ready"))), Verdict::Proceed);
    assert_eq!(judge(&wait, &Event::Line(String::from("finish"))), Verdict::Deviation);
    assert_eq!(judge(&wait, &Event::Line(String::from("ready?"))), Verdict::Deviation);
    assert_eq!(judge(&wait, &Event::Line(String::new())), Verdict::Deviation);
    assert_eq!(judge(&wait, &Event::Done), Verdict::Stay);
    assert_eq!(judge(&wait, &Event::Returned(0)), Verdict::Stay);
    assert_eq!(
        judge(&wait, &Event::Failed(32)),
        Verdict::Abort(LaunchError { class: ErrorClass::Io, step: Step::AwaitReady, code: 32 })
    );
}

#[test]
fn launch_error_is_built_from_its_step() {
    assert_eq!(
        LaunchError::new(Step::MountProc, 16),
        LaunchError { class: ErrorClass::Syscall, step: Step::MountProc, code: 16 }
    );
    assert_eq!(Step::Command.stage(), Stage::Launch);
    assert_eq!(Step::Command.class(), ErrorClass::Configuration);
    assert_eq!(Step::SendReady.stage(), Stage::Setup);
    assert_eq!(Step::SetUid.class(), ErrorClass::Syscall);
    assert_eq!(Stage::Launch.tag(), "");
    assert_eq!(Stage::Setup.tag(), "[setup] ");
    assert_eq!(Stage::Container.tag(), "[container] ");
    assert_eq!(Step::SetUid.text(), "Could not set the user id");
    assert_eq!(Step::SetGid.text(), "Could not set the group id");
}
