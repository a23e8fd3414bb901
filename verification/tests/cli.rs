use korobok::container_dir::ContainerDir;
use korobok::korobok_cli::parser::{
    Command, EnvPolicy, FsPolicy, GlobalOptions, KorobokOptions, NetPolicy, RunData, UsrPolicy,
    UtsPolicy,
};
use korobok::korobok_cli::runner::{
    parse_env, parse_env_arg, report, root_mapping_string, run, run_in_dir, RunError,
};
use korobok::options::RunOptions;
use korobok::syscall::pivot_root;

fn request() -> RunData {
    RunData {
        env: EnvPolicy::Clear,
        net: NetPolicy::Sandbox,
        uts: UtsPolicy::Sandbox,
        fs: FsPolicy::Copy,
        uid_map: None,
        gid_map: None,
        usr: UsrPolicy::Root,
        image: Some(String::from("images/alpine")),
        cmd: vec![String::from("sh")],
        environment: Vec::new(),
        no_detach: false,
    }
}

fn nowhere() -> GlobalOptions {
    GlobalOptions { run_dir: None }
}

fn some(name: &str, value: &str) -> Option<(String, String)> {
    Some((String::from(name), String::from(value)))
}

#[test]
fn env_arg_is_split_at_its_colon() {
    assert_eq!(parse_env_arg("KEY1:VALUE1"), some("KEY1", "VALUE1"));
    assert_eq!(parse_env_arg("A:1"), some("A", "1"));
    assert_eq!(parse_env_arg(":"), some("", ""));
    assert_eq!(parse_env_arg("A:"), some("A", ""));
    assert_eq!(parse_env_arg(":b"), some("", "b"));
    assert_eq!(parse_env_arg("PATH:/usr/bin /bin"), some("PATH", "/usr/bin /bin"));
    assert_eq!(parse_env_arg("\u{e9}t\u{e9}:\u{3000}"), some("\u{e9}t\u{e9}", "\u{3000}"));
}

#[test]
fn env_arg_needs_exactly_one_colon() {
    assert_eq!(parse_env_arg(""), None);
    assert_eq!(parse_env_arg("A"), None);
    assert_eq!(parse_env_arg("A=1"), None);
    assert_eq!(parse_env_arg("A:B:C"), None);
    assert_eq!(parse_env_arg("::"), None);
    assert_eq!(parse_env_arg("PATH:/usr/bin:/bin"), None);
}

#[test]
fn env_args_are_read_in_order() {
    let args = vec![String::from("A:1"), String::from("B:2"), String::from("A:3")];
    assert_eq!(
        parse_env(&args),
        Ok(vec![
            (String::from("A"), String::from("1")),
            (String::from("B"), String::from("2")),
            (String::from("A"), String::from("3")),
        ])
    );
    assert_eq!(parse_env(&Vec::new()), Ok(Vec::new()));
}

#[test]
fn first_invalid_env_arg_is_named() {
    let args =
        vec![String::from("A:1"), String::from("B"), String::from("C:3"), String::from("D:4:5")];
    assert_eq!(parse_env(&args), Err(1));
    let mut rd = request();
    rd.environment = args;
    rd.image = None;
    assert_eq!(run(rd, nowhere(), 1000, 1000).unwrap_err(), RunError::InvalidEnvArg(1));
}

#[test]
fn root_mapping_maps_the_caller_to_root() {
    assert_eq!(root_mapping_string(1000), "0 1000 1");
    assert_eq!(root_mapping_string(0), "0 0 1");
    assert_eq!(root_mapping_string(u32::MAX), "0 4294967295 1");
}

#[test]
fn default_request_isolates_everything_and_stages_a_copy() {
    let inv = run(request(), nowhere(), 1000, 100).unwrap();
    assert_eq!(inv.opts.uid_map, "0 1000 1");
    assert_eq!(inv.opts.gid_map, "0 100 1");
    assert_eq!(inv.opts.container_mount_point, "");
    assert!(inv.opts.isolate_mnt);
    assert!(inv.opts.isolate_uts);
    assert!(inv.opts.isolate_user);
    assert!(inv.opts.isolate_net);
    assert!(inv.opts.isolate_ipc);
    assert!(inv.opts.unset_env_vars);
    assert!(inv.opts.env.is_empty());
    assert!(inv.opts.detach);
    assert_eq!(inv.cmd, vec![String::from("sh")]);
    let staging = inv.staging.unwrap();
    assert_eq!(staging.root_dir, "/tmp/korobok/");
    assert_eq!(staging.image, "images/alpine");
}

#[test]
fn named_run_dir_is_used_for_the_copy() {
    let g = GlobalOptions { run_dir: Some(String::from("/var/lib/boxes")) };
    let inv = run(request(), g, 1, 1).unwrap();
    let staging = inv.staging.unwrap();
    assert_eq!(staging.root_dir, "/var/lib/boxes");
    assert_eq!(staging.image, "images/alpine");
}

#[test]
fn raw_maps_go_before_the_user_policy() {
    let mut rd = request();
    rd.uid_map = Some(String::from("0 100000 65536"));
    let inv = run(rd, nowhere(), 1000, 1000).unwrap();
    assert_eq!(inv.opts.uid_map, "0 100000 65536");
    assert_eq!(inv.opts.gid_map, "0 1000 1");
    let mut rd = request();
    rd.gid_map = Some(String::from("anything"));
    let inv = run(rd, nowhere(), 1000, 1000).unwrap();
    assert_eq!(inv.opts.uid_map, "0 1000 1");
    assert_eq!(inv.opts.gid_map, "anything");
}

#[test]
fn host_policies_switch_isolation_off() {
    let mut rd = request();
    rd.env = EnvPolicy::Preserve;
    rd.uts = UtsPolicy::Host;
    rd.net = NetPolicy::Host;
    rd.no_detach = true;
    rd.environment = vec![String::from("KEY1:VALUE1"), String::from("KEY2:VALUE2")];
    let inv = run(rd, nowhere(), 0, 0).unwrap();
    assert!(!inv.opts.unset_env_vars);
    assert!(!inv.opts.isolate_uts);
    assert!(!inv.opts.isolate_net);
    assert!(inv.opts.isolate_mnt);
    assert!(inv.opts.isolate_user);
    assert!(inv.opts.isolate_ipc);
    assert!(!inv.opts.detach);
    assert_eq!(
        inv.opts.env,
        vec![
            (String::from("KEY1"), String::from("VALUE1")),
            (String::from("KEY2"), String::from("VALUE2")),
        ]
    );
}

#[test]
fn host_file_system_needs_no_image() {
    let mut rd = request();
    rd.fs = FsPolicy::Host;
    rd.image = None;
    let inv = run(rd, nowhere(), 1000, 1000).unwrap();
    assert!(!inv.opts.isolate_mnt);
    assert_eq!(inv.opts.container_mount_point, "");
    assert!(inv.staging.is_none());
    let mut rd = request();
    rd.fs = FsPolicy::Host;
    let inv = run(rd, nowhere(), 1000, 1000).unwrap();
    assert!(!inv.opts.isolate_mnt);
    assert!(inv.staging.is_none());
}

#[test]
fn given_directory_is_the_mount_point() {
    let mut rd = request();
    rd.fs = FsPolicy::NoCopy;
    let inv = run(rd, GlobalOptions { run_dir: Some(String::from("/x")) }, 1000, 1000).unwrap();
    assert!(inv.opts.isolate_mnt);
    assert_eq!(inv.opts.container_mount_point, "images/alpine");
    assert!(inv.staging.is_none());
}

#[test]
fn missing_image_is_an_error() {
    let mut rd = request();
    rd.fs = FsPolicy::NoCopy;
    rd.image = None;
    let err = run(rd, nowhere(), 1000, 1000).unwrap_err();
    assert_eq!(err, RunError::MissingImage);
    assert_eq!(err.message(), "You can't use --fs=run without passing the image argument!");
    let mut rd = request();
    rd.image = None;
    let err = run(rd, nowhere(), 1000, 1000).unwrap_err();
    assert_eq!(err, RunError::MissingImageToCopy);
    assert_eq!(
        err.message(),
        "You can't use --fs=run-copy (default value) without passing the image argument!"
    );
}

#[test]
fn empty_command_is_left_to_the_launcher() {
    let mut rd = request();
    rd.cmd = Vec::new();
    let inv = run(rd, nowhere(), 1000, 1000).unwrap();
    assert!(inv.cmd.is_empty());
    assert!(korobok::run_container(&inv.opts, &inv.cmd).is_err());
}

#[test]
fn staged_root_is_mounted_from_the_copy() {
    let dir = ContainerDir::new("/tmp/korobok/", String::from("beef"));
    let mut opts = run(request(), nowhere(), 1000, 1000).unwrap().opts;
    assert_eq!(run_in_dir(&dir, "images/alpine", &mut opts), Ok(()));
    assert_eq!(opts.container_mount_point, "/tmp/korobok/beef/alpine");
    assert_eq!(run_in_dir(&dir, "/srv/rootfs/", &mut opts), Ok(()));
    assert_eq!(opts.container_mount_point, "/tmp/korobok/beef/rootfs");
    assert_eq!(opts.uid_map, "0 1000 1");
    assert!(opts.isolate_mnt);
}

#[test]
fn image_without_a_name_cannot_be_staged() {
    let dir = ContainerDir::new("/tmp/korobok/", String::from("beef"));
    let mut opts = run(request(), nowhere(), 1000, 1000).unwrap().opts;
    opts.container_mount_point = String::from("before");
    for image in ["/", "..", "images/..", ""] {
        assert_eq!(run_in_dir(&dir, image, &mut opts), Err(RunError::NoImageName));
        assert_eq!(opts.container_mount_point, "before");
    }
    assert_eq!(RunError::NoImageName.message(), "Could not get image path");
}

#[test]
fn closed_directory_cannot_stage() {
    let mut dir = ContainerDir::new("/tmp/korobok/", String::from("beef"));
    dir.close().unwrap();
    let mut opts = run(request(), nowhere(), 1000, 1000).unwrap().opts;
    assert_eq!(run_in_dir(&dir, "images/alpine", &mut opts), Err(RunError::ClosedDirectory));
    assert_eq!(opts.container_mount_point, "");
    assert_eq!(run_in_dir(&dir, "..", &mut opts), Err(RunError::NoImageName));
}

fn detached(detach: bool) -> RunOptions {
    let mut rd = request();
    rd.no_detach = !detach;
    run(rd, nowhere(), 1000, 1000).unwrap().opts
}

#[test]
fn identifier_is_printed_only_with_the_callers_streams() {
    assert_eq!(report(&detached(false), Some(String::from("beef"))), "beef");
    assert_eq!(report(&detached(false), None), "");
    assert_eq!(report(&detached(true), Some(String::from("beef"))), "");
    assert_eq!(report(&detached(true), None), "");
}

#[test]
fn command_line_holds_a_run() {
    let all = KorobokOptions { global_opts: nowhere(), command: Command::Run(request()) };
    match all.command {
        Command::Run(rd) => {
            assert_eq!(rd.fs, FsPolicy::Copy);
            assert_eq!(rd.usr, UsrPolicy::Root);
            assert!(rd.env > EnvPolicy::Preserve);
            assert!(NetPolicy::Host < NetPolicy::Sandbox);
            assert!(UtsPolicy::Host < UtsPolicy::Sandbox);
            assert!(FsPolicy::Copy < FsPolicy::NoCopy && FsPolicy::NoCopy < FsPolicy::Host);
        }
    }
    assert!(all.global_opts.run_dir.is_none());
}

#[test]
fn pivot_root_succeeds_on_zero() {
    assert_eq!(pivot_root(0).unwrap(), 0);
}

#[test]
fn pivot_root_fails_with_the_code_it_was_given() {
    for code in [-1i64, 1, 22, i64::MIN, i64::MAX] {
        let err = pivot_root(code).unwrap_err();
        assert_eq!(err.code(), code);
        assert_eq!(err.message(), format!("Syscall error: code {}", code));
        assert_eq!(err.description(), "Syscall error!");
    }
}
