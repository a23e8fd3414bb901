//! From what the command line says to what is run: the policy, the
//! directory in which the container's root is staged, and what is printed in
//! the end.

use crate::container_dir::ContainerDir;
use crate::korobok_cli::parser::{
    EnvPolicy, FsPolicy, GlobalOptions, NetPolicy, RunData, UsrPolicy, UtsPolicy,
};
use crate::options::{is_mapping, mapping_of, pairs_view, words_view, Policy, RunOptions};
use crate::paths::{file_name, join, path_file_name, path_join};
use crate::text::{chars_of, decimal_digits, push_decimal};
use vstd::prelude::*;
use vstd::string::{StrSliceExecFns, StringExecFns};

verus! {

/// Whether `arg` has its one colon at `i`.
pub open spec fn splits_at(arg: Seq<char>, i: int) -> bool {
    &&& 0 <= i < arg.len()
    &&& arg[i] == ':'
    &&& forall|j: int| 0 <= j < arg.len() && j != i ==> arg[j] != ':'
}

/// Whether `arg` names a variable and its value: whether it holds exactly
/// one colon.
pub open spec fn is_env_arg(arg: Seq<char>) -> bool {
    exists|i: int| splits_at(arg, i)
}

/// Where the colon of `arg` is.
pub open spec fn split_point(arg: Seq<char>) -> int {
    choose|i: int| splits_at(arg, i)
}

/// The name and the value that `arg` holds: what stands before its colon,
/// and what stands behind it.
pub open spec fn env_pair(arg: Seq<char>) -> (Seq<char>, Seq<char>) {
    (arg.take(split_point(arg)), arg.skip(split_point(arg) + 1))
}

/// Whether every argument names a variable and its value.
pub open spec fn all_env_args(args: Seq<String>) -> bool {
    forall|i: int| 0 <= i < args.len() ==> is_env_arg(#[trigger] args[i]@)
}

/// The names and values that the arguments hold.
pub open spec fn env_pairs(args: Seq<String>) -> Seq<(Seq<char>, Seq<char>)> {
    args.map_values(|a: String| env_pair(a@))
}

/// The mapping that makes the id `id` of the host the root of the
/// container.
pub open spec fn root_mapping(id: u32) -> Seq<char> {
    "0 "@ + decimal_digits(id as nat) + " 1"@
}

/// Where the container's root is staged unless the caller names a place.
pub open spec fn default_run_dir() -> Seq<char> {
    "/tmp/korobok/"@
}

/// Why a request cannot be run.
#[derive(Clone, Copy, Debug, PartialEq, Eq, Structural)]
pub enum RunError {
    /// The argument at this place, counted from zero, is the first that is
    /// not of the form `NAME:VALUE`.
    InvalidEnvArg(usize),
    /// The container is to run in a given directory, and none was given.
    MissingImage,
    /// The container's root is to be copied, and none was given.
    MissingImageToCopy,
    /// The path of the image has no last component.
    NoImageName,
    /// The directory in which the root was to be staged is closed.
    ClosedDirectory,
}

impl RunError {
    /// What the error says.
    pub open spec fn spec_message(self) -> Seq<char> {
        match self {
            RunError::InvalidEnvArg(_) => "Invalid env arg"@,
            RunError::MissingImage => "You can't use --fs=run without passing the image argument!"@,
            RunError::MissingImageToCopy => "You can't use --fs=run-copy (default value) without passing the image argument!"@,
            RunError::NoImageName => "Could not get image path"@,
            RunError::ClosedDirectory => "Could not create container mount point path"@,
        }
    }

    /// What the error says.
    pub fn message(&self) -> (s: &'static str)
        ensures
            s@ == self.spec_message(),
    {
        match self {
            RunError::InvalidEnvArg(_) => "Invalid env arg",
            RunError::MissingImage => "You can't use --fs=run without passing the image argument!",
            RunError::MissingImageToCopy => "You can't use --fs=run-copy (default value) without passing the image argument!",
            RunError::NoImageName => "Could not get image path",
            RunError::ClosedDirectory => "Could not create container mount point path",
        }
    }
}

/// Reads the name and the value out of an argument of the form
/// `NAME:VALUE`. An argument with no colon, or with more than one, holds
/// neither.
pub fn parse_env_arg(arg: &str) -> (r: Option<(String, String)>)
    ensures
        r is Some <==> is_env_arg(arg@),
        r matches Some(pair) ==> (pair.0@, pair.1@) == env_pair(arg@),
{
    let chars = chars_of(arg);
    let n = chars.len();
    let mut i: usize = 0;
    while i < n && chars[i] != ':'
        invariant
            i <= n,
            n == chars.len(),
            forall|k: int| 0 <= k < i ==> chars@[k] != ':',
        decreases n - i,
    {
        i += 1;
    }
    if i == n {
        assert forall|k: int| !splits_at(arg@, k) by {}
        return None;
    }
    let mut j: usize = i + 1;
    while j < n && chars[j] != ':'
        invariant
            i < j <= n,
            n == chars.len(),
            forall|k: int| i < k < j ==> chars@[k] != ':',
        decreases n - j,
    {
        j += 1;
    }
    if j < n {
        assert forall|k: int| !splits_at(arg@, k) by {
            if k == i {
                assert(arg@[j as int] == ':');
            } else {
                assert(arg@[i as int] == ':');
            }
        }
        return None;
    }
    assert(splits_at(arg@, i as int));
    let name = arg.substring_char(0, i).to_owned();
    let value = arg.substring_char(i + 1, n).to_owned();
    proof {
        let p = split_point(arg@);
        assert(splits_at(arg@, p));
        assert(p == i) by {
            if p != i {
                assert(arg@[i as int] != ':');
            }
        }
        assert(arg@.take(p) =~= arg@.subrange(0, i as int));
        assert(arg@.skip(p + 1) =~= arg@.subrange(i + 1, n as int));
    }
    Some((name, value))
}

/// Reads the names and values out of the arguments. Of arguments that are
/// not all of the form `NAME:VALUE`, the place of the first that is not
/// comes back.
pub fn parse_env(args: &Vec<String>) -> (r: Result<Vec<(String, String)>, usize>)
    ensures
        r is Ok <==> all_env_args(args@),
        r is Ok ==> pairs_view(r->Ok_0@) == env_pairs(args@),
        r is Err ==> r->Err_0 < args.len() && !is_env_arg(args@[r->Err_0 as int]@) && forall|
            j: int,
        | 0 <= j < r->Err_0 ==> is_env_arg(#[trigger] args@[j]@),
{
    let mut pairs: Vec<(String, String)> = Vec::new();
    let mut i: usize = 0;
    while i < args.len()
        invariant
            i <= args.len(),
            forall|j: int| 0 <= j < i ==> is_env_arg(#[trigger] args@[j]@),
            pairs_view(pairs@) == env_pairs(args@.take(i as int)),
        decreases args.len() - i,
    {
        match parse_env_arg(args[i].as_str()) {
            Some(pair) => {
                let ghost before = pairs@;
                pairs.push(pair);
                proof {
                    assert(args@.take(i + 1) =~= args@.take(i as int).push(args@[i as int]));
                    assert(pairs_view(pairs@) =~= pairs_view(before).push((pair.0@, pair.1@)));
                    assert(env_pairs(args@.take(i + 1)) =~= env_pairs(args@.take(i as int)).push(
                        env_pair(args@[i as int]@),
                    ));
                }
            },
            None => {
                return Err(i);
            },
        }
        i += 1;
    }
    assert(args@.take(i as int) =~= args@);
    Ok(pairs)
}

/// The text of the mapping that makes the id `id` of the host the root of
/// the container.
pub fn root_mapping_string(id: u32) -> (s: String)
    ensures
        s@ == root_mapping(id),
{
    let mut s = String::from_str("0 ");
    push_decimal(&mut s, id as u64);
    s.append(" 1");
    s
}

/// The policy that a request stands for, before its file system is looked
/// at: everything is isolated but what the request leaves to the host, the
/// caller is root in the container unless the request brings mappings of
/// its own, and the entry command's streams are piped unless the request
/// keeps them.
pub open spec fn base_policy(rd: RunData, euid: u32, egid: u32) -> Policy {
    Policy {
        uid_map: match rd.uid_map {
            Some(m) => m@,
            None => root_mapping(euid),
        },
        gid_map: match rd.gid_map {
            Some(m) => m@,
            None => root_mapping(egid),
        },
        container_mount_point: Seq::empty(),
        isolate_mnt: true,
        isolate_uts: rd.uts != UtsPolicy::Host,
        isolate_user: true,
        isolate_net: rd.net != NetPolicy::Host,
        isolate_ipc: true,
        unset_env_vars: rd.env != EnvPolicy::Preserve,
        env: env_pairs(rd.environment@),
        detach: !rd.no_detach,
    }
}

/// The mapping that makes an id of the host the root of the container maps
/// one id, from zero inside to that id outside; so the policy of a request
/// that brings no mappings of its own is well formed.
pub proof fn root_policy_is_well_formed(rd: RunData, euid: u32, egid: u32)
    ensures
        root_mapping(euid) == mapping_of(0, euid as nat, 1),
        is_mapping(root_mapping(euid)),
        rd.uid_map is None && rd.gid_map is None ==> base_policy(rd, euid, egid).well_formed(),
{
    reveal_strlit("0 ");
    reveal_strlit(" 1");
    assert(root_mapping(euid) =~= mapping_of(0, euid as nat, 1));
    assert(root_mapping(egid) =~= mapping_of(0, egid as nat, 1));
}

/// Where a container's root is copied from, and under which directory the
/// copy is made.
#[derive(Debug)]
pub struct Staging {
    pub root_dir: String,
    pub image: String,
}

/// What is to be run: the command, its policy, and where the container's
/// root is staged before, if it is staged.
#[derive(Debug)]
pub struct Invocation {
    pub opts: RunOptions,
    pub cmd: Vec<String>,
    pub staging: Option<Staging>,
}

/// An invocation as the contracts see it.
pub struct InvocationView {
    pub opts: Policy,
    pub cmd: Seq<Seq<char>>,
    /// The directory under which the root is staged, and the image.
    pub staging: Option<(Seq<char>, Seq<char>)>,
}

impl View for Invocation {
    type V = InvocationView;

    open spec fn view(&self) -> InvocationView {
        InvocationView {
            opts: self.opts@,
            cmd: words_view(self.cmd@),
            staging: match self.staging {
                Some(s) => Some((s.root_dir@, s.image@)),
                None => None,
            },
        }
    }
}

/// What a request with arguments of the right form comes to.
///
/// On the host's file system the mounts are not isolated. In a given
/// directory that directory is the mount point. With a copy the mount point
/// is known only when the copy is made: the root is staged under the
/// directory that was named, or under the default one. The last two need an
/// image.
pub open spec fn spec_run(rd: RunData, g: GlobalOptions, euid: u32, egid: u32) -> Result<
    InvocationView,
    RunError,
> {
    let base = base_policy(rd, euid, egid);
    let cmd = words_view(rd.cmd@);
    match rd.fs {
        FsPolicy::Host => Ok(
            InvocationView { opts: Policy { isolate_mnt: false, ..base }, cmd, staging: None },
        ),
        FsPolicy::NoCopy => match rd.image {
            Some(image) => Ok(
                InvocationView {
                    opts: Policy { container_mount_point: image@, ..base },
                    cmd,
                    staging: None,
                },
            ),
            None => Err(RunError::MissingImage),
        },
        FsPolicy::Copy => match rd.image {
            Some(image) => Ok(
                InvocationView {
                    opts: base,
                    cmd,
                    staging: Some(
                        (
                            match g.run_dir {
                                Some(d) => d@,
                                None => default_run_dir(),
                            },
                            image@,
                        ),
                    ),
                },
            ),
            None => Err(RunError::MissingImageToCopy),
        },
    }
}

/// Whether `r` says what `expected` says.
pub open spec fn same_outcome(
    r: Result<Invocation, RunError>,
    expected: Result<InvocationView, RunError>,
) -> bool {
    match (r, expected) {
        (Ok(a), Ok(b)) => a@ == b,
        (Err(a), Err(b)) => a == b,
        _ => false,
    }
}

/// Decides how a request is run, for a caller with the effective user
/// `euid` and the effective group `egid`.
///
/// Arguments for the environment that are not all of the right form stop
/// the request before anything else is looked at.
pub fn run(run_data: RunData, global_opts: GlobalOptions, euid: u32, egid: u32) -> (r: Result<
    Invocation,
    RunError,
>)
    ensures
        all_env_args(run_data.environment@) ==> same_outcome(
            r,
            spec_run(run_data, global_opts, euid, egid),
        ),
        !all_env_args(run_data.environment@) ==> r is Err && r->Err_0 is InvalidEnvArg && ({
            let i = r->Err_0->InvalidEnvArg_0;
            &&& i < run_data.environment.len()
            &&& !is_env_arg(run_data.environment@[i as int]@)
            &&& forall|j: int| 0 <= j < i ==> is_env_arg(#[trigger] run_data.environment@[j]@)
        }),
{
    let env = match parse_env(&run_data.environment) {
        Ok(env) => env,
        Err(i) => {
            return Err(RunError::InvalidEnvArg(i));
        },
    };
    let uid_map = match run_data.usr {
        UsrPolicy::Root => root_mapping_string(euid),
    };
    let gid_map = match run_data.usr {
        UsrPolicy::Root => root_mapping_string(egid),
    };
    let uid_map = match &run_data.uid_map {
        Some(m) => m.clone(),
        None => uid_map,
    };
    let gid_map = match &run_data.gid_map {
        Some(m) => m.clone(),
        None => gid_map,
    };
    let mut opts = RunOptions {
        uid_map,
        gid_map,
        container_mount_point: String::new(),
        isolate_mnt: true,
        isolate_uts: run_data.uts != UtsPolicy::Host,
        isolate_user: true,
        isolate_net: run_data.net != NetPolicy::Host,
        isolate_ipc: true,
        unset_env_vars: run_data.env != EnvPolicy::Preserve,
        env,
        detach: !run_data.no_detach,
    };
    assert(opts@ == base_policy(run_data, euid, egid));
    match run_data.fs {
        FsPolicy::Host => {
            opts.isolate_mnt = false;
            Ok(Invocation { opts, cmd: run_data.cmd, staging: None })
        },
        FsPolicy::NoCopy => match run_data.image {
            Some(image) => {
                opts.container_mount_point = image;
                Ok(Invocation { opts, cmd: run_data.cmd, staging: None })
            },
            None => Err(RunError::MissingImage),
        },
        FsPolicy::Copy => match run_data.image {
            Some(image) => {
                let root_dir = match global_opts.run_dir {
                    Some(d) => d,
                    None => String::from_str("/tmp/korobok/"),
                };
                Ok(
                    Invocation {
                        opts,
                        cmd: run_data.cmd,
                        staging: Some(Staging { root_dir, image }),
                    },
                )
            },
            None => Err(RunError::MissingImageToCopy),
        },
    }
}

/// Points the policy at the copy of `image` that was made in `dir`: the
/// mount point is the last component of the image's path, below the
/// directory.
pub fn run_in_dir(dir: &ContainerDir, image: &str, opts: &mut RunOptions) -> (r: Result<
    (),
    RunError,
>)
    ensures
        r is Ok <==> dir.spec_path() is Some && path_file_name(image@) is Some,
        r is Ok ==> final(opts)@ == (Policy {
            container_mount_point: path_join(dir.spec_path()->0, path_file_name(image@)->0),
            ..old(opts)@
        }),
        r is Err ==> final(opts)@ == old(opts)@ && r->Err_0 == if path_file_name(image@) is None {
            RunError::NoImageName
        } else {
            RunError::ClosedDirectory
        },
{
    let name = match file_name(image) {
        Some(name) => name,
        None => {
            return Err(RunError::NoImageName);
        },
    };
    match dir.path() {
        Some(path) => {
            opts.container_mount_point = join(path.as_str(), name.as_str());
            Ok(())
        },
        None => Err(RunError::ClosedDirectory),
    }
}

/// What is printed when the run is over: the identifier of the directory
/// in which the root was staged, where there is one and the entry command
/// kept the caller's streams, and nothing otherwise.
pub fn report(opts: &RunOptions, id: Option<String>) -> (s: String)
    ensures
        s@ == if !opts.detach && id is Some {
            id->0@
        } else {
            Seq::<char>::empty()
        },
{
    if !opts.detach {
        match id {
            Some(id) => id,
            None => String::new(),
        }
    } else {
        String::new()
    }
}

} // verus!
