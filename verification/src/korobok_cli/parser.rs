//! What the command line says, before it is turned into a policy.

use vstd::prelude::*;

verus! {

/// Everything that was said on the command line.
#[derive(Debug)]
pub struct KorobokOptions {
    pub global_opts: GlobalOptions,
    pub command: Command,
}

/// What holds for every command.
#[derive(Debug)]
pub struct GlobalOptions {
    /// Where the container's root is copied to, if it is copied at all.
    /// Without it a directory under `/tmp/korobok/` is taken.
    pub run_dir: Option<String>,
}

/// The commands.
#[derive(Debug)]
pub enum Command {
    /// Create a container and run a command inside of it.
    Run(RunData),
}

/// What `run` was told.
#[derive(Debug)]
pub struct RunData {
    /// How the environment is handled.
    pub env: EnvPolicy,
    /// Whether the container sees the network.
    pub net: NetPolicy,
    /// Whether the container sees, and can change, the host name.
    pub uts: UtsPolicy,
    /// Where the container's root comes from.
    pub fs: FsPolicy,
    /// The mapping of user ids, as the kernel takes it. It goes before
    /// `usr`.
    pub uid_map: Option<String>,
    /// The mapping of group ids, as the kernel takes it. It goes before
    /// `usr`.
    pub gid_map: Option<String>,
    /// How users are mapped from host to container.
    pub usr: UsrPolicy,
    /// The directory that holds the container's root.
    pub image: Option<String>,
    /// The command to run in the container.
    pub cmd: Vec<String>,
    /// The variables to set, each as `NAME:VALUE`.
    pub environment: Vec<String>,
    /// Whether the streams of the entry command stay those of the caller.
    pub no_detach: bool,
}

#[derive(Debug, Copy, Clone, PartialEq, Eq, PartialOrd, Ord, Structural)]
pub enum EnvPolicy {
    /// Keep the environment of the host.
    Preserve,
    /// Remove every variable before the entry command is run.
    Clear,
}

#[derive(Debug, Copy, Clone, PartialEq, Eq, PartialOrd, Ord, Structural)]
pub enum NetPolicy {
    /// The container uses the interfaces of the host.
    Host,
    /// Every interface is hidden from the container.
    Sandbox,
}

#[derive(Debug, Copy, Clone, PartialEq, Eq, PartialOrd, Ord, Structural)]
pub enum UtsPolicy {
    /// The container uses, and can change, the names of the host.
    Host,
    /// The container has names of its own.
    Sandbox,
}

#[derive(Debug, Copy, Clone, PartialEq, Eq, PartialOrd, Ord, Structural)]
pub enum FsPolicy {
    /// The container's root is copied, and everything runs in the copy.
    Copy,
    /// The container runs in the directory that was given.
    NoCopy,
    /// The container runs in the file system of the host.
    Host,
}

#[derive(Debug, Copy, Clone, PartialEq, Eq, PartialOrd, Ord, Structural)]
pub enum UsrPolicy {
    /// The effective user and group of the caller are root in the container.
    Root,
}

} // verus!
