//! The isolation policy of one run.

use crate::text::decimal_digits;
use vstd::prelude::*;

verus! {

/// What a run isolates, how identities are mapped, where the container's
/// root is, and what its environment holds. Built once by the caller and
/// only read by the engine.
#[derive(Debug)]
pub struct RunOptions {
    /// The mapping of user ids, as the kernel takes it: `inner outer length`.
    pub uid_map: String,
    /// The mapping of group ids, in the same form.
    pub gid_map: String,
    /// The directory that becomes the container's root. It is used only
    /// where the mount namespace is isolated.
    pub container_mount_point: String,
    pub isolate_mnt: bool,
    pub isolate_uts: bool,
    pub isolate_user: bool,
    pub isolate_net: bool,
    pub isolate_ipc: bool,
    /// Whether the inherited environment is cleared before `env` is applied.
    pub unset_env_vars: bool,
    /// The variables to set, in order: name and value.
    pub env: Vec<(String, String)>,
    /// Whether the entry command's streams are piped rather than inherited.
    pub detach: bool,
}

/// A policy as the contracts see it: text as sequences of characters.
pub struct Policy {
    pub uid_map: Seq<char>,
    pub gid_map: Seq<char>,
    pub container_mount_point: Seq<char>,
    pub isolate_mnt: bool,
    pub isolate_uts: bool,
    pub isolate_user: bool,
    pub isolate_net: bool,
    pub isolate_ipc: bool,
    pub unset_env_vars: bool,
    pub env: Seq<(Seq<char>, Seq<char>)>,
    pub detach: bool,
}

/// The mapping of `length` ids from `inner` on, inside the namespace, to the
/// ids from `outer` on, outside of it: the three numbers in decimal, with
/// one space between them.
pub open spec fn mapping_of(inner: nat, outer: nat, length: nat) -> Seq<char> {
    decimal_digits(inner) + seq![' '] + decimal_digits(outer) + seq![' '] + decimal_digits(length)
}

/// Whether `map` is the text of a mapping.
pub open spec fn is_mapping(map: Seq<char>) -> bool {
    exists|inner: nat, outer: nat, length: nat| map == #[trigger] mapping_of(inner, outer, length)
}

impl Policy {
    /// What a policy owes the engine, as far as its text shows it: where the
    /// users are isolated, both maps are mappings. That the mount point is a
    /// directory that can be bound is the caller's to see to.
    pub open spec fn well_formed(self) -> bool {
        self.isolate_user ==> is_mapping(self.uid_map) && is_mapping(self.gid_map)
    }
}

/// A list of named values as the contracts see it.
pub open spec fn pairs_view(pairs: Seq<(String, String)>) -> Seq<(Seq<char>, Seq<char>)> {
    pairs.map_values(|p: (String, String)| (p.0@, p.1@))
}

/// A list of words as the contracts see it.
pub open spec fn words_view(words: Seq<String>) -> Seq<Seq<char>> {
    words.map_values(|w: String| w@)
}

impl View for RunOptions {
    type V = Policy;

    open spec fn view(&self) -> Policy {
        Policy {
            uid_map: self.uid_map@,
            gid_map: self.gid_map@,
            container_mount_point: self.container_mount_point@,
            isolate_mnt: self.isolate_mnt,
            isolate_uts: self.isolate_uts,
            isolate_user: self.isolate_user,
            isolate_net: self.isolate_net,
            isolate_ipc: self.isolate_ipc,
            unset_env_vars: self.unset_env_vars,
            env: pairs_view(self.env@),
            detach: self.detach,
        }
    }
}

} // verus!
