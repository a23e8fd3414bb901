//! The namespaces that a run asks for, and the request that creates them.

use crate::options::{Policy, RunOptions};
use clone3::Clone3;
use vstd::prelude::*;

verus! {

/// A new mount namespace.
pub const NEWNS: u64 = 0x0002_0000;

/// A new namespace for the host and domain name.
pub const NEWUTS: u64 = 0x0400_0000;

/// A new namespace for inter-process communication.
pub const NEWIPC: u64 = 0x0800_0000;

/// A new user namespace.
pub const NEWUSER: u64 = 0x1000_0000;

/// A new namespace for process ids.
pub const NEWPID: u64 = 0x2000_0000;

/// A new network namespace.
pub const NEWNET: u64 = 0x4000_0000;

/// All six.
pub const NAMESPACES: u64 = 0x7c02_0000;

/// `flag` where `on` holds, no flag otherwise.
pub open spec fn flag_if(on: bool, flag: u64) -> u64 {
    if on {
        flag
    } else {
        0
    }
}

/// The flags of the namespaces that the policy isolates. Each follows its
/// own switch, but for the process ids: they are isolated together with the
/// mounts, because the change of root relies on a private view of them.
pub open spec fn namespace_flags(o: Policy) -> u64 {
    flag_if(o.isolate_uts, NEWUTS) | flag_if(o.isolate_user, NEWUSER) | flag_if(
        o.isolate_mnt,
        NEWNS,
    ) | flag_if(o.isolate_mnt, NEWPID) | flag_if(o.isolate_net, NEWNET) | flag_if(
        o.isolate_ipc,
        NEWIPC,
    )
}

/// A flag is set exactly where the policy asks for its namespace, the flag
/// of the process ids where it asks for the mounts, and nothing else is set.
pub proof fn namespace_flags_follow_policy(o: Policy)
    ensures
        (namespace_flags(o) & NEWUTS != 0) == o.isolate_uts,
        (namespace_flags(o) & NEWUSER != 0) == o.isolate_user,
        (namespace_flags(o) & NEWNS != 0) == o.isolate_mnt,
        (namespace_flags(o) & NEWPID != 0) == o.isolate_mnt,
        (namespace_flags(o) & NEWNET != 0) == o.isolate_net,
        (namespace_flags(o) & NEWIPC != 0) == o.isolate_ipc,
        namespace_flags(o) & !NAMESPACES == 0,
{
    let a = flag_if(o.isolate_uts, NEWUTS);
    let b = flag_if(o.isolate_user, NEWUSER);
    let c = flag_if(o.isolate_mnt, NEWNS);
    let d = flag_if(o.isolate_mnt, NEWPID);
    let e = flag_if(o.isolate_net, NEWNET);
    let f = flag_if(o.isolate_ipc, NEWIPC);
    assert((a == 0 || a == 0x0400_0000) && (b == 0 || b == 0x1000_0000) && (c == 0 || c
        == 0x0002_0000) && (d == 0 || d == 0x2000_0000) && (e == 0 || e == 0x4000_0000) && (f == 0
        || f == 0x0800_0000) ==> {
        let all = a | b | c | d | e | f;
        &&& ((all & 0x0400_0000 != 0) == (a != 0))
        &&& ((all & 0x1000_0000 != 0) == (b != 0))
        &&& ((all & 0x0002_0000 != 0) == (c != 0))
        &&& ((all & 0x2000_0000 != 0) == (d != 0))
        &&& ((all & 0x4000_0000 != 0) == (e != 0))
        &&& ((all & 0x0800_0000 != 0) == (f != 0))
        &&& all & !0x7c02_0000u64 == 0
    }) by (bit_vector);
}

fn pick(on: bool, flag: u64) -> (f: u64)
    ensures
        f == flag_if(on, flag),
{
    if on {
        flag
    } else {
        0
    }
}

/// The flags of the namespaces that `opts` isolates.
pub fn flags_of(opts: &RunOptions) -> (flags: u64)
    ensures
        flags == namespace_flags(opts@),
{
    pick(opts.isolate_uts, NEWUTS) | pick(opts.isolate_user, NEWUSER) | pick(
        opts.isolate_mnt,
        NEWNS,
    ) | pick(opts.isolate_mnt, NEWPID) | pick(opts.isolate_net, NEWNET) | pick(
        opts.isolate_ipc,
        NEWIPC,
    )
}

/// `clone3::Clone3`, the builder of a request to the `clone3` system call.
/// Nothing inside it is visible to the verifier.
#[verifier::external_type_specification]
#[verifier::external_body]
pub struct ExClone3<'a>(Clone3<'a>);

/// The flags that a request holds: what `Clone3::as_clone_args` reports in
/// the field `flags`.
pub uninterp spec fn request_flags(request: Clone3<'static>) -> u64;

/// `Clone3::default`: a request that holds no flag.
#[verifier::external_body]
fn empty_request() -> (request: Clone3<'static>)
    ensures
        request_flags(request) == 0,
{
    Clone3::default()
}

/// `Clone3::flag_newuts` adds the flag of the host name's namespace
/// (`Flags::NEWUTS`) to those that the request holds.
#[verifier::external_body]
fn flag_newuts(request: &mut Clone3<'static>)
    ensures
        request_flags(*final(request)) == request_flags(*old(request)) | 0x0400_0000,
{
    request.flag_newuts();
}

/// `Clone3::flag_newuser` adds the flag of the user namespace
/// (`Flags::NEWUSER`) to those that the request holds.
#[verifier::external_body]
fn flag_newuser(request: &mut Clone3<'static>)
    ensures
        request_flags(*final(request)) == request_flags(*old(request)) | 0x1000_0000,
{
    request.flag_newuser();
}

/// `Clone3::flag_newns` adds the flag of the mount namespace
/// (`Flags::NEWNS`) to those that the request holds.
#[verifier::external_body]
fn flag_newns(request: &mut Clone3<'static>)
    ensures
        request_flags(*final(request)) == request_flags(*old(request)) | 0x0002_0000,
{
    request.flag_newns();
}

/// `Clone3::flag_newpid` adds the flag of the process ids' namespace
/// (`Flags::NEWPID`) to those that the request holds.
#[verifier::external_body]
fn flag_newpid(request: &mut Clone3<'static>)
    ensures
        request_flags(*final(request)) == request_flags(*old(request)) | 0x2000_0000,
{
    request.flag_newpid();
}

/// `Clone3::flag_newnet` adds the flag of the network namespace
/// (`Flags::NEWNET`) to those that the request holds.
#[verifier::external_body]
fn flag_newnet(request: &mut Clone3<'static>)
    ensures
        request_flags(*final(request)) == request_flags(*old(request)) | 0x4000_0000,
{
    request.flag_newnet();
}

/// `Clone3::flag_newipc` adds the flag of the namespace for inter-process
/// communication (`Flags::NEWIPC`) to those that the request holds.
#[verifier::external_body]
fn flag_newipc(request: &mut Clone3<'static>)
    ensures
        request_flags(*final(request)) == request_flags(*old(request)) | 0x0800_0000,
{
    request.flag_newipc();
}

/// The request that duplicates the process into the namespaces that `opts`
/// isolates. It holds the flags of those namespaces and nothing else: no
/// exit signal, no stack, no place for a process id.
pub fn clone_request(opts: &RunOptions) -> (request: Clone3<'static>)
    ensures
        request_flags(request) == namespace_flags(opts@),
{
    let mut request = empty_request();
    let ghost f0 = request_flags(request);
    if opts.isolate_uts {
        flag_newuts(&mut request);
    }
    let ghost f1 = request_flags(request);
    if opts.isolate_user {
        flag_newuser(&mut request);
    }
    let ghost f2 = request_flags(request);
    if opts.isolate_mnt {
        flag_newns(&mut request);
        flag_newpid(&mut request);
    }
    let ghost f3 = request_flags(request);
    if opts.isolate_net {
        flag_newnet(&mut request);
    }
    let ghost f4 = request_flags(request);
    if opts.isolate_ipc {
        flag_newipc(&mut request);
    }
    proof {
        let a = flag_if(opts.isolate_uts, NEWUTS);
        let b = flag_if(opts.isolate_user, NEWUSER);
        let c = flag_if(opts.isolate_mnt, NEWNS);
        let d = flag_if(opts.isolate_mnt, NEWPID);
        let e = flag_if(opts.isolate_net, NEWNET);
        let f = flag_if(opts.isolate_ipc, NEWIPC);
        assert(f1 == f0 | a) by (bit_vector)
            requires
                f0 == 0,
                f1 == f0 | a || (a == 0 && f1 == f0),
        ;
        assert(f2 == f1 | b) by (bit_vector)
            requires
                f2 == f1 | b || (b == 0 && f2 == f1),
        ;
        assert(f3 == f2 | c | d) by (bit_vector)
            requires
                f3 == (f2 | c) | d || (c == 0 && d == 0 && f3 == f2),
        ;
        assert(f4 == f3 | e) by (bit_vector)
            requires
                f4 == f3 | e || (e == 0 && f4 == f3),
        ;
        let f5 = request_flags(request);
        assert(f5 == a | b | c | d | e | f) by (bit_vector)
            requires
                f5 == f4 | f || (f == 0 && f5 == f4),
                f4 == f3 | e,
                f3 == f2 | c | d,
                f2 == f1 | b,
                f1 == f0 | a,
                f0 == 0,
        ;
    }
    request
}

} // verus!
