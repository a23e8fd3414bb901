//! What has to be done to a pair of new namespaces: the identity mapping,
//! written from outside, and the change of root, made from inside.

use crate::options::{Policy, RunOptions};
use crate::steps::{plan_view, proc_file, spec_proc_file, Action, ActionView, Step, Task, TaskView};
use vstd::prelude::*;
use vstd::string::StringExecFns;

verus! {

/// The identity mapping of the process `pid`: the user map, then the denial
/// of `setgroups`, then the group map. The kernel takes a group map from an
/// unprivileged writer only after `setgroups` was denied.
pub open spec fn user_ns_plan(o: Policy, pid: int) -> Seq<TaskView> {
    seq![
        TaskView {
            step: Step::OpenUidMap,
            action: ActionView::CreateFile { path: spec_proc_file(pid, "uid_map"@) },
        },
        TaskView { step: Step::WriteUidMap, action: ActionView::Write { data: o.uid_map } },
        TaskView {
            step: Step::OpenSetgroups,
            action: ActionView::CreateFile { path: spec_proc_file(pid, "setgroups"@) },
        },
        TaskView { step: Step::WriteSetgroups, action: ActionView::Write { data: "deny"@ } },
        TaskView {
            step: Step::OpenGidMap,
            action: ActionView::CreateFile { path: spec_proc_file(pid, "gid_map"@) },
        },
        TaskView { step: Step::WriteGidMap, action: ActionView::Write { data: o.gid_map } },
    ]
}

/// The change of root: the mount point is bound onto itself and entered,
/// the root is pivoted into it, a fresh `/proc` is mounted, and the old
/// root is detached.
pub open spec fn mount_plan(o: Policy) -> Seq<TaskView> {
    seq![
        TaskView {
            step: Step::BindRoot,
            action: ActionView::Mount {
                source: o.container_mount_point,
                target: o.container_mount_point,
                fstype: "ext4"@,
                bind: true,
            },
        },
        TaskView {
            step: Step::EnterMountPoint,
            action: ActionView::ChangeDir { path: o.container_mount_point },
        },
        TaskView {
            step: Step::MakePutOld,
            action: ActionView::MakeDir { path: "put_old"@, mode: 0o777 },
        },
        TaskView {
            step: Step::PivotRoot,
            action: ActionView::PivotRoot { new_root: "."@, put_old: "put_old"@ },
        },
        TaskView { step: Step::EnterRoot, action: ActionView::ChangeDir { path: "/"@ } },
        TaskView {
            step: Step::MakeProc,
            action: ActionView::MakeDir { path: "/proc"@, mode: 0o555 },
        },
        TaskView {
            step: Step::MountProc,
            action: ActionView::Mount {
                source: "proc"@,
                target: "/proc"@,
                fstype: "proc"@,
                bind: false,
            },
        },
        TaskView {
            step: Step::DetachPutOld,
            action: ActionView::Unmount { target: "put_old"@, detach: true },
        },
    ]
}

/// The task that sets one variable.
pub open spec fn set_env_task(pair: (Seq<char>, Seq<char>)) -> TaskView {
    TaskView { step: Step::SetEnv, action: ActionView::SetEnv { name: pair.0, value: pair.1 } }
}

/// The tasks that clear the environment, where the policy asks for it.
pub open spec fn clear_plan(o: Policy) -> Seq<TaskView> {
    if o.unset_env_vars {
        seq![TaskView { step: Step::ClearEnv, action: ActionView::ClearEnv }]
    } else {
        Seq::empty()
    }
}

/// The making of the environment: it is cleared first, where the policy
/// asks for it, and then each variable of the policy is set, in order.
pub open spec fn env_plan(o: Policy) -> Seq<TaskView> {
    clear_plan(o) + o.env.map_values(|p: (Seq<char>, Seq<char>)| set_env_task(p))
}

/// All that is done to the mount namespace: the change of root, then the
/// making of the environment.
pub open spec fn mnt_ns_plan(o: Policy) -> Seq<TaskView> {
    mount_plan(o) + env_plan(o)
}

/// The identity mapping writes the user map first, then the denial of
/// `setgroups`, then the group map, each to the file of the process that
/// the kernel shows under that name, and each with exactly the text of the
/// policy.
pub proof fn setgroups_denied_between_maps(o: Policy, pid: int)
    ensures
        user_ns_plan(o, pid).len() == 6,
        user_ns_plan(o, pid)[0].action == (ActionView::CreateFile {
            path: spec_proc_file(pid, "uid_map"@),
        }),
        user_ns_plan(o, pid)[1].action == (ActionView::Write { data: o.uid_map }),
        user_ns_plan(o, pid)[2].action == (ActionView::CreateFile {
            path: spec_proc_file(pid, "setgroups"@),
        }),
        user_ns_plan(o, pid)[3].action == (ActionView::Write { data: "deny"@ }),
        user_ns_plan(o, pid)[4].action == (ActionView::CreateFile {
            path: spec_proc_file(pid, "gid_map"@),
        }),
        user_ns_plan(o, pid)[5].action == (ActionView::Write { data: o.gid_map }),
        forall|i: int|
            0 <= i < 6 ==> ((#[trigger] user_ns_plan(o, pid)[i]).action is Write <==> i == 1 || i == 3
                || i == 5),
{
}

/// In the preparation of the mount namespace the mount point is bound
/// first, the root is pivoted after that, `/proc` is mounted after the
/// pivot, and the old root is detached last of the four; each of the four
/// is done once, and the environment is made after them.
pub proof fn mount_steps_in_order(o: Policy)
    ensures
        mnt_ns_plan(o).len() >= 8,
        forall|i: int|
            0 <= i < mnt_ns_plan(o).len() ==> {
                let step = (#[trigger] mnt_ns_plan(o)[i]).step;
                &&& (step == Step::BindRoot <==> i == 0)
                &&& (step == Step::EnterMountPoint <==> i == 1)
                &&& (step == Step::MakePutOld <==> i == 2)
                &&& (step == Step::PivotRoot <==> i == 3)
                &&& (step == Step::EnterRoot <==> i == 4)
                &&& (step == Step::MakeProc <==> i == 5)
                &&& (step == Step::MountProc <==> i == 6)
                &&& (step == Step::DetachPutOld <==> i == 7)
                &&& (step == Step::ClearEnv || step == Step::SetEnv <==> i >= 8)
            },
        mnt_ns_plan(o).subrange(0, 8) == mount_plan(o),
{
    assert(mnt_ns_plan(o).subrange(0, 8) =~= mount_plan(o));
    assert forall|i: int| 0 <= i < mnt_ns_plan(o).len() implies {
        let step = (#[trigger] mnt_ns_plan(o)[i]).step;
        &&& (step == Step::BindRoot <==> i == 0)
        &&& (step == Step::EnterMountPoint <==> i == 1)
        &&& (step == Step::MakePutOld <==> i == 2)
        &&& (step == Step::PivotRoot <==> i == 3)
        &&& (step == Step::EnterRoot <==> i == 4)
        &&& (step == Step::MakeProc <==> i == 5)
        &&& (step == Step::MountProc <==> i == 6)
        &&& (step == Step::DetachPutOld <==> i == 7)
        &&& (step == Step::ClearEnv || step == Step::SetEnv <==> i >= 8)
    } by {
        if i < 8 {
            assert(mnt_ns_plan(o)[i] == mount_plan(o)[i]);
        } else {
            env_steps(o, i - 8);
            assert(mnt_ns_plan(o)[i] == env_plan(o)[i - 8]);
        }
    }
}

/// Every task of the making of the environment clears it or sets a
/// variable.
pub proof fn env_steps(o: Policy, i: int)
    requires
        0 <= i < env_plan(o).len(),
    ensures
        env_plan(o)[i].step == Step::ClearEnv || env_plan(o)[i].step == Step::SetEnv,
        env_plan(o)[i].action is ClearEnv || env_plan(o)[i].action is SetEnv,
{
    let sets = o.env.map_values(|p: (Seq<char>, Seq<char>)| set_env_task(p));
    if i < clear_plan(o).len() {
        assert(env_plan(o)[i] == clear_plan(o)[i]);
    } else {
        assert(env_plan(o)[i] == sets[i - clear_plan(o).len()]);
    }
}

fn task(step: Step, action: Action) -> (t: Task)
    ensures
        t@ == (TaskView { step, action: action@ }),
{
    Task { step, action }
}

/// The tasks that map the identities of the process `pid`.
pub fn prepare_user_ns(opts: &RunOptions, pid: i32) -> (plan: Vec<Task>)
    ensures
        plan_view(plan@) == user_ns_plan(opts@, pid as int),
{
    let mut plan: Vec<Task> = Vec::new();
    plan.push(task(Step::OpenUidMap, Action::CreateFile { path: proc_file(pid as i64, "uid_map") }));
    plan.push(task(Step::WriteUidMap, Action::Write { data: opts.uid_map.clone() }));
    plan.push(
        task(Step::OpenSetgroups, Action::CreateFile { path: proc_file(pid as i64, "setgroups") }),
    );
    plan.push(task(Step::WriteSetgroups, Action::Write { data: String::from_str("deny") }));
    plan.push(task(Step::OpenGidMap, Action::CreateFile { path: proc_file(pid as i64, "gid_map") }));
    plan.push(task(Step::WriteGidMap, Action::Write { data: opts.gid_map.clone() }));
    assert(plan_view(plan@) =~= user_ns_plan(opts@, pid as int));
    plan
}

/// The tasks that prepare the mount namespace, in the order in which they
/// are to be done.
pub fn prepare_mnt_ns(opts: &RunOptions) -> (plan: Vec<Task>)
    ensures
        plan_view(plan@) == mnt_ns_plan(opts@),
{
    let mut plan: Vec<Task> = Vec::new();
    plan.push(
        task(
            Step::BindRoot,
            Action::Mount {
                source: opts.container_mount_point.clone(),
                target: opts.container_mount_point.clone(),
                fstype: String::from_str("ext4"),
                bind: true,
            },
        ),
    );
    plan.push(
        task(Step::EnterMountPoint, Action::ChangeDir { path: opts.container_mount_point.clone() }),
    );
    plan.push(
        task(Step::MakePutOld, Action::MakeDir { path: String::from_str("put_old"), mode: 0o777 }),
    );
    plan.push(
        task(
            Step::PivotRoot,
            Action::PivotRoot {
                new_root: String::from_str("."),
                put_old: String::from_str("put_old"),
            },
        ),
    );
    plan.push(task(Step::EnterRoot, Action::ChangeDir { path: String::from_str("/") }));
    plan.push(task(Step::MakeProc, Action::MakeDir { path: String::from_str("/proc"), mode: 0o555 }));
    plan.push(
        task(
            Step::MountProc,
            Action::Mount {
                source: String::from_str("proc"),
                target: String::from_str("/proc"),
                fstype: String::from_str("proc"),
                bind: false,
            },
        ),
    );
    plan.push(
        task(
            Step::DetachPutOld,
            Action::Unmount { target: String::from_str("put_old"), detach: true },
        ),
    );
    assert(plan_view(plan@) =~= mount_plan(opts@));
    if opts.unset_env_vars {
        plan.push(task(Step::ClearEnv, Action::ClearEnv));
    }
    assert(plan_view(plan@) =~= mount_plan(opts@) + clear_plan(opts@));
    let ghost fixed = mount_plan(opts@) + clear_plan(opts@);
    let ghost pairs = opts@.env;
    let mut i: usize = 0;
    while i < opts.env.len()
        invariant
            i <= opts.env.len(),
            pairs == opts@.env,
            pairs.len() == opts.env.len(),
            fixed == mount_plan(opts@) + clear_plan(opts@),
            plan_view(plan@) == fixed + pairs.take(i as int).map_values(
                |p: (Seq<char>, Seq<char>)| set_env_task(p),
            ),
        decreases opts.env.len() - i,
    {
        let name = opts.env[i].0.clone();
        let value = opts.env[i].1.clone();
        let ghost before = plan_view(plan@);
        plan.push(task(Step::SetEnv, Action::SetEnv { name, value }));
        proof {
            assert(pairs[i as int] == (opts.env@[i as int].0@, opts.env@[i as int].1@));
            assert(pairs.take(i + 1) =~= pairs.take(i as int).push(pairs[i as int]));
            assert(plan_view(plan@) =~= before.push(set_env_task(pairs[i as int])));
            assert(plan_view(plan@) =~= fixed + pairs.take(i + 1).map_values(
                |p: (Seq<char>, Seq<char>)| set_env_task(p),
            ));
        }
        i += 1;
    }
    proof {
        assert(pairs.take(i as int) =~= pairs);
        assert(plan_view(plan@) =~= mnt_ns_plan(opts@));
    }
    plan
}

} // verus!
