//! The environment that the making of the environment leaves behind, as a
//! function of what was inherited and of the policy.

use crate::namespaces::{clear_plan, env_plan, mnt_ns_plan, mount_plan, set_env_task};
use crate::options::{pairs_view, Policy, RunOptions};
use crate::steps::{ActionView, TaskView};
use crate::text::chars_of;
use vstd::prelude::*;

verus! {

/// An environment: the value of each variable that is set.
pub type Environment = Map<Seq<char>, Seq<char>>;

/// `env` after each of `pairs` was set in it, in order: of two values for
/// one name the later one stays.
pub open spec fn with_overrides(env: Environment, pairs: Seq<(Seq<char>, Seq<char>)>) -> Environment
    decreases pairs.len(),
{
    if pairs.len() == 0 {
        env
    } else {
        with_overrides(env, pairs.drop_last()).insert(pairs.last().0, pairs.last().1)
    }
}

/// The environment that a list of named values stands for.
pub open spec fn env_map(pairs: Seq<(Seq<char>, Seq<char>)>) -> Environment {
    with_overrides(Map::empty(), pairs)
}

/// The environment of the container under the policy `o`, made from the
/// environment `inherited`: nothing of it is kept where the policy clears
/// it, and the policy's variables are set over what is kept.
pub open spec fn materialized(inherited: Environment, o: Policy) -> Environment {
    with_overrides(
        if o.unset_env_vars {
            Map::empty()
        } else {
            inherited
        },
        o.env,
    )
}

/// What one action does to the environment.
pub open spec fn env_after(env: Environment, action: ActionView) -> Environment {
    match action {
        ActionView::ClearEnv => Map::empty(),
        ActionView::SetEnv { name, value } => env.insert(name, value),
        _ => env,
    }
}

/// What the actions of a plan do to the environment, one after the other.
pub open spec fn env_after_all(env: Environment, plan: Seq<TaskView>) -> Environment
    decreases plan.len(),
{
    if plan.len() == 0 {
        env
    } else {
        env_after(env_after_all(env, plan.drop_last()), plan.last().action)
    }
}

/// Whether `name` is among the names of `pairs`.
pub open spec fn names(pairs: Seq<(Seq<char>, Seq<char>)>, name: Seq<char>) -> bool {
    exists|i: int| 0 <= i < pairs.len() && #[trigger] pairs[i].0 == name
}

/// Whether no name occurs twice in `pairs`.
pub open spec fn distinct_names(pairs: Seq<(Seq<char>, Seq<char>)>) -> bool {
    forall|i: int, j: int|
        0 <= i < j < pairs.len() ==> (#[trigger] pairs[i]).0 != (#[trigger] pairs[j]).0
}

proof fn env_after_concat(env: Environment, a: Seq<TaskView>, b: Seq<TaskView>)
    ensures
        env_after_all(env, a + b) == env_after_all(env_after_all(env, a), b),
    decreases b.len(),
{
    if b.len() == 0 {
        assert(a + b =~= a);
    } else {
        assert((a + b).drop_last() =~= a + b.drop_last());
        env_after_concat(env, a, b.drop_last());
    }
}

proof fn env_after_set_all(env: Environment, pairs: Seq<(Seq<char>, Seq<char>)>)
    ensures
        env_after_all(env, pairs.map_values(|p: (Seq<char>, Seq<char>)| set_env_task(p)))
            == with_overrides(env, pairs),
    decreases pairs.len(),
{
    let plan = pairs.map_values(|p: (Seq<char>, Seq<char>)| set_env_task(p));
    if pairs.len() > 0 {
        env_after_set_all(env, pairs.drop_last());
        assert(plan.drop_last() =~= pairs.drop_last().map_values(
            |p: (Seq<char>, Seq<char>)| set_env_task(p),
        ));
    }
}

proof fn env_after_mount(env: Environment, o: Policy)
    ensures
        env_after_all(env, mount_plan(o)) == env,
{
    let p = mount_plan(o);
    reveal_with_fuel(env_after_all, 10);
    assert(p.len() == 8);
    assert(p.drop_last().len() == 7);
    assert(p.drop_last().drop_last().len() == 6);
    assert(p.drop_last().drop_last().drop_last().len() == 5);
    assert(p.drop_last().drop_last().drop_last().drop_last().len() == 4);
    assert(p.drop_last().drop_last().drop_last().drop_last().drop_last().len() == 3);
    assert(p.drop_last().drop_last().drop_last().drop_last().drop_last().drop_last().len() == 2);
    assert(p.drop_last().drop_last().drop_last().drop_last().drop_last().drop_last().drop_last().len()
        == 1);
}

/// The tasks that make the environment leave behind the environment of the
/// policy, whatever was inherited; so does the whole preparation of the
/// mount namespace, of which they are the end.
pub proof fn plan_materializes_env(inherited: Environment, o: Policy)
    ensures
        env_after_all(inherited, env_plan(o)) == materialized(inherited, o),
        env_after_all(inherited, mnt_ns_plan(o)) == materialized(inherited, o),
{
    let sets = o.env.map_values(|p: (Seq<char>, Seq<char>)| set_env_task(p));
    env_after_concat(inherited, clear_plan(o), sets);
    let cleared = env_after_all(inherited, clear_plan(o));
    assert(cleared == if o.unset_env_vars {
        Map::<Seq<char>, Seq<char>>::empty()
    } else {
        inherited
    }) by {
        reveal_with_fuel(env_after_all, 2);
        if o.unset_env_vars {
            assert(clear_plan(o).drop_last().len() == 0);
        }
    }
    env_after_set_all(cleared, o.env);
    env_after_concat(inherited, mount_plan(o), env_plan(o));
    env_after_mount(inherited, o);
}

/// What `with_overrides` holds: the last value of each name of `pairs`, and
/// of the other names what `env` holds.
pub proof fn overrides_win(env: Environment, pairs: Seq<(Seq<char>, Seq<char>)>)
    ensures
        forall|name: Seq<char>|
            with_overrides(env, pairs).contains_key(name) <==> names(pairs, name)
                || env.contains_key(name),
        forall|name: Seq<char>|
            !names(pairs, name) && env.contains_key(name) ==> with_overrides(env, pairs)[name]
                == env[name],
        forall|i: int|
            0 <= i < pairs.len() && (forall|j: int| i < j < pairs.len() ==> pairs[j].0 != pairs[i].0)
                ==> with_overrides(env, pairs)[#[trigger] pairs[i].0] == pairs[i].1,
    decreases pairs.len(),
{
    if pairs.len() > 0 {
        let front = pairs.drop_last();
        let last = pairs.last();
        overrides_win(env, front);
        assert forall|name: Seq<char>|
            with_overrides(env, pairs).contains_key(name) <==> names(pairs, name)
                || env.contains_key(name) by {
            if names(pairs, name) {
                let i = choose|i: int| 0 <= i < pairs.len() && #[trigger] pairs[i].0 == name;
                if i < pairs.len() - 1 {
                    assert(front[i].0 == name);
                    assert(names(front, name));
                }
            }
            if names(front, name) {
                let i = choose|i: int| 0 <= i < front.len() && #[trigger] front[i].0 == name;
                assert(pairs[i].0 == name);
            }
            if name == last.0 {
                assert(pairs[pairs.len() - 1].0 == name);
            }
        }
        assert forall|name: Seq<char>|
            !names(pairs, name) && env.contains_key(name) implies with_overrides(env, pairs)[name]
                == env[name] by {
            assert(pairs[pairs.len() - 1].0 != name);
            if names(front, name) {
                let i = choose|i: int| 0 <= i < front.len() && #[trigger] front[i].0 == name;
                assert(pairs[i].0 == name);
            }
        }
        assert forall|i: int|
            0 <= i < pairs.len() && (forall|j: int|
                i < j < pairs.len() ==> pairs[j].0 != pairs[i].0) implies with_overrides(
                env,
                pairs,
            )[#[trigger] pairs[i].0] == pairs[i].1 by {
            if i < pairs.len() - 1 {
                assert(front[i] == pairs[i]);
                assert forall|j: int| i < j < front.len() implies front[j].0 != front[i].0 by {
                    assert(front[j] == pairs[j]);
                }
                assert(pairs[pairs.len() - 1].0 != pairs[i].0);
            }
        }
    } else {
        assert forall|name: Seq<char>| !names(pairs, name) by {}
    }
}

/// Where the policy clears the environment, the container's environment
/// holds the policy's variables and nothing else, whatever was inherited.
/// Where it does not, the container's environment holds what was inherited
/// and the policy's variables. Either way each of the policy's variables has
/// the value that the policy gave it last.
pub proof fn policy_decides_env(inherited: Environment, o: Policy)
    ensures
        o.unset_env_vars ==> forall|name: Seq<char>|
            materialized(inherited, o).contains_key(name) <==> names(o.env, name),
        o.unset_env_vars ==> materialized(inherited, o) == env_map(o.env),
        !o.unset_env_vars ==> forall|name: Seq<char>|
            materialized(inherited, o).contains_key(name) <==> names(o.env, name)
                || inherited.contains_key(name),
        !o.unset_env_vars ==> forall|name: Seq<char>|
            !names(o.env, name) && inherited.contains_key(name) ==> materialized(inherited, o)[name]
                == inherited[name],
        forall|i: int|
            0 <= i < o.env.len() && (forall|j: int| i < j < o.env.len() ==> o.env[j].0 != o.env[i].0)
                ==> materialized(inherited, o)[#[trigger] o.env[i].0] == o.env[i].1,
{
    if o.unset_env_vars {
        overrides_win(Map::empty(), o.env);
    } else {
        overrides_win(inherited, o.env);
    }
}

proof fn update_is_insert(pairs: Seq<(Seq<char>, Seq<char>)>, k: int, value: Seq<char>)
    requires
        0 <= k < pairs.len(),
        distinct_names(pairs),
    ensures
        env_map(pairs.update(k, (pairs[k].0, value))) == env_map(pairs).insert(pairs[k].0, value),
        distinct_names(pairs.update(k, (pairs[k].0, value))),
    decreases pairs.len(),
{
    let name = pairs[k].0;
    let updated = pairs.update(k, (name, value));
    let front = pairs.drop_last();
    if k == pairs.len() - 1 {
        assert(updated.drop_last() =~= front);
        assert(env_map(front).insert(name, pairs[k].1).insert(name, value) =~= env_map(front).insert(
            name,
            value,
        ));
    } else {
        assert(updated.drop_last() =~= front.update(k, (name, value)));
        assert(front[k] == pairs[k]);
        assert(distinct_names(front)) by {
            assert forall|i: int, j: int| 0 <= i < j < front.len() implies (#[trigger] front[i]).0
                != (#[trigger] front[j]).0 by {
                assert(front[i] == pairs[i] && front[j] == pairs[j]);
            }
        }
        update_is_insert(front, k, value);
        let last = pairs.last();
        assert(last == pairs[pairs.len() - 1]);
        assert(last.0 != name);
        assert(env_map(front).insert(name, value).insert(last.0, last.1) =~= env_map(front).insert(
            last.0,
            last.1,
        ).insert(name, value));
    }
    assert forall|i: int, j: int| 0 <= i < j < updated.len() implies (#[trigger] updated[i]).0 != (
    #[trigger] updated[j]).0 by {
        assert(updated[i].0 == pairs[i].0 && updated[j].0 == pairs[j].0);
    }
}

fn find(env: &Vec<(String, String)>, name: &String) -> (at: Option<usize>)
    ensures
        at is Some ==> at->0 < env.len() && env@[at->0 as int].0@ == name@,
        at is None ==> !names(pairs_view(env@), name@),
{
    let mut i: usize = 0;
    while i < env.len()
        invariant
            i <= env.len(),
            forall|k: int| 0 <= k < i ==> env@[k].0@ != name@,
        decreases env.len() - i,
    {
        if env[i].0 == *name {
            return Some(i);
        }
        i += 1;
    }
    proof {
        let pairs = pairs_view(env@);
        assert forall|k: int| 0 <= k < pairs.len() implies #[trigger] pairs[k].0 != name@ by {
            assert(pairs[k].0 == env@[k].0@);
        }
    }
    None
}

fn set_var(env: &mut Vec<(String, String)>, name: String, value: String)
    requires
        distinct_names(pairs_view(old(env)@)),
    ensures
        distinct_names(pairs_view(final(env)@)),
        env_map(pairs_view(final(env)@)) == env_map(pairs_view(old(env)@)).insert(name@, value@),
{
    let ghost before = pairs_view(env@);
    match find(env, &name) {
        Some(k) => {
            env.set(k, (name, value));
            proof {
                assert(before[k as int].0 == name@);
                assert(pairs_view(env@) =~= before.update(k as int, (name@, value@)));
                update_is_insert(before, k as int, value@);
            }
        },
        None => {
            env.push((name, value));
            proof {
                let after = pairs_view(env@);
                assert(after =~= before.push((name@, value@)));
                assert(after.drop_last() =~= before);
                assert forall|i: int, j: int| 0 <= i < j < after.len() implies (#[trigger] after[i]).0
                    != (#[trigger] after[j]).0 by {
                    if j == after.len() - 1 {
                        assert(before[i].0 == after[i].0);
                    } else {
                        assert(before[i] == after[i] && before[j] == after[j]);
                    }
                }
            }
        },
    }
}

fn set_vars(env: &mut Vec<(String, String)>, pairs: &Vec<(String, String)>)
    requires
        distinct_names(pairs_view(old(env)@)),
    ensures
        distinct_names(pairs_view(final(env)@)),
        env_map(pairs_view(final(env)@)) == with_overrides(
            env_map(pairs_view(old(env)@)),
            pairs_view(pairs@),
        ),
{
    let ghost base = env_map(pairs_view(env@));
    let ghost all = pairs_view(pairs@);
    let mut i: usize = 0;
    while i < pairs.len()
        invariant
            i <= pairs.len(),
            all == pairs_view(pairs@),
            distinct_names(pairs_view(env@)),
            env_map(pairs_view(env@)) == with_overrides(base, all.take(i as int)),
        decreases pairs.len() - i,
    {
        let name = pairs[i].0.clone();
        let value = pairs[i].1.clone();
        set_var(env, name, value);
        proof {
            assert(all.take(i + 1).drop_last() =~= all.take(i as int));
            assert(all.take(i + 1).last() == all[i as int]);
            assert(all[i as int] == (pairs@[i as int].0@, pairs@[i as int].1@));
        }
        i += 1;
    }
    assert(all.take(i as int) =~= all);
}

/// The environment of the container under the policy `opts`, made from the
/// environment `inherited`. It names no variable twice.
pub fn materialize_env(inherited: &Vec<(String, String)>, opts: &RunOptions) -> (env: Vec<
    (String, String),
>)
    ensures
        distinct_names(pairs_view(env@)),
        env_map(pairs_view(env@)) == materialized(env_map(pairs_view(inherited@)), opts@),
{
    let mut env: Vec<(String, String)> = Vec::new();
    assert(pairs_view(env@) =~= Seq::empty());
    if !opts.unset_env_vars {
        set_vars(&mut env, inherited);
    }
    set_vars(&mut env, &opts.env);
    env
}

/// Whether the operating system can hold a variable of this name with this
/// value: the name is not empty and holds neither an equals sign nor a NUL,
/// and the value holds no NUL.
pub open spec fn settable(name: Seq<char>, value: Seq<char>) -> bool {
    &&& name.len() > 0
    &&& !name.contains('=')
    &&& !name.contains('\0')
    &&& !value.contains('\0')
}

fn holds(chars: &Vec<char>, c: char) -> (b: bool)
    ensures
        b == chars@.contains(c),
{
    let mut i: usize = 0;
    while i < chars.len()
        invariant
            i <= chars.len(),
            forall|k: int| 0 <= k < i ==> chars@[k] != c,
        decreases chars.len() - i,
    {
        if chars[i] == c {
            return true;
        }
        i += 1;
    }
    false
}

/// Whether the operating system can hold a variable of this name with this
/// value. The driver of a run asks this before it sets a variable, and
/// reports a failure where it cannot.
pub fn can_set(name: &str, value: &str) -> (b: bool)
    ensures
        b == settable(name@, value@),
{
    let name = chars_of(name);
    let value = chars_of(value);
    name.len() > 0 && !holds(&name, '=') && !holds(&name, '\0') && !holds(&value, '\0')
}

} // verus!
