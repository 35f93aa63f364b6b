//! Ordered teardown plans: which deletions a user or a group cascades into.
//!
//! Every teardown step is best-effort, so a plan depends only on what was
//! listed before it starts (the group's members and the instance names) and
//! is executed in order whatever the outcome of each step.
use vstd::prelude::*;
use crate::config::{
    group_policy_arn,
    group_policy_arn_spec,
    user_policy_name,
    user_policy_name_spec,
};
use crate::ownership::{is_owned_by, owned_by};
use crate::request::{ops_of, Op, Request};

verus! {

/// The models of a list of names.
pub open spec fn names_of(v: Seq<String>) -> Seq<Seq<char>> {
    v.map_values(|s: String| s@)
}

/// The instance names, in listing order, that belong to `user`.
pub open spec fn owned_names(user: Seq<char>, names: Seq<Seq<char>>) -> Seq<Seq<char>> {
    names.filter(|n: Seq<char>| owned_by(n, user))
}

/// One forced deletion per instance of `user`, in listing order.
pub open spec fn instance_deletions(user: Seq<char>, names: Seq<Seq<char>>) -> Seq<Op> {
    owned_names(user, names).map_values(|n: Seq<char>| Op::DeleteInstance { name: n })
}

/// Removal of an identity account, in the order the provider's dependencies
/// demand: group membership, login profile, inline policy, then the account.
pub open spec fn identity_teardown(user: Seq<char>, group: Seq<char>) -> Seq<Op> {
    seq![
        Op::RemoveUserFromGroup { user: user, group: group },
        Op::DeleteLoginProfile { user: user },
        Op::DeleteUserPolicy { user: user, policy_name: user_policy_name_spec(user) },
        Op::DeleteUser { user: user },
    ]
}

/// Everything a user owns goes: first the user's instances, then the account.
pub open spec fn user_teardown(user: Seq<char>, group: Seq<char>, names: Seq<Seq<char>>) -> Seq<
    Op,
> {
    instance_deletions(user, names) + identity_teardown(user, group)
}

/// The members' teardowns, one member after the other in listing order.
pub open spec fn members_teardown(
    group: Seq<char>,
    members: Seq<Seq<char>>,
    names: Seq<Seq<char>>,
) -> Seq<Op>
    decreases members.len(),
{
    if members.len() == 0 {
        seq![]
    } else {
        members_teardown(group, members.drop_last(), names) + user_teardown(
            members.last(),
            group,
            names,
        )
    }
}

/// A group's teardown: every member depth-first, then the shared policy is
/// detached and the group deleted.
pub open spec fn group_teardown(
    group: Seq<char>,
    account_id: Seq<char>,
    members: Seq<Seq<char>>,
    names: Seq<Seq<char>>,
) -> Seq<Op> {
    members_teardown(group, members, names) + seq![
        Op::DetachGroupPolicy { group: group, policy_arn: group_policy_arn_spec(account_id) },
        Op::DeleteGroup { group: group },
    ]
}

/// Creation of a group with the shared policy attached.
pub open spec fn group_creation(group: Seq<char>, account_id: Seq<char>) -> Seq<Op> {
    seq![
        Op::CreateGroup { group: group },
        Op::AttachGroupPolicy { group: group, policy_arn: group_policy_arn_spec(account_id) },
    ]
}

/// The deletions of the instances of `user`, given the names of all instances.
pub fn delete_user_instances(user: &str, instances: &Vec<String>) -> (r: Vec<Request>)
    ensures
        ops_of(r@) == instance_deletions(user@, names_of(instances@)),
{
    let ghost all = names_of(instances@);
    let mut r: Vec<Request> = Vec::new();
    let mut i: usize = 0;
    while i < instances.len()
        invariant
            i <= instances@.len(),
            all == names_of(instances@),
            ops_of(r@) == instance_deletions(user@, all.take(i as int)),
        decreases instances@.len() - i,
    {
        let ghost before = r@;
        proof {
            let p = |n: Seq<char>| owned_by(n, user@);
            let t = all.take(i as int + 1);
            assert(t.drop_last() =~= all.take(i as int));
            assert(t.last() == instances@[i as int]@);
            reveal(Seq::filter);
            assert(t.filter(p) == if p(t.last()) {
                t.drop_last().filter(p).push(t.last())
            } else {
                t.drop_last().filter(p)
            });
        }
        if is_owned_by(instances[i].as_str(), user) {
            r.push(Request::DeleteInstance { name: instances[i].clone() });
            assert(ops_of(r@) =~= ops_of(before).push(Op::DeleteInstance { name: all[i as int] }));
        }
        proof {
            let f = |n: Seq<char>| Op::DeleteInstance { name: n };
            let p = |n: Seq<char>| owned_by(n, user@);
            let t = all.take(i as int + 1);
            if p(all[i as int]) {
                assert(t.filter(p).map_values(f) =~= t.drop_last().filter(p).map_values(f).push(
                    f(all[i as int]),
                ));
            }
        }
        i = i + 1;
    }
    assert(all.take(instances@.len() as int) =~= all);
    r
}

/// The removal of the identity account `user`, member of `group`.
pub fn delete_user(user: &str, group: &str) -> (r: Vec<Request>)
    ensures
        ops_of(r@) == identity_teardown(user@, group@),
{
    let mut r: Vec<Request> = Vec::new();
    r.push(Request::RemoveUserFromGroup { user: user.to_owned(), group: group.to_owned() });
    r.push(Request::DeleteLoginProfile { user: user.to_owned() });
    r.push(Request::DeleteUserPolicy { user: user.to_owned(), policy_name: user_policy_name(user) });
    r.push(Request::DeleteUser { user: user.to_owned() });
    assert(ops_of(r@) =~= identity_teardown(user@, group@));
    r
}

/// The teardown of `user`: the user's instances, then the account.
pub fn delete_user_cascade(user: &str, group: &str, instances: &Vec<String>) -> (r: Vec<Request>)
    ensures
        ops_of(r@) == user_teardown(user@, group@, names_of(instances@)),
{
    let mut r = delete_user_instances(user, instances);
    let mut rest = delete_user(user, group);
    let ghost a = r@;
    let ghost b = rest@;
    r.append(&mut rest);
    assert(ops_of(r@) =~= ops_of(a) + ops_of(b));
    r
}

/// The teardown of `group`, whose members are `members`, given the names of
/// all instances.
pub fn delete_group(group: &str, account_id: &str, members: &Vec<String>, instances: &Vec<String>) -> (r: Vec<Request>)
    ensures
        ops_of(r@) == group_teardown(group@, account_id@, names_of(members@), names_of(instances@)),
{
    let ghost ms = names_of(members@);
    let ghost ns = names_of(instances@);
    let mut r: Vec<Request> = Vec::new();
    let mut i: usize = 0;
    while i < members.len()
        invariant
            i <= members@.len(),
            ms == names_of(members@),
            ns == names_of(instances@),
            ops_of(r@) == members_teardown(group@, ms.take(i as int), ns),
        decreases members@.len() - i,
    {
        let ghost a = r@;
        let mut part = delete_user_cascade(members[i].as_str(), group, instances);
        let ghost b = part@;
        r.append(&mut part);
        proof {
            let t = ms.take(i as int + 1);
            assert(t.drop_last() =~= ms.take(i as int));
            assert(t.last() == members@[i as int]@);
            assert(ops_of(r@) =~= ops_of(a) + ops_of(b));
        }
        i = i + 1;
    }
    assert(ms.take(members@.len() as int) =~= ms);
    let ghost a = r@;
    r.push(Request::DetachGroupPolicy { group: group.to_owned(), policy_arn: group_policy_arn(account_id) });
    r.push(Request::DeleteGroup { group: group.to_owned() });
    assert(ops_of(r@) =~= group_teardown(group@, account_id@, ms, ns));
    r
}

/// The creation of `group` with the shared policy of `account_id` attached.
pub fn create_group(group: &str, account_id: &str) -> (r: Vec<Request>)
    ensures
        ops_of(r@) == group_creation(group@, account_id@),
{
    let mut r: Vec<Request> = Vec::new();
    r.push(Request::CreateGroup { group: group.to_owned() });
    r.push(Request::AttachGroupPolicy { group: group.to_owned(), policy_arn: group_policy_arn(account_id) });
    assert(ops_of(r@) =~= group_creation(group@, account_id@));
    r
}

/// What one delete command removes.
#[derive(Debug, PartialEq, Eq)]
pub enum DeleteTarget {
    /// One instance, by name.
    Instance(String),
    /// A user's instances and account; the account is a member of `group`.
    User { user: String, group: String },
    /// A group with all its members, their instances and accounts.
    Group(String),
}

/// A delete command that names nothing it can remove.
#[derive(Debug, PartialEq, Eq, Structural)]
pub enum UsageError {
    /// Neither an instance nor a group was given.
    MissingTarget,
}

/// Picks what a delete command removes: an instance if one is named;
/// otherwise, with a group, the user if one is named and the whole group if
/// not. A user without a group names nothing.
pub fn resolve_delete_target(
    instance: Option<String>,
    user: Option<String>,
    group: Option<String>,
) -> (r: Result<DeleteTarget, UsageError>)
    ensures
        instance matches Some(i) ==> (r matches Ok(DeleteTarget::Instance(n)) && n@ == i@),
        instance is None && group is None ==> r == Err::<DeleteTarget, UsageError>(
            UsageError::MissingTarget,
        ),
        instance is None && group is Some && user is Some ==> (r matches Ok(
            DeleteTarget::User { user: ru, group: rg },
        ) && ru@ == user->Some_0@ && rg@ == group->Some_0@),
        instance is None && group is Some && user is None ==> (r matches Ok(
            DeleteTarget::Group(rg),
        ) && rg@ == group->Some_0@),
{
    match (instance, group) {
        (Some(i), _) => Ok(DeleteTarget::Instance(i)),
        (None, Some(g)) => match user {
            Some(u) => Ok(DeleteTarget::User { user: u, group: g }),
            None => Ok(DeleteTarget::Group(g)),
        },
        (None, None) => Err(UsageError::MissingTarget),
    }
}

} // verus!
