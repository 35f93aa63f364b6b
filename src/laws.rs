//! Properties that relate the library's plans, documents and flows.
use vstd::prelude::*;
use crate::config::{group_policy_arn_spec, policy_closing, policy_doc_spec, policy_preamble, resource_key};
use crate::ownership::owned_by;
use crate::provision::{identity_next, instance_next, IdentityStage, InstanceStage, Next, ReplyView};
use crate::request::Op;
use crate::teardown::{group_teardown, identity_teardown, instance_deletions, members_teardown, owned_names};

verus! {

/// How many times `x` occurs in `s`.
pub open spec fn occurrences<A>(s: Seq<A>, x: A) -> nat
    decreases s.len(),
{
    if s.len() == 0 {
        0
    } else {
        occurrences(s.drop_last(), x) + if s.last() == x {
            1nat
        } else {
            0nat
        }
    }
}

/// The policy document for `arn` is a fixed preamble, the key
/// `"Resource": "`, the ARN itself, and a fixed closing that starts by ending
/// the value: the statement's one resource is exactly `arn`.
pub proof fn lemma_policy_scoped_to_arn(arn: Seq<char>)
    ensures
        ({
            let d = policy_doc_spec(arn);
            let k = (policy_preamble().len() + resource_key().len()) as int;
            &&& d.subrange(0, k) == policy_preamble() + resource_key()
            &&& resource_key() == "\"Resource\": \""@
            &&& d.subrange(k, k + arn.len()) == arn
            &&& d[k + arn.len()] == '"'
            &&& d.subrange(k + arn.len(), d.len() as int) == policy_closing()
        }),
{
    let d = policy_doc_spec(arn);
    let k = (policy_preamble().len() + resource_key().len()) as int;
    let head = policy_preamble() + resource_key();
    assert(d == head + arn + policy_closing());
    assert(d.subrange(0, k) =~= head);
    assert(d.subrange(k, k + arn.len()) =~= arn);
    assert(d.subrange(k + arn.len(), d.len() as int) =~= policy_closing());
    reveal_strlit("\"");
    assert(policy_closing()[0] == '"');
    assert(d[k + arn.len()] == d.subrange(k + arn.len(), d.len() as int)[0]);
}

proof fn lemma_absent_occurs_never<A>(s: Seq<A>, x: A)
    requires
        !s.contains(x),
    ensures
        occurrences(s, x) == 0,
    decreases s.len(),
{
    if s.len() > 0 {
        assert(s.drop_last().contains(x) ==> s.contains(x)) by {
            if s.drop_last().contains(x) {
                let i = choose|i: int| 0 <= i < s.drop_last().len() && s.drop_last()[i] == x;
                assert(s[i] == x);
            }
        }
        assert(s.last() == s[s.len() - 1]);
        lemma_absent_occurs_never(s.drop_last(), x);
    }
}

proof fn lemma_distinct_occurs_once<A>(s: Seq<A>, x: A)
    requires
        s.no_duplicates(),
        s.contains(x),
    ensures
        occurrences(s, x) == 1,
    decreases s.len(),
{
    let p = s.drop_last();
    assert(p.no_duplicates());
    if s.last() == x {
        assert(!p.contains(x)) by {
            if p.contains(x) {
                let i = choose|i: int| 0 <= i < p.len() && p[i] == x;
                assert(s[i] == s[s.len() - 1]);
            }
        }
        lemma_absent_occurs_never(p, x);
    } else {
        let i = choose|i: int| 0 <= i < s.len() && s[i] == x;
        assert(i < s.len() - 1);
        assert(p[i] == x);
        lemma_distinct_occurs_once(p, x);
    }
}

/// A user's instance deletions name each instance of the listing whose first
/// `-`-delimited token is exactly `user` as often as the listing does, and no
/// other instance; with distinct names, each such instance is deleted once.
pub proof fn lemma_instance_deletions_exact(user: Seq<char>, names: Seq<Seq<char>>, n: Seq<char>)
    ensures
        occurrences(instance_deletions(user, names), Op::DeleteInstance { name: n }) == if owned_by(
            n,
            user,
        ) {
            occurrences(names, n)
        } else {
            0
        },
        names.no_duplicates() && names.contains(n) && owned_by(n, user) ==> occurrences(
            instance_deletions(user, names),
            Op::DeleteInstance { name: n },
        ) == 1,
        forall|i: int|
            0 <= i < instance_deletions(user, names).len() ==> #[trigger] instance_deletions(
                user,
                names,
            )[i] is DeleteInstance,
    decreases names.len(),
{
    let f = |m: Seq<char>| Op::DeleteInstance { name: m };
    let p = |m: Seq<char>| owned_by(m, user);
    let o = Op::DeleteInstance { name: n };
    if names.len() > 0 {
        let rest = names.drop_last();
        lemma_instance_deletions_exact(user, rest, n);
        reveal(Seq::filter);
        assert(owned_names(user, names) == if p(names.last()) {
            owned_names(user, rest).push(names.last())
        } else {
            owned_names(user, rest)
        });
        if p(names.last()) {
            let d = instance_deletions(user, names);
            assert(d =~= instance_deletions(user, rest).push(f(names.last())));
            assert(d.drop_last() =~= instance_deletions(user, rest));
        }
    }
    if names.no_duplicates() && names.contains(n) && owned_by(n, user) {
        lemma_distinct_occurs_once(names, n);
    }
}

/// Deleting a group whose members are `members` followed by `u` tears down
/// the earlier members first, then `u`'s instances, then `u`'s account, and
/// only then detaches the shared policy and deletes the group.
pub proof fn lemma_group_teardown_depth_first(
    group: Seq<char>,
    account_id: Seq<char>,
    members: Seq<Seq<char>>,
    u: Seq<char>,
    names: Seq<Seq<char>>,
)
    ensures
        group_teardown(group, account_id, members.push(u), names) == members_teardown(
            group,
            members,
            names,
        ) + instance_deletions(u, names) + identity_teardown(u, group) + seq![
            Op::DetachGroupPolicy { group: group, policy_arn: group_policy_arn_spec(account_id) },
            Op::DeleteGroup { group: group },
        ],
{
    let ms = members.push(u);
    assert(ms.drop_last() =~= members);
    assert(members_teardown(group, ms, names) == members_teardown(group, members, names) + (
    instance_deletions(u, names) + identity_teardown(u, group)));
    assert(members_teardown(group, members, names) + (instance_deletions(u, names)
        + identity_teardown(u, group)) =~= members_teardown(group, members, names)
        + instance_deletions(u, names) + identity_teardown(u, group));
}

/// Deleting a group with members `u1` and `u2` removes, in order, `u1`'s
/// instances, `u1`'s account, `u2`'s instances, `u2`'s account, the group's
/// shared policy attachment and the group.
pub proof fn lemma_group_teardown_two_members(
    group: Seq<char>,
    account_id: Seq<char>,
    u1: Seq<char>,
    u2: Seq<char>,
    names: Seq<Seq<char>>,
)
    ensures
        group_teardown(group, account_id, seq![u1, u2], names) == instance_deletions(u1, names)
            + identity_teardown(u1, group) + instance_deletions(u2, names) + identity_teardown(
            u2,
            group,
        ) + seq![
            Op::DetachGroupPolicy { group: group, policy_arn: group_policy_arn_spec(account_id) },
            Op::DeleteGroup { group: group },
        ],
{
    let one = seq![u1];
    assert(seq![u1, u2] =~= one.push(u2));
    lemma_group_teardown_depth_first(group, account_id, one, u2, names);
    assert(one.drop_last() =~= Seq::<Seq<char>>::empty());
    assert(one.last() == u1);
    assert(members_teardown(group, one.drop_last(), names) =~= Seq::<Op>::empty());
    assert(members_teardown(group, one, names) =~= instance_deletions(u1, names)
        + identity_teardown(u1, group));
}

/// A failed creation is fatal in both provisioning flows: the flow aborts at
/// once, and an aborted flow issues no further request whatever it is told.
pub proof fn lemma_failed_creation_is_fatal(
    name: Seq<char>,
    user: Seq<char>,
    group: Seq<char>,
    arn: Seq<char>,
    password: Seq<char>,
    reply: ReplyView,
    later: ReplyView,
)
    requires
        !(reply is Succeeded),
    ensures
        instance_next(InstanceStage::Creating, name, reply) == (InstanceStage::Failed, Next::Aborted),
        instance_next(InstanceStage::Failed, name, later) == (InstanceStage::Failed, Next::Aborted),
        identity_next(IdentityStage::Creating, user, group, arn, password, reply) == (
            IdentityStage::Failed,
            Next::Aborted,
        ),
        identity_next(IdentityStage::Failed, user, group, arn, password, later) == (
            IdentityStage::Failed,
            Next::Aborted,
        ),
{
}

} // verus!
