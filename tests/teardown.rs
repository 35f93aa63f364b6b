use lfr_cli::request::Request;
use lfr_cli::teardown::{
    create_group, delete_group, delete_user, delete_user_cascade, delete_user_instances,
    resolve_delete_target, DeleteTarget, UsageError,
};

fn names(v: &[&str]) -> Vec<String> {
    v.iter().map(|s| s.to_string()).collect()
}

fn del(name: &str) -> Request {
    Request::DeleteInstance { name: name.to_string() }
}

fn identity(user: &str, group: &str) -> Vec<Request> {
    vec![
        Request::RemoveUserFromGroup { user: user.to_string(), group: group.to_string() },
        Request::DeleteLoginProfile { user: user.to_string() },
        Request::DeleteUserPolicy {
            user: user.to_string(),
            policy_name: format!("lfr-{user}-access"),
        },
        Request::DeleteUser { user: user.to_string() },
    ]
}

#[test]
fn user_instances_match_on_exact_token() {
    let listing = names(&[
        "alice-std-small",
        "alice2-std-small",
        "bob-gpu-large",
        "alice-gpu-medium",
        "malice-std-small",
    ]);
    assert_eq!(
        delete_user_instances("alice", &listing),
        vec![del("alice-std-small"), del("alice-gpu-medium")]
    );
}

#[test]
fn user_without_instances_deletes_nothing() {
    let listing = names(&["alice2-std-small", "bob-gpu-large"]);
    assert_eq!(delete_user_instances("alice", &listing), vec![]);
    assert_eq!(delete_user_instances("alice", &names(&[])), vec![]);
}

#[test]
fn identity_teardown_order() {
    assert_eq!(delete_user("bob", "students"), identity("bob", "students"));
}

#[test]
fn user_cascade_deletes_instances_before_identity() {
    let listing = names(&["bob-std-medium", "carol-std-small", "bob-gpu-small"]);
    let mut expected = vec![del("bob-std-medium"), del("bob-gpu-small")];
    expected.extend(identity("bob", "students"));
    assert_eq!(delete_user_cascade("bob", "students", &listing), expected);
}

#[test]
fn group_cascade_is_depth_first_per_user() {
    let listing = names(&["u1-std-small", "u2-gpu-large", "u3-std-small", "u1-gpu-small"]);
    let members = names(&["u1", "u2"]);
    let mut expected = vec![del("u1-std-small"), del("u1-gpu-small")];
    expected.extend(identity("u1", "lab"));
    expected.push(del("u2-gpu-large"));
    expected.extend(identity("u2", "lab"));
    expected.push(Request::DetachGroupPolicy {
        group: "lab".to_string(),
        policy_arn: "arn:aws:iam::42:policy/lfr-student-access".to_string(),
    });
    expected.push(Request::DeleteGroup { group: "lab".to_string() });
    assert_eq!(delete_group("lab", "42", &members, &listing), expected);
}

#[test]
fn empty_group_only_detaches_and_deletes() {
    assert_eq!(
        delete_group("lab", "42", &names(&[]), &names(&["u1-std-small"])),
        vec![
            Request::DetachGroupPolicy {
                group: "lab".to_string(),
                policy_arn: "arn:aws:iam::42:policy/lfr-student-access".to_string(),
            },
            Request::DeleteGroup { group: "lab".to_string() },
        ]
    );
}

#[test]
fn group_creation_attaches_shared_policy() {
    assert_eq!(
        create_group("students", "123456789012"),
        vec![
            Request::CreateGroup { group: "students".to_string() },
            Request::AttachGroupPolicy {
                group: "students".to_string(),
                policy_arn: "arn:aws:iam::123456789012:policy/lfr-student-access".to_string(),
            },
        ]
    );
}

#[test]
fn delete_target_prefers_instance() {
    assert_eq!(
        resolve_delete_target(Some("a-std-small".to_string()), Some("a".to_string()), Some("g".to_string())),
        Ok(DeleteTarget::Instance("a-std-small".to_string()))
    );
}

#[test]
fn delete_target_user_needs_group() {
    assert_eq!(
        resolve_delete_target(None, Some("a".to_string()), Some("g".to_string())),
        Ok(DeleteTarget::User { user: "a".to_string(), group: "g".to_string() })
    );
    assert_eq!(
        resolve_delete_target(None, Some("a".to_string()), None),
        Err(UsageError::MissingTarget)
    );
}

#[test]
fn delete_target_group_alone() {
    assert_eq!(
        resolve_delete_target(None, None, Some("g".to_string())),
        Ok(DeleteTarget::Group("g".to_string()))
    );
}

#[test]
fn delete_target_missing() {
    assert_eq!(resolve_delete_target(None, None, None), Err(UsageError::MissingTarget));
}
