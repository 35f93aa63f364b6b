use lfr_cli::config::{build_iam_config, build_instance_config, build_policy_doc};
use lfr_cli::provision::{
    Action, IdentityLifecycle, IdentityStage, InstanceLifecycle, InstanceStage, Reply,
};
use lfr_cli::request::Request;

fn s(v: &str) -> String {
    v.to_string()
}

fn call(r: Request) -> Action {
    Action::Call(r)
}

#[test]
fn new_bob_end_to_end() {
    let config = build_instance_config("bob", "medium", "std", "eu-west-2a").unwrap();
    let (mut m, first) = InstanceLifecycle::create_instance(config);
    match first {
        Request::CreateInstances { config } => {
            assert_eq!(config.name, "bob-std-medium");
            assert_eq!(config.bundle_id, "app_standard_medium_1_0");
            assert_eq!(config.idle_threshold, "1");
            assert_eq!(config.idle_duration, "20");
        }
        other => panic!("unexpected first request {other:?}"),
    }
    let name = s("bob-std-medium");
    let state = call(Request::GetInstanceState { name: name.clone() });
    assert_eq!(m.step(Reply::Succeeded), state);
    assert_eq!(m.step(Reply::State(s("pending"))), call(Request::Sleep { secs: 5 }));
    assert_eq!(m.step(Reply::Succeeded), state);
    assert_eq!(m.step(Reply::State(s("pending"))), call(Request::Sleep { secs: 5 }));
    assert_eq!(m.step(Reply::Succeeded), state);
    assert_eq!(
        m.step(Reply::State(s("running"))),
        call(Request::StopInstance { name: name.clone() })
    );
    assert_eq!(m.poller.fetches, 3);
    assert_eq!(m.step(Reply::Succeeded), state);
    assert_eq!(
        m.step(Reply::State(s("stopping"))),
        call(Request::GetInstance { name: name.clone() })
    );
    let arn = "arn:aws:lightsail:eu-west-2:123456789012:Instance/bob";
    assert_eq!(m.step(Reply::Arn(s(arn))), Action::Finished);
    assert_eq!(m.stage, InstanceStage::Done);
    assert_eq!(m.arn, arn);

    let (mut u, first) = IdentityLifecycle::create_user(build_iam_config("bob", "students", &m.arn));
    assert_eq!(first, Request::CreateUser { user: s("bob") });
    assert_eq!(
        u.step(Reply::Succeeded),
        call(Request::AddUserToGroup { user: s("bob"), group: s("students") })
    );
    assert_eq!(u.step(Reply::Succeeded), call(Request::GetRandomPassword { length: 8 }));
    let password = "x7#Kp2Lq";
    assert_eq!(password.len(), 8);
    assert_eq!(
        u.step(Reply::Password(s(password))),
        call(Request::CreateLoginProfile {
            user: s("bob"),
            password: s(password),
            reset_required: true,
        })
    );
    assert_eq!(
        u.step(Reply::Succeeded),
        call(Request::PutUserPolicy {
            user: s("bob"),
            policy_name: s("lfr-bob-access"),
            document: build_policy_doc(s(arn)),
        })
    );
    assert_eq!(
        u.step(Reply::Succeeded),
        call(Request::ReportPassword { user: s("bob"), password: s(password) })
    );
    assert_eq!(u.step(Reply::Succeeded), call(Request::GetUser { user: s("bob") }));
    assert_eq!(u.step(Reply::Succeeded), Action::Finished);
    assert_eq!(u.stage, IdentityStage::Done);
}

#[test]
fn duplicate_instance_creation_is_fatal() {
    let config = build_instance_config("bob", "medium", "std", "z").unwrap();
    let (mut m, _) = InstanceLifecycle::create_instance(config);
    assert_eq!(m.step(Reply::Failed), Action::Aborted);
    assert_eq!(m.stage, InstanceStage::Failed);
    assert_eq!(m.step(Reply::Succeeded), Action::Aborted);
    assert_eq!(m.step(Reply::State(s("running"))), Action::Aborted);
}

#[test]
fn duplicate_user_creation_is_fatal() {
    let (mut u, _) = IdentityLifecycle::create_user(build_iam_config("bob", "students", "arn:x"));
    assert_eq!(u.step(Reply::Failed), Action::Aborted);
    assert_eq!(u.stage, IdentityStage::Failed);
    assert_eq!(u.step(Reply::Succeeded), Action::Aborted);
}

#[test]
fn failed_stop_still_fetches_details() {
    let config = build_instance_config("amy", "small", "gpu", "z").unwrap();
    let (mut m, _) = InstanceLifecycle::create_instance(config);
    m.step(Reply::Succeeded);
    assert_eq!(
        m.step(Reply::State(s("running"))),
        call(Request::StopInstance { name: s("amy-gpu-small") })
    );
    assert_eq!(
        m.step(Reply::Failed),
        call(Request::GetInstance { name: s("amy-gpu-small") })
    );
    assert_eq!(m.stage, InstanceStage::Fetching);
}

#[test]
fn failed_state_fetch_goes_to_details() {
    let config = build_instance_config("amy", "small", "std", "z").unwrap();
    let (mut m, _) = InstanceLifecycle::create_instance(config);
    m.step(Reply::Succeeded);
    assert_eq!(
        m.step(Reply::Failed),
        call(Request::GetInstance { name: s("amy-std-small") })
    );
}

#[test]
fn failed_detail_fetch_aborts() {
    let config = build_instance_config("amy", "small", "std", "z").unwrap();
    let (mut m, _) = InstanceLifecycle::create_instance(config);
    m.step(Reply::Succeeded);
    m.step(Reply::State(s("running")));
    m.step(Reply::Succeeded);
    m.step(Reply::State(s("stopping")));
    assert_eq!(m.step(Reply::Failed), Action::Aborted);
    assert_eq!(m.stage, InstanceStage::Failed);
    assert_eq!(m.arn, "");
}

#[test]
fn identity_steps_after_creation_are_fatal_on_failure() {
    let (mut u, _) = IdentityLifecycle::create_user(build_iam_config("bob", "students", "arn:x"));
    u.step(Reply::Succeeded);
    u.step(Reply::Succeeded);
    assert_eq!(u.step(Reply::Failed), Action::Aborted);
    assert_eq!(u.stage, IdentityStage::Failed);
}
