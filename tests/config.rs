use lfr_cli::config::{
    build_iam_config, build_instance_config, build_policy_doc, group_policy_arn, user_policy_name,
    ConfigError,
};

#[test]
fn std_instance_config_follows_naming_convention() {
    let c = build_instance_config("bob", "medium", "std", "eu-west-2a").unwrap();
    assert_eq!(c.name, "bob-std-medium");
    assert_eq!(c.zone, "eu-west-2a");
    assert_eq!(c.blueprint_id, "lfr_ubuntu_1_0");
    assert_eq!(c.bundle_id, "app_standard_medium_1_0");
    assert_eq!(c.idle_threshold, "1");
    assert_eq!(c.idle_duration, "20");
}

#[test]
fn gpu_instance_config_uses_gpu_bundle() {
    let c = build_instance_config("alice", "xlarge", "gpu", "us-east-1a").unwrap();
    assert_eq!(c.name, "alice-gpu-xlarge");
    assert_eq!(c.bundle_id, "gpu_nvidia_xlarge_1_0");
    assert_eq!(c.zone, "us-east-1a");
}

#[test]
fn unknown_machine_type_is_rejected() {
    assert_eq!(
        build_instance_config("bob", "medium", "arm", "eu-west-2a").err(),
        Some(ConfigError::UnknownMachineType)
    );
    assert_eq!(
        build_instance_config("bob", "medium", "", "eu-west-2a").err(),
        Some(ConfigError::UnknownMachineType)
    );
    assert_eq!(
        build_instance_config("bob", "medium", "STD", "eu-west-2a").err(),
        Some(ConfigError::UnknownMachineType)
    );
}

#[test]
fn distinct_triples_get_distinct_names() {
    let a = build_instance_config("bob", "small", "std", "z").unwrap();
    let b = build_instance_config("bob", "small", "gpu", "z").unwrap();
    let c = build_instance_config("bob", "medium", "std", "z").unwrap();
    let d = build_instance_config("rob", "small", "std", "z").unwrap();
    assert_ne!(a.name, b.name);
    assert_ne!(a.name, c.name);
    assert_ne!(a.name, d.name);
}

#[test]
fn iam_config_holds_its_arguments() {
    let c = build_iam_config("bob", "students", "arn:aws:lightsail:eu-west-2:1:Instance/x");
    assert_eq!(c.user, "bob");
    assert_eq!(c.group, "students");
    assert_eq!(c.arn, "arn:aws:lightsail:eu-west-2:1:Instance/x");
}

#[test]
fn policy_document_is_scoped_to_the_arn() {
    let arn = "arn:aws:lightsail:eu-west-2:123456789012:Instance/abc";
    let doc = build_policy_doc(arn.to_string());
    let expected = format!(
        "{{\n        \"Version\": \"2012-10-17\",\n        \"Statement\": [\n            {{\n                \"Effect\": \"Allow\",\n                \"Action\": [\n                    \"lightsail:*\"\n                ],\n                \"Resource\": \"{arn}\"\n            }}\n        ]\n    }}"
    );
    assert_eq!(doc, expected);
    assert_eq!(doc.matches("\"Resource\"").count(), 1);
    assert!(doc.contains(&format!("\"Resource\": \"{arn}\"")));
    assert!(!doc.contains("\"Resource\": \"*\""));
}

#[test]
fn policy_documents_differ_per_instance() {
    let a = build_policy_doc("arn:a".to_string());
    let b = build_policy_doc("arn:b".to_string());
    assert_ne!(a, b);
    assert!(a.contains("\"Resource\": \"arn:a\""));
    assert!(!a.contains("arn:b"));
}

#[test]
fn user_policy_name_wraps_the_user() {
    assert_eq!(user_policy_name("bob"), "lfr-bob-access");
    assert_eq!(user_policy_name(""), "lfr--access");
}

#[test]
fn group_policy_arn_names_the_account() {
    assert_eq!(
        group_policy_arn("123456789012"),
        "arn:aws:iam::123456789012:policy/lfr-student-access"
    );
}
