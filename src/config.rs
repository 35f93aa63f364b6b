//! Resource names, configuration records and the per-instance policy document.
use vstd::prelude::*;

verus! {

/// Machine image every lab instance is created from.
pub const BLUEPRINT_ID: &'static str = "lfr_ubuntu_1_0";

/// Average CPU utilisation (percent) under which an instance counts as idle.
pub const IDLE_THRESHOLD: &'static str = "1";

/// Minutes of idleness after which an instance is stopped.
pub const IDLE_DURATION: &'static str = "20";

/// Everything needed to create one compute instance.
#[derive(Debug, PartialEq, Eq)]
pub struct InstanceConfig {
    pub name: String,
    pub zone: String,
    pub blueprint_id: String,
    pub bundle_id: String,
    pub idle_threshold: String,
    pub idle_duration: String,
}

/// Mathematical model of an [`InstanceConfig`].
pub struct InstanceConfigView {
    pub name: Seq<char>,
    pub zone: Seq<char>,
    pub blueprint_id: Seq<char>,
    pub bundle_id: Seq<char>,
    pub idle_threshold: Seq<char>,
    pub idle_duration: Seq<char>,
}

impl View for InstanceConfig {
    type V = InstanceConfigView;

    open spec fn view(&self) -> InstanceConfigView {
        InstanceConfigView {
            name: self.name@,
            zone: self.zone@,
            blueprint_id: self.blueprint_id@,
            bundle_id: self.bundle_id@,
            idle_threshold: self.idle_threshold@,
            idle_duration: self.idle_duration@,
        }
    }
}

/// Everything needed to create the identity account paired with an instance.
#[derive(Debug, PartialEq, Eq)]
pub struct IamConfig {
    pub user: String,
    pub group: String,
    pub arn: String,
}

/// Mathematical model of an [`IamConfig`].
pub struct IamConfigView {
    pub user: Seq<char>,
    pub group: Seq<char>,
    pub arn: Seq<char>,
}

impl View for IamConfig {
    type V = IamConfigView;

    open spec fn view(&self) -> IamConfigView {
        IamConfigView { user: self.user@, group: self.group@, arn: self.arn@ }
    }
}

/// Why a configuration could not be built.
#[derive(Debug, PartialEq, Eq, Structural)]
pub enum ConfigError {
    /// The machine type is neither `gpu` nor `std`.
    UnknownMachineType,
}

/// The machine types an instance can have.
pub open spec fn is_machine_type(mtype: Seq<char>) -> bool {
    mtype == "gpu"@ || mtype == "std"@
}

/// `<user>-<mtype>-<size>`: the name that later ties the instance to its user.
pub open spec fn instance_name_spec(user: Seq<char>, mtype: Seq<char>, size: Seq<char>) -> Seq<char> {
    user + "-"@ + mtype + "-"@ + size
}

/// The bundle (hardware size) identifier for a machine type and a size.
pub open spec fn bundle_id_spec(mtype: Seq<char>, size: Seq<char>) -> Seq<char> {
    if mtype == "gpu"@ {
        "gpu_nvidia_"@ + size + "_1_0"@
    } else {
        "app_standard_"@ + size + "_1_0"@
    }
}

/// The configuration that [`build_instance_config`] builds for a valid machine type.
pub open spec fn instance_config_spec(
    user: Seq<char>,
    size: Seq<char>,
    mtype: Seq<char>,
    zone: Seq<char>,
) -> InstanceConfigView {
    InstanceConfigView {
        name: instance_name_spec(user, mtype, size),
        zone: zone,
        blueprint_id: BLUEPRINT_ID@,
        bundle_id: bundle_id_spec(mtype, size),
        idle_threshold: IDLE_THRESHOLD@,
        idle_duration: IDLE_DURATION@,
    }
}

/// Builds the configuration of the instance `<user>-<mtype>-<size>` in `zone`.
/// A machine type other than `gpu` or `std` is rejected.
pub fn build_instance_config(user: &str, size: &str, mtype: &str, zone: &str) -> (r: Result<
    InstanceConfig,
    ConfigError,
>)
    ensures
        is_machine_type(mtype@) ==> (r matches Ok(c) && c@ == instance_config_spec(
            user@,
            size@,
            mtype@,
            zone@,
        )),
        !is_machine_type(mtype@) ==> r == Err::<InstanceConfig, ConfigError>(
            ConfigError::UnknownMachineType,
        ),
{
    let kind = mtype.to_owned();
    let bundle_id = if kind == String::from_str("gpu") {
        String::from_str("gpu_nvidia_").concat(size).concat("_1_0")
    } else if kind == String::from_str("std") {
        String::from_str("app_standard_").concat(size).concat("_1_0")
    } else {
        return Err(ConfigError::UnknownMachineType);
    };
    let name = user.to_owned().concat("-").concat(mtype).concat("-").concat(size);
    Ok(
        InstanceConfig {
            name,
            zone: zone.to_owned(),
            blueprint_id: BLUEPRINT_ID.to_owned(),
            bundle_id,
            idle_threshold: IDLE_THRESHOLD.to_owned(),
            idle_duration: IDLE_DURATION.to_owned(),
        },
    )
}

/// Assembles the identity request for `user` in `group`, scoped to `arn`.
pub fn build_iam_config(user: &str, group: &str, arn: &str) -> (r: IamConfig)
    ensures
        r@ == (IamConfigView { user: user@, group: group@, arn: arn@ }),
{
    IamConfig { user: user.to_owned(), group: group.to_owned(), arn: arn.to_owned() }
}

/// Name of the inline access policy attached to a user's account.
pub open spec fn user_policy_name_spec(user: Seq<char>) -> Seq<char> {
    "lfr-"@ + user + "-access"@
}

/// Builds `lfr-<user>-access`.
pub fn user_policy_name(user: &str) -> (r: String)
    ensures
        r@ == user_policy_name_spec(user@),
{
    String::from_str("lfr-").concat(user).concat("-access")
}

/// ARN of the shared managed policy attached to every group of the account.
pub open spec fn group_policy_arn_spec(account_id: Seq<char>) -> Seq<char> {
    "arn:aws:iam::"@ + account_id + ":policy/lfr-student-access"@
}

/// Builds the ARN of the shared group policy of account `account_id`.
pub fn group_policy_arn(account_id: &str) -> (r: String)
    ensures
        r@ == group_policy_arn_spec(account_id@),
{
    String::from_str("arn:aws:iam::").concat(account_id).concat(":policy/lfr-student-access")
}

/// Text of the policy document up to the value of its single `Resource`.
pub open spec fn policy_preamble() -> Seq<char> {
    "{\n        \"Version\": \"2012-10-17\",\n        \"Statement\": [\n            {\n                \"Effect\": \"Allow\",\n                \"Action\": [\n                    \"lightsail:*\"\n                ],\n                "@
}

/// The key that introduces the resource the statement applies to.
pub open spec fn resource_key() -> Seq<char> {
    "\"Resource\": \""@
}

/// Text of the policy document after the resource value.
pub open spec fn policy_closing() -> Seq<char> {
    "\""@ + "\n            }\n        ]\n    }"@
}

/// The policy document allowing every action on the one instance `arn`.
pub open spec fn policy_doc_spec(arn: Seq<char>) -> Seq<char> {
    policy_preamble() + resource_key() + arn + policy_closing()
}

/// Renders the single-statement policy document scoped to `instance_arn`.
pub fn build_policy_doc(instance_arn: String) -> (r: String)
    ensures
        r@ == policy_doc_spec(instance_arn@),
{
    let doc = String::from_str(
        "{\n        \"Version\": \"2012-10-17\",\n        \"Statement\": [\n            {\n                \"Effect\": \"Allow\",\n                \"Action\": [\n                    \"lightsail:*\"\n                ],\n                ",
    );
    let doc = doc.concat("\"Resource\": \"");
    let doc = doc.concat(instance_arn.as_str());
    let doc = doc.concat("\"");
    doc.concat("\n            }\n        ]\n    }")
}

} // verus!
