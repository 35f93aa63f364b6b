//! The provider requests that the library's plans and state machines issue.
use vstd::prelude::*;
use crate::config::{InstanceConfig, InstanceConfigView};

verus! {

/// One call into the compute, identity or secrets provider, or a pause.
#[derive(Debug, PartialEq, Eq)]
pub enum Request {
    /// Create the instance described, with the stop-on-idle add-on.
    CreateInstances { config: InstanceConfig },
    /// Read the lifecycle state of an instance.
    GetInstanceState { name: String },
    /// Wait before the next request.
    Sleep { secs: u64 },
    /// Ask for an instance to be stopped.
    StopInstance { name: String },
    /// Read the details of an instance.
    GetInstance { name: String },
    /// Delete an instance together with its add-ons.
    DeleteInstance { name: String },
    /// Create an identity account.
    CreateUser { user: String },
    /// Add an account to a group.
    AddUserToGroup { user: String, group: String },
    /// Draw a random password of the given length from the secrets provider.
    GetRandomPassword { length: u64 },
    /// Give an account a login profile.
    CreateLoginProfile { user: String, password: String, reset_required: bool },
    /// Attach an inline policy to an account.
    PutUserPolicy { user: String, policy_name: String, document: String },
    /// Show the one-time password of a new account to the operator.
    ReportPassword { user: String, password: String },
    /// Read the details of an account.
    GetUser { user: String },
    /// Remove an account from a group.
    RemoveUserFromGroup { user: String, group: String },
    /// Delete the login profile of an account.
    DeleteLoginProfile { user: String },
    /// Delete an inline policy of an account.
    DeleteUserPolicy { user: String, policy_name: String },
    /// Delete an account.
    DeleteUser { user: String },
    /// Create a group.
    CreateGroup { group: String },
    /// Attach a managed policy to a group.
    AttachGroupPolicy { group: String, policy_arn: String },
    /// Detach a managed policy from a group.
    DetachGroupPolicy { group: String, policy_arn: String },
    /// Delete a group.
    DeleteGroup { group: String },
}

/// Mathematical model of a [`Request`].
pub enum Op {
    CreateInstances { config: InstanceConfigView },
    GetInstanceState { name: Seq<char> },
    Sleep { secs: nat },
    StopInstance { name: Seq<char> },
    GetInstance { name: Seq<char> },
    DeleteInstance { name: Seq<char> },
    CreateUser { user: Seq<char> },
    AddUserToGroup { user: Seq<char>, group: Seq<char> },
    GetRandomPassword { length: nat },
    CreateLoginProfile { user: Seq<char>, password: Seq<char>, reset_required: bool },
    PutUserPolicy { user: Seq<char>, policy_name: Seq<char>, document: Seq<char> },
    ReportPassword { user: Seq<char>, password: Seq<char> },
    GetUser { user: Seq<char> },
    RemoveUserFromGroup { user: Seq<char>, group: Seq<char> },
    DeleteLoginProfile { user: Seq<char> },
    DeleteUserPolicy { user: Seq<char>, policy_name: Seq<char> },
    DeleteUser { user: Seq<char> },
    CreateGroup { group: Seq<char> },
    AttachGroupPolicy { group: Seq<char>, policy_arn: Seq<char> },
    DetachGroupPolicy { group: Seq<char>, policy_arn: Seq<char> },
    DeleteGroup { group: Seq<char> },
}

impl View for Request {
    type V = Op;

    open spec fn view(&self) -> Op {
        match self {
            Request::CreateInstances { config } => Op::CreateInstances { config: config@ },
            Request::GetInstanceState { name } => Op::GetInstanceState { name: name@ },
            Request::Sleep { secs } => Op::Sleep { secs: *secs as nat },
            Request::StopInstance { name } => Op::StopInstance { name: name@ },
            Request::GetInstance { name } => Op::GetInstance { name: name@ },
            Request::DeleteInstance { name } => Op::DeleteInstance { name: name@ },
            Request::CreateUser { user } => Op::CreateUser { user: user@ },
            Request::AddUserToGroup { user, group } => Op::AddUserToGroup {
                user: user@,
                group: group@,
            },
            Request::GetRandomPassword { length } => Op::GetRandomPassword {
                length: *length as nat,
            },
            Request::CreateLoginProfile { user, password, reset_required } => {
                Op::CreateLoginProfile {
                    user: user@,
                    password: password@,
                    reset_required: *reset_required,
                }
            },
            Request::PutUserPolicy { user, policy_name, document } => Op::PutUserPolicy {
                user: user@,
                policy_name: policy_name@,
                document: document@,
            },
            Request::ReportPassword { user, password } => Op::ReportPassword {
                user: user@,
                password: password@,
            },
            Request::GetUser { user } => Op::GetUser { user: user@ },
            Request::RemoveUserFromGroup { user, group } => Op::RemoveUserFromGroup {
                user: user@,
                group: group@,
            },
            Request::DeleteLoginProfile { user } => Op::DeleteLoginProfile { user: user@ },
            Request::DeleteUserPolicy { user, policy_name } => Op::DeleteUserPolicy {
                user: user@,
                policy_name: policy_name@,
            },
            Request::DeleteUser { user } => Op::DeleteUser { user: user@ },
            Request::CreateGroup { group } => Op::CreateGroup { group: group@ },
            Request::AttachGroupPolicy { group, policy_arn } => Op::AttachGroupPolicy {
                group: group@,
                policy_arn: policy_arn@,
            },
            Request::DetachGroupPolicy { group, policy_arn } => Op::DetachGroupPolicy {
                group: group@,
                policy_arn: policy_arn@,
            },
            Request::DeleteGroup { group } => Op::DeleteGroup { group: group@ },
        }
    }
}

/// The models of a list of requests, in order.
pub open spec fn ops_of(v: Seq<Request>) -> Seq<Op> {
    v.map_values(|r: Request| r@)
}

} // verus!
