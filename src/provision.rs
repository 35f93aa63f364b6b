//! The two provisioning flows as state machines. Each step takes the
//! provider's reply to the previous request and names the next request; the
//! caller performs it and hands the reply back.
use vstd::prelude::*;
use crate::config::{
    build_policy_doc,
    policy_doc_spec,
    user_policy_name,
    user_policy_name_spec,
    IamConfig,
    InstanceConfig,
};
use crate::poll::{Poller, POLL_INTERVAL_SECS};
use crate::request::{Op, Request};

verus! {

/// State in which a new instance is running.
pub const RUNNING: &'static str = "running";

/// State in which a stopped instance is winding down.
pub const STOPPING: &'static str = "stopping";

/// Length of the one-time password of a new account.
pub const PASSWORD_LENGTH: u64 = 8;

/// The provider's answer to the last request.
#[derive(Debug, PartialEq, Eq)]
pub enum Reply {
    /// The request succeeded and returned nothing the flow reads.
    Succeeded,
    /// The request failed.
    Failed,
    /// The lifecycle state of an instance.
    State(String),
    /// The ARN in an instance's details.
    Arn(String),
    /// A random password from the secrets provider.
    Password(String),
}

/// Mathematical model of a [`Reply`].
pub enum ReplyView {
    Succeeded,
    Failed,
    State(Seq<char>),
    Arn(Seq<char>),
    Password(Seq<char>),
}

impl View for Reply {
    type V = ReplyView;

    open spec fn view(&self) -> ReplyView {
        match self {
            Reply::Succeeded => ReplyView::Succeeded,
            Reply::Failed => ReplyView::Failed,
            Reply::State(s) => ReplyView::State(s@),
            Reply::Arn(a) => ReplyView::Arn(a@),
            Reply::Password(p) => ReplyView::Password(p@),
        }
    }
}

/// What a flow does next.
#[derive(Debug, PartialEq, Eq)]
pub enum Action {
    /// Perform this request and hand its reply to the next step.
    Call(Request),
    /// The flow completed.
    Finished,
    /// The flow stopped on a fatal error.
    Aborted,
}

/// Mathematical model of an [`Action`].
pub enum Next {
    Call(Op),
    Finished,
    Aborted,
}

impl View for Action {
    type V = Next;

    open spec fn view(&self) -> Next {
        match self {
            Action::Call(q) => Next::Call(q@),
            Action::Finished => Next::Finished,
            Action::Aborted => Next::Aborted,
        }
    }
}

/// Where the creation of an instance stands.
#[derive(Clone, Copy, Debug, PartialEq, Eq, Structural)]
pub enum InstanceStage {
    /// The create request is out.
    Creating,
    /// A state fetch is out; waiting for `running`.
    AwaitRunning,
    /// Pausing before the next fetch of the running wait.
    PauseRunning,
    /// The stop request is out.
    Stopping,
    /// A state fetch is out; waiting for `stopping`.
    AwaitStopping,
    /// Pausing before the next fetch of the stopping wait.
    PauseStopping,
    /// The request for the instance's details is out.
    Fetching,
    /// The details arrived.
    Done,
    /// Creation or the final fetch failed.
    Failed,
}

/// The step of the instance flow from `stage` on `reply`, for instance `name`:
/// the next stage and what to do. Failures after creation are not fatal:
/// the flow goes on to fetch the instance's details.
pub open spec fn instance_next(stage: InstanceStage, name: Seq<char>, reply: ReplyView) -> (
    InstanceStage,
    Next,
) {
    let fetch_state = Next::Call(Op::GetInstanceState { name: name });
    let pause = Next::Call(Op::Sleep { secs: POLL_INTERVAL_SECS as nat });
    let fetch_details = Next::Call(Op::GetInstance { name: name });
    match stage {
        InstanceStage::Creating => if reply is Succeeded {
            (InstanceStage::AwaitRunning, fetch_state)
        } else {
            (InstanceStage::Failed, Next::Aborted)
        },
        InstanceStage::AwaitRunning => match reply {
            ReplyView::State(s) => if s == RUNNING@ {
                (InstanceStage::Stopping, Next::Call(Op::StopInstance { name: name }))
            } else {
                (InstanceStage::PauseRunning, pause)
            },
            _ => (InstanceStage::Fetching, fetch_details),
        },
        InstanceStage::PauseRunning => (InstanceStage::AwaitRunning, fetch_state),
        InstanceStage::Stopping => if reply is Succeeded {
            (InstanceStage::AwaitStopping, fetch_state)
        } else {
            (InstanceStage::Fetching, fetch_details)
        },
        InstanceStage::AwaitStopping => match reply {
            ReplyView::State(s) => if s == STOPPING@ {
                (InstanceStage::Fetching, fetch_details)
            } else {
                (InstanceStage::PauseStopping, pause)
            },
            _ => (InstanceStage::Fetching, fetch_details),
        },
        InstanceStage::PauseStopping => (InstanceStage::AwaitStopping, fetch_state),
        InstanceStage::Fetching => if reply is Arn {
            (InstanceStage::Done, Next::Finished)
        } else {
            (InstanceStage::Failed, Next::Aborted)
        },
        InstanceStage::Done => (InstanceStage::Done, Next::Finished),
        InstanceStage::Failed => (InstanceStage::Failed, Next::Aborted),
    }
}

/// Creation of one instance: create, wait until running, stop, wait until
/// stopping, then fetch its details.
pub struct InstanceLifecycle {
    pub config: InstanceConfig,
    pub stage: InstanceStage,
    /// The current wait for a state.
    pub poller: Poller,
    /// The instance's ARN, once its details arrived.
    pub arn: String,
}

impl InstanceLifecycle {
    /// The poller watches this instance, for the state its stage waits for.
    pub open spec fn wf(&self) -> bool {
        &&& self.poller.name@ == self.config.name@
        &&& (self.stage is AwaitRunning || self.stage is PauseRunning) ==> self.poller.target@
            == RUNNING@
        &&& (self.stage is AwaitStopping || self.stage is PauseStopping) ==> self.poller.target@
            == STOPPING@
    }

    /// Starts the creation of the instance `config` describes: the flow's
    /// first request creates it.
    pub fn create_instance(config: InstanceConfig) -> (r: (InstanceLifecycle, Request))
        ensures
            r.0.wf(),
            r.0.config@ == config@,
            r.0.stage == InstanceStage::Creating,
            r.0.arn@ == Seq::<char>::empty(),
            r.1@ == (Op::CreateInstances { config: config@ }),
    {
        let poller = Poller::new(config.name.as_str(), RUNNING);
        let request = Request::CreateInstances {
            config: InstanceConfig {
                name: config.name.clone(),
                zone: config.zone.clone(),
                blueprint_id: config.blueprint_id.clone(),
                bundle_id: config.bundle_id.clone(),
                idle_threshold: config.idle_threshold.clone(),
                idle_duration: config.idle_duration.clone(),
            },
        };
        (InstanceLifecycle { config, stage: InstanceStage::Creating, poller, arn: String::new() }, request)
    }

    /// Takes the reply to the last request and says what to do next.
    pub fn step(&mut self, reply: Reply) -> (a: Action)
        requires
            old(self).wf(),
        ensures
            final(self).wf(),
            (final(self).stage, a@) == instance_next(old(self).stage, old(self).config@.name, reply@),
            final(self).config@ == old(self).config@,
            old(self).stage is Fetching && reply@ is Arn ==> final(self).arn@ == reply@->Arn_0,
            !(old(self).stage is Fetching && reply@ is Arn) ==> final(self).arn@ == old(self).arn@,
    {
        let name = self.config.name.clone();
        match self.stage {
            InstanceStage::Creating => {
                if let Reply::Succeeded = reply {
                    self.poller = Poller::new(name.as_str(), RUNNING);
                    self.stage = InstanceStage::AwaitRunning;
                    Action::Call(self.poller.fetch_request())
                } else {
                    self.stage = InstanceStage::Failed;
                    Action::Aborted
                }
            },
            InstanceStage::AwaitRunning => {
                if let Reply::State(s) = reply {
                    if self.poller.observe(s.as_str()) {
                        self.stage = InstanceStage::Stopping;
                        Action::Call(Request::StopInstance { name })
                    } else {
                        self.stage = InstanceStage::PauseRunning;
                        Action::Call(self.poller.pause_request())
                    }
                } else {
                    self.stage = InstanceStage::Fetching;
                    Action::Call(Request::GetInstance { name })
                }
            },
            InstanceStage::PauseRunning => {
                self.stage = InstanceStage::AwaitRunning;
                Action::Call(self.poller.fetch_request())
            },
            InstanceStage::Stopping => {
                if let Reply::Succeeded = reply {
                    self.poller = Poller::new(name.as_str(), STOPPING);
                    self.stage = InstanceStage::AwaitStopping;
                    Action::Call(self.poller.fetch_request())
                } else {
                    self.stage = InstanceStage::Fetching;
                    Action::Call(Request::GetInstance { name })
                }
            },
            InstanceStage::AwaitStopping => {
                if let Reply::State(s) = reply {
                    if self.poller.observe(s.as_str()) {
                        self.stage = InstanceStage::Fetching;
                        Action::Call(Request::GetInstance { name })
                    } else {
                        self.stage = InstanceStage::PauseStopping;
                        Action::Call(self.poller.pause_request())
                    }
                } else {
                    self.stage = InstanceStage::Fetching;
                    Action::Call(Request::GetInstance { name })
                }
            },
            InstanceStage::PauseStopping => {
                self.stage = InstanceStage::AwaitStopping;
                Action::Call(self.poller.fetch_request())
            },
            InstanceStage::Fetching => {
                if let Reply::Arn(arn) = reply {
                    self.arn = arn;
                    self.stage = InstanceStage::Done;
                    Action::Finished
                } else {
                    self.stage = InstanceStage::Failed;
                    Action::Aborted
                }
            },
            InstanceStage::Done => Action::Finished,
            InstanceStage::Failed => Action::Aborted,
        }
    }
}

/// Where the creation of an identity account stands.
#[derive(Clone, Copy, Debug, PartialEq, Eq, Structural)]
pub enum IdentityStage {
    /// The create request is out.
    Creating,
    /// The account is being added to its group.
    Joining,
    /// A one-time password is being drawn.
    Drawing,
    /// The login profile is being created.
    Profiling,
    /// The access policy is being attached.
    Attaching,
    /// The one-time password is being shown to the operator.
    Reporting,
    /// The request for the account's details is out.
    Fetching,
    /// The details arrived.
    Done,
    /// A step failed.
    Failed,
}

/// The step of the identity flow from `stage` on `reply`, for the request
/// `user`, `group`, `arn` and the password drawn so far: the next stage and
/// what to do. Every failure is fatal.
pub open spec fn identity_next(
    stage: IdentityStage,
    user: Seq<char>,
    group: Seq<char>,
    arn: Seq<char>,
    password: Seq<char>,
    reply: ReplyView,
) -> (IdentityStage, Next) {
    let fail = (IdentityStage::Failed, Next::Aborted);
    match stage {
        IdentityStage::Creating => if reply is Succeeded {
            (IdentityStage::Joining, Next::Call(Op::AddUserToGroup { user: user, group: group }))
        } else {
            fail
        },
        IdentityStage::Joining => if reply is Succeeded {
            (
                IdentityStage::Drawing,
                Next::Call(Op::GetRandomPassword { length: PASSWORD_LENGTH as nat }),
            )
        } else {
            fail
        },
        IdentityStage::Drawing => match reply {
            ReplyView::Password(p) => (
                IdentityStage::Profiling,
                Next::Call(Op::CreateLoginProfile { user: user, password: p, reset_required: true }),
            ),
            _ => fail,
        },
        IdentityStage::Profiling => if reply is Succeeded {
            (
                IdentityStage::Attaching,
                Next::Call(
                    Op::PutUserPolicy {
                        user: user,
                        policy_name: user_policy_name_spec(user),
                        document: policy_doc_spec(arn),
                    },
                ),
            )
        } else {
            fail
        },
        IdentityStage::Attaching => if reply is Succeeded {
            (
                IdentityStage::Reporting,
                Next::Call(Op::ReportPassword { user: user, password: password }),
            )
        } else {
            fail
        },
        IdentityStage::Reporting => (IdentityStage::Fetching, Next::Call(Op::GetUser { user: user })),
        IdentityStage::Fetching => if reply is Succeeded {
            (IdentityStage::Done, Next::Finished)
        } else {
            fail
        },
        IdentityStage::Done => (IdentityStage::Done, Next::Finished),
        IdentityStage::Failed => fail,
    }
}

/// Creation of one identity account: create it, add it to its group, draw a
/// one-time password, give it a login profile that must reset the password,
/// attach its access policy scoped to its instance, show the password to the
/// operator, then fetch its details.
pub struct IdentityLifecycle {
    pub config: IamConfig,
    pub stage: IdentityStage,
    /// The one-time password, once drawn.
    pub password: String,
}

impl IdentityLifecycle {
    /// Starts the creation of the account `config` describes: the flow's
    /// first request creates it.
    pub fn create_user(config: IamConfig) -> (r: (IdentityLifecycle, Request))
        ensures
            r.0.config@ == config@,
            r.0.stage == IdentityStage::Creating,
            r.0.password@ == Seq::<char>::empty(),
            r.1@ == (Op::CreateUser { user: config@.user }),
    {
        let request = Request::CreateUser { user: config.user.clone() };
        (IdentityLifecycle { config, stage: IdentityStage::Creating, password: String::new() }, request)
    }

    /// Takes the reply to the last request and says what to do next.
    pub fn step(&mut self, reply: Reply) -> (a: Action)
        ensures
            (final(self).stage, a@) == identity_next(
                old(self).stage,
                old(self).config@.user,
                old(self).config@.group,
                old(self).config@.arn,
                old(self).password@,
                reply@,
            ),
            final(self).config@ == old(self).config@,
            old(self).stage is Drawing && reply@ is Password ==> final(self).password@
                == reply@->Password_0,
            !(old(self).stage is Drawing && reply@ is Password) ==> final(self).password@ == old(
                self,
            ).password@,
    {
        let user = self.config.user.clone();
        match self.stage {
            IdentityStage::Creating => {
                if let Reply::Succeeded = reply {
                    self.stage = IdentityStage::Joining;
                    Action::Call(Request::AddUserToGroup { user, group: self.config.group.clone() })
                } else {
                    self.stage = IdentityStage::Failed;
                    Action::Aborted
                }
            },
            IdentityStage::Joining => {
                if let Reply::Succeeded = reply {
                    self.stage = IdentityStage::Drawing;
                    Action::Call(Request::GetRandomPassword { length: PASSWORD_LENGTH })
                } else {
                    self.stage = IdentityStage::Failed;
                    Action::Aborted
                }
            },
            IdentityStage::Drawing => {
                if let Reply::Password(p) = reply {
                    self.password = p.clone();
                    self.stage = IdentityStage::Profiling;
                    Action::Call(
                        Request::CreateLoginProfile { user, password: p, reset_required: true },
                    )
                } else {
                    self.stage = IdentityStage::Failed;
                    Action::Aborted
                }
            },
            IdentityStage::Profiling => {
                if let Reply::Succeeded = reply {
                    self.stage = IdentityStage::Attaching;
                    let policy_name = user_policy_name(user.as_str());
                    let document = build_policy_doc(self.config.arn.clone());
                    Action::Call(Request::PutUserPolicy { user, policy_name, document })
                } else {
                    self.stage = IdentityStage::Failed;
                    Action::Aborted
                }
            },
            IdentityStage::Attaching => {
                if let Reply::Succeeded = reply {
                    self.stage = IdentityStage::Reporting;
                    Action::Call(Request::ReportPassword { user, password: self.password.clone() })
                } else {
                    self.stage = IdentityStage::Failed;
                    Action::Aborted
                }
            },
            IdentityStage::Reporting => {
                self.stage = IdentityStage::Fetching;
                Action::Call(Request::GetUser { user })
            },
            IdentityStage::Fetching => {
                if let Reply::Succeeded = reply {
                    self.stage = IdentityStage::Done;
                    Action::Finished
                } else {
                    self.stage = IdentityStage::Failed;
                    Action::Aborted
                }
            },
            IdentityStage::Done => Action::Finished,
            IdentityStage::Failed => Action::Aborted,
        }
    }
}

} // verus!
