//! The steps of setting up a client: create it, get its configuration, apply the default
//! configuration. The program in `app/` performs each step's call and reports what came back.

use vstd::prelude::*;
use crate::status::{spec_is_good, STATUS_GOOD};

verus! {

/// Why setting up a client failed.
#[derive(Clone, Copy, Debug, PartialEq, Eq, Structural)]
pub enum SetupFailure {
    /// `UA_Client_new()` returned `NULL`.
    ClientNull,
    /// `UA_Client_getConfig()` returned `NULL`.
    ConfigNull,
    /// `UA_ClientConfig_setDefault()` returned this status code, which is not `Good`.
    DefaultConfigRejected { status: u32 },
}

/// Where the set-up of a client stands.
#[derive(Clone, Copy, Debug, PartialEq, Eq, Structural)]
pub enum SetupStage {
    /// The client is to be created.
    Creating,
    /// The client exists; its configuration is to be fetched.
    GettingConfig,
    /// The configuration is at hand; the default configuration is to be applied to it.
    ApplyingDefaults,
    /// The client is set up.
    Ready,
    /// The set-up failed; `delete_client` tells whether a client was created and must be
    /// deleted before the failure is raised.
    Failed { failure: SetupFailure, delete_client: bool },
}

/// What the program does next.
#[derive(Clone, Copy, Debug, PartialEq, Eq, Structural)]
pub enum SetupAction {
    /// Call `UA_Client_new()` and report [`SetupEvent::ClientCreated`].
    CreateClient,
    /// Call `UA_Client_getConfig()` and report [`SetupEvent::ConfigObtained`].
    GetConfig,
    /// Call `UA_ClientConfig_setDefault()` and report [`SetupEvent::DefaultConfigApplied`].
    ApplyDefaultConfig,
    /// The client is ready for use.
    Finish,
    /// Delete the client (where `delete_client` holds), then raise `failure`.
    Abort { failure: SetupFailure, delete_client: bool },
}

/// What a set-up step's call reported.
#[derive(Clone, Copy, Debug, PartialEq, Eq, Structural)]
pub enum SetupEvent {
    /// `UA_Client_new()` returned; `null` tells whether it returned `NULL`.
    ClientCreated { null: bool },
    /// `UA_Client_getConfig()` returned; `null` tells whether it returned `NULL`.
    ConfigObtained { null: bool },
    /// `UA_ClientConfig_setDefault()` returned this status code.
    DefaultConfigApplied { status: u32 },
}

/// The action that a stage asks for.
pub open spec fn spec_setup_action(stage: SetupStage) -> SetupAction {
    match stage {
        SetupStage::Creating => SetupAction::CreateClient,
        SetupStage::GettingConfig => SetupAction::GetConfig,
        SetupStage::ApplyingDefaults => SetupAction::ApplyDefaultConfig,
        SetupStage::Ready => SetupAction::Finish,
        SetupStage::Failed { failure, delete_client } => SetupAction::Abort {
            failure,
            delete_client,
        },
    }
}

/// Whether `event` is the report of the call that `stage` asks for.
pub open spec fn spec_setup_accepts(stage: SetupStage, event: SetupEvent) -> bool {
    match (stage, event) {
        (SetupStage::Creating, SetupEvent::ClientCreated { .. }) => true,
        (SetupStage::GettingConfig, SetupEvent::ConfigObtained { .. }) => true,
        (SetupStage::ApplyingDefaults, SetupEvent::DefaultConfigApplied { .. }) => true,
        _ => false,
    }
}

/// The stage that follows `stage` once `event` is reported.
pub open spec fn spec_setup_next(stage: SetupStage, event: SetupEvent) -> SetupStage {
    match event {
        SetupEvent::ClientCreated { null } => if null {
            SetupStage::Failed { failure: SetupFailure::ClientNull, delete_client: false }
        } else {
            SetupStage::GettingConfig
        },
        SetupEvent::ConfigObtained { null } => if null {
            SetupStage::Failed { failure: SetupFailure::ConfigNull, delete_client: true }
        } else {
            SetupStage::ApplyingDefaults
        },
        SetupEvent::DefaultConfigApplied { status } => if spec_is_good(status) {
            SetupStage::Ready
        } else {
            SetupStage::Failed {
                failure: SetupFailure::DefaultConfigRejected { status },
                delete_client: true,
            }
        },
    }
}

/// Whether each of `events` is accepted in turn, starting at `stage`.
pub open spec fn spec_setup_valid_run(stage: SetupStage, events: Seq<SetupEvent>) -> bool
    decreases events.len(),
{
    events.len() == 0 || (spec_setup_accepts(stage, events[0]) && spec_setup_valid_run(
        spec_setup_next(stage, events[0]),
        events.drop_first(),
    ))
}

/// The stage reached from `stage` after `events`.
pub open spec fn spec_setup_run(stage: SetupStage, events: Seq<SetupEvent>) -> SetupStage
    decreases events.len(),
{
    if events.len() == 0 {
        stage
    } else {
        spec_setup_run(spec_setup_next(stage, events[0]), events.drop_first())
    }
}

/// The set-up of a client (`Client::new`), one call at a time.
pub struct ClientSetup {
    stage: SetupStage,
}

impl ClientSetup {
    /// The stage this set-up has reached.
    pub closed spec fn spec_stage(self) -> SetupStage {
        self.stage
    }

    /// A set-up that has not begun: the client is yet to be created.
    pub fn new() -> (setup: ClientSetup)
        ensures
            setup.spec_stage() == SetupStage::Creating,
    {
        ClientSetup { stage: SetupStage::Creating }
    }

    /// The stage this set-up has reached.
    pub fn stage(&self) -> (stage: SetupStage)
        ensures
            stage == self.spec_stage(),
    {
        self.stage
    }

    /// What the program does next.
    pub fn action(&self) -> (action: SetupAction)
        ensures
            action == spec_setup_action(self.spec_stage()),
    {
        match self.stage {
            SetupStage::Creating => SetupAction::CreateClient,
            SetupStage::GettingConfig => SetupAction::GetConfig,
            SetupStage::ApplyingDefaults => SetupAction::ApplyDefaultConfig,
            SetupStage::Ready => SetupAction::Finish,
            SetupStage::Failed { failure, delete_client } => SetupAction::Abort {
                failure,
                delete_client,
            },
        }
    }

    /// Whether `event` is the report of the call that this set-up asks for.
    pub fn accepts(&self, event: &SetupEvent) -> (accepted: bool)
        ensures
            accepted == spec_setup_accepts(self.spec_stage(), *event),
    {
        match (self.stage, *event) {
            (SetupStage::Creating, SetupEvent::ClientCreated { .. }) => true,
            (SetupStage::GettingConfig, SetupEvent::ConfigObtained { .. }) => true,
            (SetupStage::ApplyingDefaults, SetupEvent::DefaultConfigApplied { .. }) => true,
            _ => false,
        }
    }

    /// Takes in the report of the call that this set-up asked for.
    pub fn step(&mut self, event: SetupEvent)
        requires
            spec_setup_accepts(old(self).spec_stage(), event),
        ensures
            final(self).spec_stage() == spec_setup_next(old(self).spec_stage(), event),
    {
        self.stage = match event {
            SetupEvent::ClientCreated { null } => if null {
                SetupStage::Failed { failure: SetupFailure::ClientNull, delete_client: false }
            } else {
                SetupStage::GettingConfig
            },
            SetupEvent::ConfigObtained { null } => if null {
                SetupStage::Failed { failure: SetupFailure::ConfigNull, delete_client: true }
            } else {
                SetupStage::ApplyingDefaults
            },
            SetupEvent::DefaultConfigApplied { status } => if status == STATUS_GOOD {
                SetupStage::Ready
            } else {
                SetupStage::Failed {
                    failure: SetupFailure::DefaultConfigRejected { status },
                    delete_client: true,
                }
            },
        };
    }
}

/// A set-up ends ready exactly when the client was created, its configuration was found and the
/// default configuration was accepted; it fails otherwise, and on failure the client is deleted
/// exactly when it had been created. No run takes more than three reports.
pub proof fn setup_outcome(events: Seq<SetupEvent>)
    requires
        spec_setup_valid_run(SetupStage::Creating, events),
    ensures
        events.len() <= 3,
        (spec_setup_run(SetupStage::Creating, events) == SetupStage::Ready) <==> events == seq![
            SetupEvent::ClientCreated { null: false },
            SetupEvent::ConfigObtained { null: false },
            SetupEvent::DefaultConfigApplied { status: STATUS_GOOD },
        ],
        spec_setup_run(SetupStage::Creating, events) matches SetupStage::Failed {
            delete_client,
            ..
        } ==> (delete_client <==> events[0] == SetupEvent::ClientCreated { null: false }),
{
    reveal_with_fuel(spec_setup_valid_run, 5);
    reveal_with_fuel(spec_setup_run, 5);
    if events.len() >= 1 {
        let e1 = events.drop_first();
        if e1.len() >= 1 {
            let e2 = e1.drop_first();
            if e2.len() >= 1 {
                let e3 = e2.drop_first();
                assert(e3.len() == 0);
            }
        }
    }
    if spec_setup_run(SetupStage::Creating, events) == SetupStage::Ready {
        assert(events =~= seq![
            SetupEvent::ClientCreated { null: false },
            SetupEvent::ConfigObtained { null: false },
            SetupEvent::DefaultConfigApplied { status: STATUS_GOOD },
        ]);
    }
}

/// Each failure names the call that failed and, for a rejected default configuration, the status
/// code it returned; each success moves on to the next call.
pub proof fn setup_failures_name_the_call(null: bool, status: u32)
    ensures
        spec_setup_next(SetupStage::Creating, SetupEvent::ClientCreated { null }) == (if null {
            SetupStage::Failed { failure: SetupFailure::ClientNull, delete_client: false }
        } else {
            SetupStage::GettingConfig
        }),
        spec_setup_next(SetupStage::GettingConfig, SetupEvent::ConfigObtained { null }) == (if null {
            SetupStage::Failed { failure: SetupFailure::ConfigNull, delete_client: true }
        } else {
            SetupStage::ApplyingDefaults
        }),
        spec_setup_next(SetupStage::ApplyingDefaults, SetupEvent::DefaultConfigApplied { status })
            == (if status == 0 {
            SetupStage::Ready
        } else {
            SetupStage::Failed {
                failure: SetupFailure::DefaultConfigRejected { status },
                delete_client: true,
            }
        }),
        spec_setup_action(SetupStage::Creating) == SetupAction::CreateClient,
        spec_setup_action(SetupStage::GettingConfig) == SetupAction::GetConfig,
        spec_setup_action(SetupStage::ApplyingDefaults) == SetupAction::ApplyDefaultConfig,
        spec_setup_action(SetupStage::Ready) == SetupAction::Finish,
{
}

} // verus!
