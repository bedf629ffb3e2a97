use lib::setup::{ClientSetup, SetupAction, SetupEvent, SetupFailure, SetupStage};
use lib::status::STATUS_GOOD;

#[test]
fn successful_setup_becomes_ready() {
    let mut setup = ClientSetup::new();
    assert_eq!(setup.action(), SetupAction::CreateClient);
    setup.step(SetupEvent::ClientCreated { null: false });
    assert_eq!(setup.action(), SetupAction::GetConfig);
    setup.step(SetupEvent::ConfigObtained { null: false });
    assert_eq!(setup.action(), SetupAction::ApplyDefaultConfig);
    setup.step(SetupEvent::DefaultConfigApplied { status: STATUS_GOOD });
    assert_eq!(setup.action(), SetupAction::Finish);
    assert_eq!(setup.stage(), SetupStage::Ready);
}

#[test]
fn null_client_fails_without_deleting() {
    let mut setup = ClientSetup::new();
    setup.step(SetupEvent::ClientCreated { null: true });
    assert_eq!(
        setup.action(),
        SetupAction::Abort { failure: SetupFailure::ClientNull, delete_client: false }
    );
}

#[test]
fn null_config_deletes_client() {
    let mut setup = ClientSetup::new();
    setup.step(SetupEvent::ClientCreated { null: false });
    setup.step(SetupEvent::ConfigObtained { null: true });
    assert_eq!(
        setup.action(),
        SetupAction::Abort { failure: SetupFailure::ConfigNull, delete_client: true }
    );
}

#[test]
fn rejected_default_config_deletes_client() {
    let mut setup = ClientSetup::new();
    setup.step(SetupEvent::ClientCreated { null: false });
    setup.step(SetupEvent::ConfigObtained { null: false });
    setup.step(SetupEvent::DefaultConfigApplied { status: 0x8003_0000 });
    assert_eq!(
        setup.action(),
        SetupAction::Abort {
            failure: SetupFailure::DefaultConfigRejected { status: 0x8003_0000 },
            delete_client: true,
        }
    );
}

#[test]
fn setup_accepts_only_the_report_it_asked_for() {
    let mut setup = ClientSetup::new();
    assert!(setup.accepts(&SetupEvent::ClientCreated { null: false }));
    assert!(!setup.accepts(&SetupEvent::ConfigObtained { null: false }));
    assert!(!setup.accepts(&SetupEvent::DefaultConfigApplied { status: 0 }));
    setup.step(SetupEvent::ClientCreated { null: false });
    assert!(setup.accepts(&SetupEvent::ConfigObtained { null: true }));
    assert!(!setup.accepts(&SetupEvent::ClientCreated { null: false }));
    setup.step(SetupEvent::ConfigObtained { null: true });
    assert!(!setup.accepts(&SetupEvent::ClientCreated { null: false }));
    assert!(!setup.accepts(&SetupEvent::ConfigObtained { null: false }));
    assert!(!setup.accepts(&SetupEvent::DefaultConfigApplied { status: 0 }));
}
