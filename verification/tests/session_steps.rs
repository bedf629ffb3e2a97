use lib::node_id::NodeId;
use lib::session::{
    Login, Notice, Session, SessionAction, SessionEvent, SessionStage, ITERATE_TIMEOUT_MS,
    SERVER_CURRENT_TIME,
};
use lib::status::STATUS_GOOD;
use lib::types::date_time;
use lib::variant::{Variant, VariantData, VariantType};

const BAD: u32 = 0x80AE_0000;

fn current_time(ticks: i64) -> Variant {
    Variant::from_parts(VariantType::Named(date_time()), 0, VariantData::DateTime(ticks)).unwrap()
}

fn subscribed_session(subscription_id: u32) -> Session {
    let mut session = Session::new();
    session.step(SessionEvent::Connected { status: STATUS_GOOD });
    session.step(SessionEvent::ValueRead { status: STATUS_GOOD, value: current_time(1) });
    session.step(SessionEvent::SubscriptionCreated { status: STATUS_GOOD, subscription_id });
    session
}

#[test]
fn login_needs_both_user_name_and_password() {
    let login = Login::from_arguments(Some("alice".to_string()), Some("secret".to_string()));
    assert_eq!(login.credentials(), "username alice, password secret");
    match login {
        Login::UserName { username, password } => {
            assert_eq!(username, "alice");
            assert_eq!(password, "secret");
        }
        Login::Anonymous => panic!("expected a user name login"),
    }
    let login = Login::from_arguments(Some("alice".to_string()), None);
    assert!(matches!(login, Login::Anonymous));
    assert_eq!(login.credentials(), "anonymous");
    let login = Login::from_arguments(None, Some("secret".to_string()));
    assert!(matches!(login, Login::Anonymous));
    assert!(matches!(Login::from_arguments(None, None), Login::Anonymous));
}

#[test]
fn full_session_runs_to_completion() {
    let node = NodeId::numeric(0, SERVER_CURRENT_TIME);
    let mut session = Session::new();
    assert_eq!(session.action(), SessionAction::Connect);
    assert_eq!(session.step(SessionEvent::Connected { status: STATUS_GOOD }), Some(Notice::Connected));
    assert_eq!(session.action(), SessionAction::ReadValue { node_id: node });
    assert_eq!(
        session.step(SessionEvent::ValueRead { status: STATUS_GOOD, value: current_time(42) }),
        Some(Notice::CurrentTime { ticks: 42 })
    );
    assert_eq!(session.action(), SessionAction::CreateSubscription);
    assert_eq!(
        session.step(SessionEvent::SubscriptionCreated { status: STATUS_GOOD, subscription_id: 7 }),
        Some(Notice::SubscriptionCreated { subscription_id: 7 })
    );
    assert_eq!(
        session.action(),
        SessionAction::CreateMonitoredItem { subscription_id: 7, node_id: node }
    );
    assert_eq!(
        session.step(SessionEvent::MonitoredItemCreated { status: STATUS_GOOD, monitored_item_id: 3 }),
        Some(Notice::MonitoredItemCreated { subscription_id: 7, monitored_item_id: 3 })
    );
    for _ in 0..5 {
        assert_eq!(session.action(), SessionAction::RunIterate { timeout_ms: ITERATE_TIMEOUT_MS });
        assert_eq!(session.step(SessionEvent::Iterated { status: STATUS_GOOD }), None);
        assert_eq!(
            session.stage(),
            SessionStage::Running { subscription_id: 7, monitored_item_id: 3 }
        );
    }
    assert_eq!(session.step(SessionEvent::Iterated { status: BAD }), None);
    assert_eq!(session.action(), SessionAction::DeleteSubscription { subscription_id: 7 });
    assert_eq!(
        session.step(SessionEvent::SubscriptionDeleted { status: STATUS_GOOD }),
        Some(Notice::SubscriptionDeleted { subscription_id: 7 })
    );
    assert!(session.has_ended());
    assert_eq!(session.stage(), SessionStage::Finished);
    assert_eq!(session.action(), SessionAction::ClearValueAndDeleteClient);
    assert!(!session.accepts(&SessionEvent::Iterated { status: STATUS_GOOD }));
}

#[test]
fn failed_connect_aborts() {
    let mut session = Session::new();
    assert_eq!(session.step(SessionEvent::Connected { status: BAD }), None);
    assert!(session.has_ended());
    assert_eq!(session.action(), SessionAction::DeleteClient);
    assert!(!session.accepts(&SessionEvent::Connected { status: STATUS_GOOD }));
}

#[test]
fn failed_read_does_not_abort() {
    let mut session = Session::new();
    session.step(SessionEvent::Connected { status: STATUS_GOOD });
    assert_eq!(
        session.step(SessionEvent::ValueRead { status: BAD, value: current_time(42) }),
        None
    );
    assert_eq!(session.action(), SessionAction::CreateSubscription);
}

#[test]
fn read_value_of_another_type_is_not_reported() {
    let mut session = Session::new();
    session.step(SessionEvent::Connected { status: STATUS_GOOD });
    assert_eq!(
        session.step(SessionEvent::ValueRead { status: STATUS_GOOD, value: Variant::new() }),
        None
    );
    assert_eq!(session.stage(), SessionStage::Subscribing);
}

#[test]
fn failed_subscription_aborts() {
    let mut session = Session::new();
    session.step(SessionEvent::Connected { status: STATUS_GOOD });
    session.step(SessionEvent::ValueRead { status: STATUS_GOOD, value: Variant::new() });
    assert_eq!(
        session.step(SessionEvent::SubscriptionCreated { status: BAD, subscription_id: 7 }),
        None
    );
    assert_eq!(session.action(), SessionAction::DeleteClient);
}

#[test]
fn failed_monitored_item_aborts() {
    let mut session = subscribed_session(9);
    assert_eq!(
        session.step(SessionEvent::MonitoredItemCreated { status: BAD, monitored_item_id: 1 }),
        None
    );
    assert_eq!(session.stage(), SessionStage::Aborted);
    assert_eq!(session.action(), SessionAction::DeleteClient);
}

#[test]
fn failed_unsubscribe_aborts() {
    let mut session = subscribed_session(9);
    session.step(SessionEvent::MonitoredItemCreated { status: STATUS_GOOD, monitored_item_id: 1 });
    session.step(SessionEvent::Iterated { status: BAD });
    assert_eq!(session.action(), SessionAction::DeleteSubscription { subscription_id: 9 });
    assert_eq!(session.step(SessionEvent::SubscriptionDeleted { status: BAD }), None);
    assert_eq!(session.stage(), SessionStage::Aborted);
    assert_eq!(session.action(), SessionAction::DeleteClient);
}

#[test]
fn session_accepts_only_the_report_it_asked_for() {
    let session = Session::new();
    assert!(session.accepts(&SessionEvent::Connected { status: BAD }));
    assert!(!session.accepts(&SessionEvent::Iterated { status: STATUS_GOOD }));
    let session = subscribed_session(2);
    assert!(session.accepts(&SessionEvent::MonitoredItemCreated {
        status: STATUS_GOOD,
        monitored_item_id: 1
    }));
    assert!(!session.accepts(&SessionEvent::SubscriptionDeleted { status: STATUS_GOOD }));
}
