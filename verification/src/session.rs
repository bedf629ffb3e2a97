//! A monitoring session: connect, read the server's current time, subscribe to it, run the
//! client until an iteration fails, then unsubscribe. The program in `app/` performs each step's
//! call and reports what came back; this machine decides what comes next.

use vstd::prelude::*;
use crate::node_id::NodeId;
use crate::status::{spec_is_good, STATUS_GOOD};
use crate::variant::{Variant, VariantData, VariantType};
use crate::data_type::DataType;
use vstd::string::StringExecFns;

verus! {

/// The numeric identifier of the node `Server/ServerStatus/CurrentTime` in namespace 0
/// (`UA_NS0ID_SERVER_SERVERSTATUS_CURRENTTIME`).
pub const SERVER_CURRENT_TIME: u32 = 2258;

/// How long one iteration of the client's event loop may wait, in milliseconds.
pub const ITERATE_TIMEOUT_MS: u16 = 250;

/// How the client logs in to the server.
#[derive(Debug)]
pub enum Login {
    /// Without credentials.
    Anonymous,
    /// With a user name and a password.
    UserName { username: String, password: String },
}

impl Login {
    /// The login that the given arguments ask for: by user name where both a user name and a
    /// password are given, anonymous otherwise.
    pub open spec fn spec_from_arguments(username: Option<String>, password: Option<String>) -> Login {
        match (username, password) {
            (Some(username), Some(password)) => Login::UserName { username, password },
            _ => Login::Anonymous,
        }
    }

    /// The login that the given arguments ask for: by user name where both a user name and a
    /// password are given, anonymous otherwise.
    pub fn from_arguments(username: Option<String>, password: Option<String>) -> (login: Login)
        ensures
            login == Login::spec_from_arguments(username, password),
    {
        match (username, password) {
            (Some(username), Some(password)) => Login::UserName { username, password },
            _ => Login::Anonymous,
        }
    }

    /// How the program describes this login to its user.
    pub open spec fn spec_credentials(self) -> Seq<char> {
        match self {
            Login::Anonymous => "anonymous"@,
            Login::UserName { username, password } => "username "@ + username@ + ", password "@
                + password@,
        }
    }

    /// How the program describes this login to its user: `username U, password P`, or
    /// `anonymous`.
    pub fn credentials(&self) -> (text: String)
        ensures
            text@ == self.spec_credentials(),
    {
        match self {
            Login::Anonymous => String::from_str("anonymous"),
            Login::UserName { username, password } => {
                let mut text = String::from_str("username ");
                text.append(username.as_str());
                text.append(", password ");
                text.append(password.as_str());
                text
            },
        }
    }
}

/// The node whose value the session reads and monitors: the server's current time.
pub open spec fn spec_current_time_node() -> NodeId {
    NodeId::spec_numeric(0, SERVER_CURRENT_TIME)
}

/// Where a session stands.
#[derive(Clone, Copy, Debug, PartialEq, Eq, Structural)]
pub enum SessionStage {
    /// The client is to connect.
    Connecting,
    /// The current time is to be read once.
    ReadingValue,
    /// A subscription is to be created.
    Subscribing,
    /// A monitored item for the current time is to be created in this subscription.
    Monitoring { subscription_id: u32 },
    /// The client's event loop runs; notifications of the monitored item arrive meanwhile.
    Running { subscription_id: u32, monitored_item_id: u32 },
    /// This subscription is to be deleted.
    Unsubscribing { subscription_id: u32 },
    /// The session completed.
    Finished,
    /// A step failed; the session ends.
    Aborted,
}

/// What the program does next.
#[derive(Clone, Copy, Debug, PartialEq, Eq, Structural)]
pub enum SessionAction {
    /// Connect with the session's login and report [`SessionEvent::Connected`].
    Connect,
    /// Read the value attribute of `node_id` and report [`SessionEvent::ValueRead`].
    ReadValue { node_id: NodeId },
    /// Create a subscription with the default request and report
    /// [`SessionEvent::SubscriptionCreated`].
    CreateSubscription,
    /// Create a data change monitored item for `node_id` in the subscription and report
    /// [`SessionEvent::MonitoredItemCreated`].
    CreateMonitoredItem { subscription_id: u32, node_id: NodeId },
    /// Run one iteration of the client's event loop and report [`SessionEvent::Iterated`].
    RunIterate { timeout_ms: u16 },
    /// Delete the subscription and report [`SessionEvent::SubscriptionDeleted`].
    DeleteSubscription { subscription_id: u32 },
    /// Delete the client; the session ends after a failed step.
    DeleteClient,
    /// Clear the value that was read and delete the client; the session ends.
    ClearValueAndDeleteClient,
}

/// What a session step's call reported.
#[derive(Debug)]
pub enum SessionEvent {
    /// Connecting returned this status code.
    Connected { status: u32 },
    /// Reading the value returned this status code and left this value.
    ValueRead { status: u32, value: Variant },
    /// Creating the subscription returned this service result and subscription id.
    SubscriptionCreated { status: u32, subscription_id: u32 },
    /// Creating the monitored item returned this status code and monitored item id.
    MonitoredItemCreated { status: u32, monitored_item_id: u32 },
    /// An iteration of the event loop returned this status code.
    Iterated { status: u32 },
    /// Deleting the subscription returned this service result.
    SubscriptionDeleted { status: u32 },
}

/// What the program tells its user after a step.
#[derive(Clone, Copy, Debug, PartialEq, Eq, Structural)]
pub enum Notice {
    /// The client connected.
    Connected,
    /// The server's current time, as a `UA_DateTime` count of 100 nanosecond intervals.
    CurrentTime { ticks: i64 },
    /// The subscription was created.
    SubscriptionCreated { subscription_id: u32 },
    /// The monitored item was created in the subscription.
    MonitoredItemCreated { subscription_id: u32, monitored_item_id: u32 },
    /// The subscription was deleted.
    SubscriptionDeleted { subscription_id: u32 },
}

/// Whether a stage ends the session.
pub open spec fn spec_session_ended(stage: SessionStage) -> bool {
    stage is Finished || stage is Aborted
}

/// The action that a stage asks for.
pub open spec fn spec_session_action(stage: SessionStage) -> SessionAction {
    match stage {
        SessionStage::Connecting => SessionAction::Connect,
        SessionStage::ReadingValue => SessionAction::ReadValue { node_id: spec_current_time_node() },
        SessionStage::Subscribing => SessionAction::CreateSubscription,
        SessionStage::Monitoring { subscription_id } => SessionAction::CreateMonitoredItem {
            subscription_id,
            node_id: spec_current_time_node(),
        },
        SessionStage::Running { .. } => SessionAction::RunIterate { timeout_ms: ITERATE_TIMEOUT_MS },
        SessionStage::Unsubscribing { subscription_id } => SessionAction::DeleteSubscription {
            subscription_id,
        },
        SessionStage::Finished => SessionAction::ClearValueAndDeleteClient,
        SessionStage::Aborted => SessionAction::DeleteClient,
    }
}

/// Whether `event` is the report of the call that `stage` asks for.
pub open spec fn spec_session_accepts(stage: SessionStage, event: SessionEvent) -> bool {
    match stage {
        SessionStage::Connecting => event is Connected,
        SessionStage::ReadingValue => event is ValueRead,
        SessionStage::Subscribing => event is SubscriptionCreated,
        SessionStage::Monitoring { .. } => event is MonitoredItemCreated,
        SessionStage::Running { .. } => event is Iterated,
        SessionStage::Unsubscribing { .. } => event is SubscriptionDeleted,
        SessionStage::Finished => false,
        SessionStage::Aborted => false,
    }
}

/// The stage that follows `stage` once `event` is reported.
pub open spec fn spec_session_next(stage: SessionStage, event: SessionEvent) -> SessionStage {
    match event {
        SessionEvent::Connected { status } => if spec_is_good(status) {
            SessionStage::ReadingValue
        } else {
            SessionStage::Aborted
        },
        SessionEvent::ValueRead { .. } => SessionStage::Subscribing,
        SessionEvent::SubscriptionCreated { status, subscription_id } => if spec_is_good(status) {
            SessionStage::Monitoring { subscription_id }
        } else {
            SessionStage::Aborted
        },
        SessionEvent::MonitoredItemCreated { status, monitored_item_id } => match stage {
            SessionStage::Monitoring { subscription_id } => if spec_is_good(status) {
                SessionStage::Running { subscription_id, monitored_item_id }
            } else {
                SessionStage::Aborted
            },
            _ => stage,
        },
        SessionEvent::Iterated { status } => match stage {
            SessionStage::Running { subscription_id, .. } => if spec_is_good(status) {
                stage
            } else {
                SessionStage::Unsubscribing { subscription_id }
            },
            _ => stage,
        },
        SessionEvent::SubscriptionDeleted { status } => if spec_is_good(status) {
            SessionStage::Finished
        } else {
            SessionStage::Aborted
        },
    }
}

/// What the program tells its user once `event` is reported at `stage`.
pub open spec fn spec_session_notice(stage: SessionStage, event: SessionEvent) -> Option<Notice> {
    match event {
        SessionEvent::Connected { status } => if spec_is_good(status) {
            Some(Notice::Connected)
        } else {
            None
        },
        SessionEvent::ValueRead { status, value } => if spec_is_good(status) {
            match value.spec_date_time_value() {
                Some(ticks) => Some(Notice::CurrentTime { ticks }),
                None => None,
            }
        } else {
            None
        },
        SessionEvent::SubscriptionCreated { status, subscription_id } => if spec_is_good(status) {
            Some(Notice::SubscriptionCreated { subscription_id })
        } else {
            None
        },
        SessionEvent::MonitoredItemCreated { status, monitored_item_id } => match stage {
            SessionStage::Monitoring { subscription_id } => if spec_is_good(status) {
                Some(Notice::MonitoredItemCreated { subscription_id, monitored_item_id })
            } else {
                None
            },
            _ => None,
        },
        SessionEvent::Iterated { .. } => None,
        SessionEvent::SubscriptionDeleted { status } => match stage {
            SessionStage::Unsubscribing { subscription_id } => if spec_is_good(status) {
                Some(Notice::SubscriptionDeleted { subscription_id })
            } else {
                None
            },
            _ => None,
        },
    }
}

/// Whether each of `events` is accepted in turn, starting at `stage`.
pub open spec fn spec_session_valid_run(stage: SessionStage, events: Seq<SessionEvent>) -> bool
    decreases events.len(),
{
    events.len() == 0 || (spec_session_accepts(stage, events[0]) && spec_session_valid_run(
        spec_session_next(stage, events[0]),
        events.drop_first(),
    ))
}

/// The stage reached from `stage` after `events`.
pub open spec fn spec_session_run(stage: SessionStage, events: Seq<SessionEvent>) -> SessionStage
    decreases events.len(),
{
    if events.len() == 0 {
        stage
    } else {
        spec_session_run(spec_session_next(stage, events[0]), events.drop_first())
    }
}

/// A monitoring session, one call at a time.
pub struct Session {
    stage: SessionStage,
}

impl Session {
    /// The stage this session has reached.
    pub closed spec fn spec_stage(self) -> SessionStage {
        self.stage
    }

    /// A session that has not begun: the client is yet to connect.
    pub fn new() -> (session: Session)
        ensures
            session.spec_stage() == SessionStage::Connecting,
    {
        Session { stage: SessionStage::Connecting }
    }

    /// The stage this session has reached.
    pub fn stage(&self) -> (stage: SessionStage)
        ensures
            stage == self.spec_stage(),
    {
        self.stage
    }

    /// Whether the session has ended.
    pub fn has_ended(&self) -> (ended: bool)
        ensures
            ended == spec_session_ended(self.spec_stage()),
    {
        match self.stage {
            SessionStage::Finished | SessionStage::Aborted => true,
            _ => false,
        }
    }

    /// What the program does next.
    pub fn action(&self) -> (action: SessionAction)
        ensures
            action == spec_session_action(self.spec_stage()),
    {
        match self.stage {
            SessionStage::Connecting => SessionAction::Connect,
            SessionStage::ReadingValue => SessionAction::ReadValue {
                node_id: NodeId::numeric(0, SERVER_CURRENT_TIME),
            },
            SessionStage::Subscribing => SessionAction::CreateSubscription,
            SessionStage::Monitoring { subscription_id } => SessionAction::CreateMonitoredItem {
                subscription_id,
                node_id: NodeId::numeric(0, SERVER_CURRENT_TIME),
            },
            SessionStage::Running { .. } => SessionAction::RunIterate {
                timeout_ms: ITERATE_TIMEOUT_MS,
            },
            SessionStage::Unsubscribing { subscription_id } => SessionAction::DeleteSubscription {
                subscription_id,
            },
            SessionStage::Finished => SessionAction::ClearValueAndDeleteClient,
            SessionStage::Aborted => SessionAction::DeleteClient,
        }
    }

    /// Whether `event` is the report of the call that this session asks for.
    pub fn accepts(&self, event: &SessionEvent) -> (accepted: bool)
        ensures
            accepted == spec_session_accepts(self.spec_stage(), *event),
    {
        match self.stage {
            SessionStage::Connecting => matches!(event, SessionEvent::Connected { .. }),
            SessionStage::ReadingValue => matches!(event, SessionEvent::ValueRead { .. }),
            SessionStage::Subscribing => matches!(event, SessionEvent::SubscriptionCreated { .. }),
            SessionStage::Monitoring { .. } => matches!(
                event,
                SessionEvent::MonitoredItemCreated { .. }
            ),
            SessionStage::Running { .. } => matches!(event, SessionEvent::Iterated { .. }),
            SessionStage::Unsubscribing { .. } => matches!(
                event,
                SessionEvent::SubscriptionDeleted { .. }
            ),
            SessionStage::Finished | SessionStage::Aborted => false,
        }
    }

    /// Takes in the report of the call that this session asked for, and tells what to say of
    /// it.
    pub fn step(&mut self, event: SessionEvent) -> (notice: Option<Notice>)
        requires
            spec_session_accepts(old(self).spec_stage(), event),
        ensures
            final(self).spec_stage() == spec_session_next(old(self).spec_stage(), event),
            notice == spec_session_notice(old(self).spec_stage(), event),
    {
        let stage = self.stage;
        match event {
            SessionEvent::Connected { status } => {
                if status == STATUS_GOOD {
                    self.stage = SessionStage::ReadingValue;
                    Some(Notice::Connected)
                } else {
                    self.stage = SessionStage::Aborted;
                    None
                }
            },
            SessionEvent::ValueRead { status, value } => {
                self.stage = SessionStage::Subscribing;
                if status == STATUS_GOOD {
                    match value.into_date_time() {
                        Some(ticks) => Some(Notice::CurrentTime { ticks }),
                        None => None,
                    }
                } else {
                    None
                }
            },
            SessionEvent::SubscriptionCreated { status, subscription_id } => {
                if status == STATUS_GOOD {
                    self.stage = SessionStage::Monitoring { subscription_id };
                    Some(Notice::SubscriptionCreated { subscription_id })
                } else {
                    self.stage = SessionStage::Aborted;
                    None
                }
            },
            SessionEvent::MonitoredItemCreated { status, monitored_item_id } => {
                match stage {
                    SessionStage::Monitoring { subscription_id } => {
                        if status == STATUS_GOOD {
                            self.stage = SessionStage::Running { subscription_id, monitored_item_id };
                            Some(Notice::MonitoredItemCreated { subscription_id, monitored_item_id })
                        } else {
                            self.stage = SessionStage::Aborted;
                            None
                        }
                    },
                    _ => None,
                }
            },
            SessionEvent::Iterated { status } => {
                match stage {
                    SessionStage::Running { subscription_id, .. } => {
                        if status != STATUS_GOOD {
                            self.stage = SessionStage::Unsubscribing { subscription_id };
                        }
                    },
                    _ => {},
                }
                None
            },
            SessionEvent::SubscriptionDeleted { status } => {
                match stage {
                    SessionStage::Unsubscribing { subscription_id } => {
                        if status == STATUS_GOOD {
                            self.stage = SessionStage::Finished;
                            Some(Notice::SubscriptionDeleted { subscription_id })
                        } else {
                            self.stage = SessionStage::Aborted;
                            None
                        }
                    },
                    _ => None,
                }
            },
        }
    }
}

/// Whether `event` reports that connecting, creating the subscription, creating the monitored
/// item or deleting the subscription failed.
pub open spec fn spec_failed_report(event: SessionEvent) -> bool {
    match event {
        SessionEvent::Connected { status } => !spec_is_good(status),
        SessionEvent::SubscriptionCreated { status, .. } => !spec_is_good(status),
        SessionEvent::MonitoredItemCreated { status, .. } => !spec_is_good(status),
        SessionEvent::SubscriptionDeleted { status } => !spec_is_good(status),
        _ => false,
    }
}

/// Whether `event` reports a successful connection.
pub open spec fn spec_connected(event: SessionEvent) -> bool {
    match event {
        SessionEvent::Connected { status } => spec_is_good(status),
        _ => false,
    }
}

/// Whether `event` reports a subscription created with this id.
pub open spec fn spec_subscribed(event: SessionEvent, subscription_id: u32) -> bool {
    match event {
        SessionEvent::SubscriptionCreated { status, subscription_id: id } => spec_is_good(status)
            && id == subscription_id,
        _ => false,
    }
}

/// Whether `event` reports a monitored item created.
pub open spec fn spec_monitored(event: SessionEvent) -> bool {
    match event {
        SessionEvent::MonitoredItemCreated { status, .. } => spec_is_good(status),
        _ => false,
    }
}

/// Whether `event` reports an iteration of the event loop, successful or not as `good` says.
pub open spec fn spec_iterated(event: SessionEvent, good: bool) -> bool {
    match event {
        SessionEvent::Iterated { status } => spec_is_good(status) == good,
        _ => false,
    }
}

/// Whether `event` reports a subscription deleted.
pub open spec fn spec_unsubscribed(event: SessionEvent) -> bool {
    match event {
        SessionEvent::SubscriptionDeleted { status } => spec_is_good(status),
        _ => false,
    }
}

/// A session ends exactly at the stages whose action deletes the client, and an ended session
/// takes in no further report: the client is deleted once, as the session's last action.
pub proof fn session_ends_by_deleting_client(stage: SessionStage, event: SessionEvent)
    ensures
        spec_session_ended(stage) <==> ((spec_session_action(stage) is DeleteClient)
            || (spec_session_action(stage) is ClearValueAndDeleteClient)),
        spec_session_ended(stage) ==> !spec_session_accepts(stage, event),
{
}

/// A failed report ends the session: in any run it is the last report taken in, and the run
/// ends aborted.
pub proof fn failed_report_aborts(stage: SessionStage, events: Seq<SessionEvent>, i: int)
    requires
        spec_session_valid_run(stage, events),
        0 <= i < events.len(),
        spec_failed_report(events[i]),
    ensures
        i == events.len() - 1,
        spec_session_run(stage, events) == SessionStage::Aborted,
    decreases events.len(),
{
    reveal_with_fuel(spec_session_valid_run, 2);
    reveal_with_fuel(spec_session_run, 2);
    let next = spec_session_next(stage, events[0]);
    let rest = events.drop_first();
    if i == 0 {
        assert(next == SessionStage::Aborted);
        if rest.len() > 0 {
            assert(!spec_session_accepts(next, rest[0]));
        }
        assert(rest.len() == 0);
    } else {
        assert(rest[i - 1] == events[i]);
        failed_report_aborts(next, rest, i - 1);
    }
}

/// A run that ends aborted ends with a failed report.
pub proof fn aborted_run_ends_with_failed_report(stage: SessionStage, events: Seq<SessionEvent>)
    requires
        spec_session_valid_run(stage, events),
        !spec_session_ended(stage),
        spec_session_run(stage, events) == SessionStage::Aborted,
    ensures
        events.len() > 0,
        spec_failed_report(events.last()),
    decreases events.len(),
{
    reveal_with_fuel(spec_session_valid_run, 2);
    reveal_with_fuel(spec_session_run, 2);
    let next = spec_session_next(stage, events[0]);
    let rest = events.drop_first();
    if rest.len() > 0 {
        if spec_session_ended(next) {
            assert(!spec_session_accepts(next, rest[0]));
        }
        aborted_run_ends_with_failed_report(next, rest);
        assert(rest.last() == events.last());
    } else {
        assert(spec_session_run(next, rest) == next);
        assert(events.last() == events[0]);
    }
}

/// From the running stage, a run that finishes iterates successfully for a while, then has one
/// iteration fail, then deletes the subscription of the running stage successfully.
proof fn running_until_finished(
    subscription_id: u32,
    monitored_item_id: u32,
    events: Seq<SessionEvent>,
)
    requires
        spec_session_valid_run(SessionStage::Running { subscription_id, monitored_item_id }, events),
        spec_session_run(SessionStage::Running { subscription_id, monitored_item_id }, events)
            == SessionStage::Finished,
    ensures
        events.len() >= 2,
        forall|i: int| 0 <= i < events.len() - 2 ==> spec_iterated(#[trigger] events[i], true),
        spec_iterated(events[events.len() - 2], false),
        spec_unsubscribed(events.last()),
        spec_session_run(
            SessionStage::Running { subscription_id, monitored_item_id },
            events.drop_last(),
        ) == (SessionStage::Unsubscribing { subscription_id }),
    decreases events.len(),
{
    reveal_with_fuel(spec_session_valid_run, 3);
    reveal_with_fuel(spec_session_run, 2);
    let stage = SessionStage::Running { subscription_id, monitored_item_id };
    let next = spec_session_next(stage, events[0]);
    let rest = events.drop_first();
    assert(events.len() > 0);
    if next == stage {
        running_until_finished(subscription_id, monitored_item_id, rest);
        assert forall|i: int| 0 <= i < events.len() - 2 implies spec_iterated(
            #[trigger] events[i],
            true,
        ) by {
            if i > 0 {
                assert(events[i] == rest[i - 1]);
            }
        }
        assert(events.drop_last().drop_first() =~= rest.drop_last());
        assert(events[events.len() - 2] == rest[rest.len() - 2]);
        assert(events.last() == rest.last());
    } else {
        let unsubscribing = SessionStage::Unsubscribing { subscription_id };
        assert(next == unsubscribing);
        assert(rest.len() > 0);
        let after = spec_session_next(unsubscribing, rest[0]);
        let tail = rest.drop_first();
        if tail.len() > 0 {
            assert(!spec_session_accepts(after, tail[0]));
        }
        assert(tail.len() == 0);
        assert(events.len() == 2);
        assert(events.drop_last().drop_first() =~= Seq::<SessionEvent>::empty());
        assert(events.last() == rest[0]);
    }
}

/// A session that finishes connected, read the value, created a subscription and a monitored
/// item, iterated successfully until one iteration failed, and then deleted the very
/// subscription it had created; every step that can fail succeeded.
pub proof fn finished_session_succeeded(events: Seq<SessionEvent>)
    requires
        spec_session_valid_run(SessionStage::Connecting, events),
        spec_session_run(SessionStage::Connecting, events) == SessionStage::Finished,
    ensures
        events.len() >= 6,
        spec_connected(events[0]),
        (events[1] is ValueRead),
        spec_subscribed(events[2], events[2]->SubscriptionCreated_subscription_id),
        spec_monitored(events[3]),
        forall|i: int| 4 <= i < events.len() - 2 ==> spec_iterated(#[trigger] events[i], true),
        spec_iterated(events[events.len() - 2], false),
        spec_unsubscribed(events.last()),
        spec_session_run(SessionStage::Connecting, events.drop_last()) == (
        SessionStage::Unsubscribing { subscription_id: events[2]->SubscriptionCreated_subscription_id }),
{
    reveal_with_fuel(spec_session_valid_run, 5);
    reveal_with_fuel(spec_session_run, 5);
    let e1 = events.drop_first();
    let s1 = spec_session_next(SessionStage::Connecting, events[0]);
    assert(events.len() > 0);
    assert(s1 == SessionStage::ReadingValue) by {
        if s1 == SessionStage::Aborted && e1.len() > 0 {
            assert(!spec_session_accepts(s1, e1[0]));
        }
    }
    assert(e1.len() > 0);
    let e2 = e1.drop_first();
    let s2 = spec_session_next(s1, e1[0]);
    assert(s2 == SessionStage::Subscribing);
    assert(e2.len() > 0);
    let e3 = e2.drop_first();
    let s3 = spec_session_next(s2, e2[0]);
    let subscription_id = e2[0]->SubscriptionCreated_subscription_id;
    assert(s3 == SessionStage::Monitoring { subscription_id }) by {
        if s3 == SessionStage::Aborted && e3.len() > 0 {
            assert(!spec_session_accepts(s3, e3[0]));
        }
    }
    assert(e3.len() > 0);
    let e4 = e3.drop_first();
    let s4 = spec_session_next(s3, e3[0]);
    let monitored_item_id = e3[0]->MonitoredItemCreated_monitored_item_id;
    assert(s4 == SessionStage::Running { subscription_id, monitored_item_id }) by {
        if s4 == SessionStage::Aborted && e4.len() > 0 {
            assert(!spec_session_accepts(s4, e4[0]));
        }
    }
    running_until_finished(subscription_id, monitored_item_id, e4);
    assert(events[1] == e1[0]);
    assert(events[2] == e2[0]);
    assert(events[3] == e3[0]);
    assert forall|i: int| 4 <= i < events.len() - 2 implies spec_iterated(
        #[trigger] events[i],
        true,
    ) by {
        assert(events[i] == e4[i - 4]);
    }
    assert(events[events.len() - 2] == e4[e4.len() - 2]);
    assert(events.last() == e4.last());
    let d0 = events.drop_last();
    assert(d0.drop_first() =~= e1.drop_last());
    assert(e1.drop_last().drop_first() =~= e2.drop_last());
    assert(e2.drop_last().drop_first() =~= e3.drop_last());
    assert(e3.drop_last().drop_first() =~= e4.drop_last());
    assert(d0[0] == events[0]);
    assert(e1.drop_last()[0] == e1[0]);
    assert(e2.drop_last()[0] == e2[0]);
    assert(e3.drop_last()[0] == e3[0]);
}

/// The subscription that a stage works on, if any.
pub open spec fn spec_stage_subscription(stage: SessionStage) -> Option<u32> {
    match stage {
        SessionStage::Monitoring { subscription_id } => Some(subscription_id),
        SessionStage::Running { subscription_id, .. } => Some(subscription_id),
        SessionStage::Unsubscribing { subscription_id } => Some(subscription_id),
        _ => None,
    }
}

/// Each stage asks for its own call: the node read and monitored is `0:2258` (the server's
/// current time), the monitored item is created in the stage's subscription, the event loop runs
/// for 250 ms at a time, and the subscription deleted is the stage's own.
pub proof fn action_follows_stage(subscription_id: u32, monitored_item_id: u32)
    ensures
        spec_session_action(SessionStage::Connecting) == SessionAction::Connect,
        spec_session_action(SessionStage::ReadingValue) == (SessionAction::ReadValue {
            node_id: NodeId::spec_numeric(0, 2258),
        }),
        spec_session_action(SessionStage::Subscribing) == SessionAction::CreateSubscription,
        spec_session_action(SessionStage::Monitoring { subscription_id }) == (
        SessionAction::CreateMonitoredItem {
            subscription_id,
            node_id: NodeId::spec_numeric(0, 2258),
        }),
        spec_session_action(SessionStage::Running { subscription_id, monitored_item_id }) == (
        SessionAction::RunIterate { timeout_ms: 250 }),
        spec_session_action(SessionStage::Unsubscribing { subscription_id }) == (
        SessionAction::DeleteSubscription { subscription_id }),
        spec_session_action(SessionStage::Finished) == SessionAction::ClearValueAndDeleteClient,
        spec_session_action(SessionStage::Aborted) == SessionAction::DeleteClient,
{
}

/// A good read of a scalar `DateTime` of `ticks` is reported as that very time; a read that is
/// not good, or whose value is an array, of another type or absent, is not reported; and a
/// reported time is always the scalar `DateTime` that was read with a good status.
pub proof fn read_notice_carries_the_time(status: u32, value: Variant, ticks: i64)
    ensures
        (status == 0 && value.spec_array_length() == 0 && value.spec_type() == VariantType::Named(
            DataType::spec_from_type_id(13),
        ) && value.spec_data() == VariantData::DateTime(ticks)) ==> spec_session_notice(
            SessionStage::ReadingValue,
            SessionEvent::ValueRead { status, value },
        ) == Some(Notice::CurrentTime { ticks }),
        spec_session_notice(SessionStage::ReadingValue, SessionEvent::ValueRead { status, value })
            == Some(Notice::CurrentTime { ticks }) ==> (status == 0 && value.spec_array_length()
            == 0 && value.spec_data() == VariantData::DateTime(ticks)),
        status != 0 ==> spec_session_notice(
            SessionStage::ReadingValue,
            SessionEvent::ValueRead { status, value },
        ) is None,
        value.spec_array_length() != 0 ==> spec_session_notice(
            SessionStage::ReadingValue,
            SessionEvent::ValueRead { status, value },
        ) is None,
{
    crate::variant::date_time_value_is_the_scalar(value, ticks);
}

/// The notices of a good report name what was reported: the subscription id that creation
/// returned, the stage's subscription with the monitored item id that creation returned, and the
/// stage's subscription once deleted. A report that is not good gives no notice.
pub proof fn notices_name_what_was_reported(
    status: u32,
    subscription_id: u32,
    monitored_item_id: u32,
    reported_id: u32,
)
    ensures
        spec_session_notice(SessionStage::Connecting, SessionEvent::Connected { status }) == (if status
            == 0 {
            Some(Notice::Connected)
        } else {
            None
        }),
        spec_session_notice(
            SessionStage::Subscribing,
            SessionEvent::SubscriptionCreated { status, subscription_id: reported_id },
        ) == (if status == 0 {
            Some(Notice::SubscriptionCreated { subscription_id: reported_id })
        } else {
            None
        }),
        spec_session_notice(
            SessionStage::Monitoring { subscription_id },
            SessionEvent::MonitoredItemCreated { status, monitored_item_id: reported_id },
        ) == (if status == 0 {
            Some(Notice::MonitoredItemCreated { subscription_id, monitored_item_id: reported_id })
        } else {
            None
        }),
        spec_session_notice(
            SessionStage::Running { subscription_id, monitored_item_id },
            SessionEvent::Iterated { status },
        ) is None,
        spec_session_notice(
            SessionStage::Unsubscribing { subscription_id },
            SessionEvent::SubscriptionDeleted { status },
        ) == (if status == 0 {
            Some(Notice::SubscriptionDeleted { subscription_id })
        } else {
            None
        }),
{
}

/// Once a stage works on a subscription, every later stage of the run works on the same one,
/// until the session ends.
proof fn run_keeps_subscription(stage: SessionStage, events: Seq<SessionEvent>, subscription_id: u32)
    requires
        spec_session_valid_run(stage, events),
        spec_stage_subscription(stage) == Some(subscription_id),
    ensures
        spec_session_ended(spec_session_run(stage, events)) || spec_stage_subscription(
            spec_session_run(stage, events),
        ) == Some(subscription_id),
    decreases events.len(),
{
    reveal_with_fuel(spec_session_valid_run, 2);
    reveal_with_fuel(spec_session_run, 2);
    if events.len() > 0 {
        let next = spec_session_next(stage, events[0]);
        let rest = events.drop_first();
        if spec_session_ended(next) {
            if rest.len() > 0 {
                assert(!spec_session_accepts(next, rest[0]));
            }
        } else {
            run_keeps_subscription(next, rest, subscription_id);
        }
    }
}

/// In a run from the start, the subscription that is to be deleted is the one whose creation
/// was reported (with a good status) as the third report.
pub proof fn deleted_subscription_is_the_created_one(events: Seq<SessionEvent>, subscription_id: u32)
    requires
        spec_session_valid_run(SessionStage::Connecting, events),
        spec_session_run(SessionStage::Connecting, events) == (SessionStage::Unsubscribing {
            subscription_id,
        }),
    ensures
        events.len() >= 5,
        spec_subscribed(events[2], subscription_id),
        spec_session_action(spec_session_run(SessionStage::Connecting, events)) == (
        SessionAction::DeleteSubscription { subscription_id }),
{
    reveal_with_fuel(spec_session_valid_run, 4);
    reveal_with_fuel(spec_session_run, 4);
    let e1 = events.drop_first();
    let e2 = e1.drop_first();
    let e3 = e2.drop_first();
    let e4 = e3.drop_first();
    assert(events.len() > 0);
    let s1 = spec_session_next(SessionStage::Connecting, events[0]);
    if s1 == SessionStage::Aborted && e1.len() > 0 {
        assert(!spec_session_accepts(s1, e1[0]));
    }
    assert(s1 == SessionStage::ReadingValue);
    assert(e1.len() > 0);
    let s2 = spec_session_next(s1, e1[0]);
    assert(s2 == SessionStage::Subscribing);
    assert(e2.len() > 0);
    let s3 = spec_session_next(s2, e2[0]);
    if s3 == SessionStage::Aborted && e3.len() > 0 {
        assert(!spec_session_accepts(s3, e3[0]));
    }
    let created = e2[0]->SubscriptionCreated_subscription_id;
    assert(s3 == SessionStage::Monitoring { subscription_id: created });
    assert(spec_session_run(SessionStage::Connecting, events) == spec_session_run(s3, e3));
    run_keeps_subscription(s3, e3, created);
    assert(created == subscription_id);
    assert(events[2] == e2[0]);
    assert(e3.len() > 0);
    let s4 = spec_session_next(s3, e3[0]);
    if s4 == SessionStage::Aborted && e4.len() > 0 {
        assert(!spec_session_accepts(s4, e4[0]));
    }
    assert(e4.len() > 0);
}

/// Logging in by user name needs both a user name and a password, and then uses exactly those;
/// the user is told `username U, password P` for it, and `anonymous` otherwise.
pub proof fn login_uses_both_credentials(username: Option<String>, password: Option<String>)
    ensures
        (username is Some && password is Some) ==> Login::spec_from_arguments(username, password)
            == (Login::UserName { username: username->0, password: password->0 }),
        !(username is Some && password is Some) ==> Login::spec_from_arguments(username, password)
            == Login::Anonymous,
        Login::Anonymous.spec_credentials() == "anonymous"@,
        (username is Some && password is Some) ==> Login::spec_from_arguments(
            username,
            password,
        ).spec_credentials() == "username "@ + (username->0)@ + ", password "@ + (password->0)@,
{
}

} // verus!
