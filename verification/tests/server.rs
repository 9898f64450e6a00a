use ancs_bridge::server::{AncsServer, ServerAction, ServerEvent};

const INITIAL_EVENT: [u8; 8] = [0x00, 0x01, 0x00, 0x01, 0, 0, 0, 0];

#[test]
fn fresh_server_state() {
    let s = AncsServer::new();
    assert_eq!(s.heartbeat_counter, 1);
    assert_eq!(s.notification_source_value, INITIAL_EVENT.to_vec());
    assert!(s.data_source_value.is_empty());
}

#[test]
fn unencrypted_control_write_is_rejected_without_data_source_update() {
    let mut s = AncsServer::new();
    let actions = s.on_control_point_write(false, &[0x00, 1, 2, 3, 4], 1);
    assert_eq!(actions.len(), 1);
    assert!(matches!(actions[0], ServerAction::RejectWrite));
    assert!(s.data_source_value.is_empty());
}

#[test]
fn encrypted_control_write_updates_and_notifies_data_source() {
    let mut s = AncsServer::new();
    let actions = s.on_control_point_write(true, &[0x77], 1);
    assert_eq!(actions.len(), 2);
    match &actions[0] {
        ServerAction::SetDataSourceValue { payload } => assert_eq!(payload, &vec![0x77, 0x00]),
        _ => panic!("expected a data source update first"),
    }
    assert!(matches!(actions[1], ServerAction::NotifyDataSource));
    assert_eq!(s.data_source_value, vec![0x77, 0x00]);
}

#[test]
fn encrypted_control_write_without_listeners_only_stores() {
    let mut s = AncsServer::new();
    let actions = s.on_control_point_write(true, &[0x77], 0);
    assert_eq!(actions.len(), 1);
    assert!(matches!(actions[0], ServerAction::SetDataSourceValue { .. }));
    assert_eq!(s.data_source_value, vec![0x77, 0x00]);
}

#[test]
fn empty_control_write_does_nothing() {
    let mut s = AncsServer::new();
    let actions = s.on_control_point_write(true, &[], 1);
    assert!(actions.is_empty());
    assert!(s.data_source_value.is_empty());
}

#[test]
fn subscription_before_encryption_defers_delivery() {
    let mut s = AncsServer::new();
    // subscribe over a not-yet-encrypted link: accepted, nothing delivered
    let actions = s.on_notification_source_subscribe(7, false, true);
    assert!(actions.is_empty());
    // the authentication-complete event then delivers exactly one
    // notification, to that connection
    let actions = s.on_authentication_complete(7, true, 1);
    assert_eq!(actions.len(), 3);
    assert!(matches!(actions[0], ServerAction::RestartAdvertising));
    assert!(matches!(&actions[1], ServerAction::SetNotificationSourceValue { payload } if payload == &INITIAL_EVENT.to_vec()));
    let deliveries: Vec<_> = actions
        .iter()
        .filter(|a| {
            matches!(
                a,
                ServerAction::NotifyConnection { .. } | ServerAction::NotifyAllSubscribers { .. }
            )
        })
        .collect();
    assert_eq!(deliveries.len(), 1);
    match deliveries[0] {
        ServerAction::NotifyConnection { conn, payload } => {
            assert_eq!(*conn, 7);
            assert_eq!(payload, &INITIAL_EVENT.to_vec());
        },
        _ => panic!("the single delivery must target the authenticated connection"),
    }
}

#[test]
fn encrypted_subscription_gets_the_initial_event_at_once() {
    let mut s = AncsServer::new();
    let actions = s.on_notification_source_subscribe(3, true, true);
    assert_eq!(actions.len(), 1);
    match &actions[0] {
        ServerAction::NotifyConnection { conn, payload } => {
            assert_eq!(*conn, 3);
            assert_eq!(payload, &INITIAL_EVENT.to_vec());
        },
        _ => panic!("expected an immediate targeted notification"),
    }
}

#[test]
fn unsubscribe_does_nothing() {
    let mut s = AncsServer::new();
    let actions = s.on_notification_source_subscribe(3, true, false);
    assert!(actions.is_empty());
}

#[test]
fn failed_authentication_changes_nothing() {
    let mut s = AncsServer::new();
    let actions = s.on_authentication_complete(3, false, 1);
    assert!(actions.is_empty());
    assert_eq!(s.heartbeat_counter, 1);
}

#[test]
fn authentication_without_subscribers_only_restarts_advertising() {
    let mut s = AncsServer::new();
    let actions = s.on_authentication_complete(3, true, 0);
    assert_eq!(actions.len(), 1);
    assert!(matches!(actions[0], ServerAction::RestartAdvertising));
}

#[test]
fn heartbeat_counts_up_and_broadcasts() {
    let mut s = AncsServer::new();
    let actions = s.on_heartbeat_tick(2);
    assert_eq!(s.heartbeat_counter, 2);
    assert_eq!(actions.len(), 2);
    let expected = [0x00, 0x01, 0x00, 0x01, 1, 0, 0, 0].to_vec();
    assert!(matches!(&actions[0], ServerAction::SetNotificationSourceValue { payload } if payload == &expected));
    assert!(matches!(&actions[1], ServerAction::NotifyAllSubscribers { payload } if payload == &expected));
    assert_eq!(s.notification_source_value, expected);
}

#[test]
fn heartbeat_advances_counter_even_without_subscribers() {
    let mut s = AncsServer::new();
    let actions = s.on_heartbeat_tick(0);
    assert!(actions.is_empty());
    assert_eq!(s.heartbeat_counter, 2);
    assert_eq!(s.notification_source_value, INITIAL_EVENT.to_vec());
}

#[test]
fn heartbeat_counter_wraps() {
    let mut s = AncsServer::new();
    s.heartbeat_counter = u32::MAX;
    let _ = s.on_heartbeat_tick(0);
    assert_eq!(s.heartbeat_counter, 0);
}

#[test]
fn advertising_restarts_within_connection_budget() {
    let mut s = AncsServer::new();
    let actions = s.on_connect(1, 3);
    assert_eq!(actions.len(), 1);
    assert!(matches!(actions[0], ServerAction::RestartAdvertising));
    let actions = s.on_connect(3, 3);
    assert!(actions.is_empty());
    let actions = s.on_disconnect();
    assert_eq!(actions.len(), 1);
    assert!(matches!(actions[0], ServerAction::RestartAdvertising));
}

#[test]
fn dispatcher_routes_events() {
    let mut s = AncsServer::new();
    let actions = s.handle_event(
        &ServerEvent::ControlPointWrite {
            encrypted: false,
            request: vec![0x00, 1, 2, 3, 4],
            data_source_subscribers: 1,
        },
    );
    assert!(matches!(actions[0], ServerAction::RejectWrite));
    let actions = s.handle_event(&ServerEvent::HeartbeatTick { notification_subscribers: 0 });
    assert!(actions.is_empty());
    assert_eq!(s.heartbeat_counter, 2);
    let actions = s.handle_event(
        &ServerEvent::DataSourceSubscribe { conn: 1, subscribed: true },
    );
    assert!(actions.is_empty());
    let actions = s.handle_event(&ServerEvent::Disconnected);
    assert!(matches!(actions[0], ServerAction::RestartAdvertising));
    let actions = s.handle_event(
        &ServerEvent::Connected { connected_count: 0, max_connections: 2 },
    );
    assert!(matches!(actions[0], ServerAction::RestartAdvertising));
    let actions = s.handle_event(
        &ServerEvent::NotificationSourceSubscribe { conn: 5, encrypted: false, subscribed: true },
    );
    assert!(actions.is_empty());
    let actions = s.handle_event(
        &ServerEvent::AuthenticationComplete { conn: 5, success: true, notification_subscribers: 1 },
    );
    assert_eq!(actions.len(), 3);
}
