//! The emulated ANCS server as an event-driven state machine.
//!
//! The BLE stack's callbacks (subscribe, write, connect, disconnect,
//! authentication) and the heartbeat timer are turned into [`ServerEvent`]s;
//! each handler is a pure decision returning the [`ServerAction`]s the radio
//! layer must carry out. The security gate lives here: nothing is delivered
//! on an unencrypted link, and a Control Point write without encryption is
//! rejected without touching the Data Source.

use vstd::prelude::*;

use crate::codec::{build_control_point_response, build_notification_source_payload,
    control_point_response, notification_source_payload};

verus! {

/// A BLE-stack callback or timer tick, with the connection facts the stack
/// reported alongside it.
pub enum ServerEvent {
    /// The peer (un)subscribed to Notification Source notifications.
    NotificationSourceSubscribe { conn: u16, encrypted: bool, subscribed: bool },
    /// The peer (un)subscribed to Data Source notifications.
    DataSourceSubscribe { conn: u16, subscribed: bool },
    /// A Control Point write carrying `request`, with the Data Source
    /// subscriber count at that moment.
    ControlPointWrite { encrypted: bool, request: Vec<u8>, data_source_subscribers: u32 },
    /// A peer connected; the stack reports how many connections are live and
    /// how many it supports.
    Connected { connected_count: u32, max_connections: u32 },
    /// A peer disconnected.
    Disconnected,
    /// Link security negotiation finished for `conn`, with the Notification
    /// Source subscriber count at that moment.
    AuthenticationComplete { conn: u16, success: bool, notification_subscribers: u32 },
    /// The periodic heartbeat fired, with the Notification Source subscriber
    /// count at that moment.
    HeartbeatTick { notification_subscribers: u32 },
}

/// What the radio layer must do after a handler ran, in order.
pub enum ServerAction {
    /// Store `payload` as the Notification Source characteristic value.
    SetNotificationSourceValue { payload: Vec<u8> },
    /// Notify `payload` on Notification Source to one connection.
    NotifyConnection { conn: u16, payload: Vec<u8> },
    /// Notify `payload` on Notification Source to every subscriber.
    NotifyAllSubscribers { payload: Vec<u8> },
    /// Store `payload` as the Data Source characteristic value.
    SetDataSourceValue { payload: Vec<u8> },
    /// Notify the current Data Source value to its subscribers.
    NotifyDataSource,
    /// Start advertising again so a fresh peer can find the device.
    RestartAdvertising,
    /// Deny the write at the protocol level.
    RejectWrite,
}

/// Whether an action delivers a Notification Source notification.
pub open spec fn is_delivery(a: ServerAction) -> bool {
    (a matches ServerAction::NotifyConnection { .. }) || (a
        matches ServerAction::NotifyAllSubscribers { .. })
}

/// How many of the actions deliver a Notification Source notification.
pub open spec fn delivery_count(actions: Seq<ServerAction>) -> int
    decreases actions.len(),
{
    if actions.len() == 0 {
        0
    } else {
        delivery_count(actions.drop_last()) + if is_delivery(actions.last()) {
            1int
        } else {
            0
        }
    }
}

/// The emulated server's own state: the heartbeat UID counter and the two
/// notifying characteristics' stored values.
pub struct AncsServer {
    pub heartbeat_counter: u32,
    pub notification_source_value: Vec<u8>,
    pub data_source_value: Vec<u8>,
}

/// Neither characteristic value nor the counter changed.
pub open spec fn values_unchanged(pre: AncsServer, post: AncsServer) -> bool {
    &&& post.heartbeat_counter == pre.heartbeat_counter
    &&& post.notification_source_value@ == pre.notification_source_value@
    &&& post.data_source_value@ == pre.data_source_value@
}

/// A Notification Source subscribe is accepted at once, but content flows
/// only on an encrypted link: an unencrypted subscriber gets nothing until
/// authentication completes; an encrypted one gets the initial event at
/// once.
pub open spec fn notification_subscribe_behavior(
    pre: AncsServer,
    post: AncsServer,
    conn: u16,
    encrypted: bool,
    subscribed: bool,
    actions: Seq<ServerAction>,
) -> bool {
    &&& values_unchanged(pre, post)
    &&& !encrypted ==> delivery_count(actions) == 0
    &&& if subscribed && encrypted {
        &&& actions.len() == 1
        &&& (actions[0] matches ServerAction::NotifyConnection { conn: c, payload } && c == conn
            && payload@ == notification_source_payload(0))
    } else {
        actions.len() == 0
    }
}

/// Data Source subscription changes are only acknowledged.
pub open spec fn data_subscribe_behavior(
    pre: AncsServer,
    post: AncsServer,
    actions: Seq<ServerAction>,
) -> bool {
    values_unchanged(pre, post) && actions.len() == 0
}

/// An unencrypted Control Point write is rejected and changes nothing; an
/// encrypted one stores the command response in the Data Source and notifies
/// it when someone listens.
pub open spec fn control_point_behavior(
    pre: AncsServer,
    post: AncsServer,
    encrypted: bool,
    request: Seq<u8>,
    data_source_subscribers: u32,
    actions: Seq<ServerAction>,
) -> bool {
    if !encrypted {
        values_unchanged(pre, post) && actions == seq![ServerAction::RejectWrite]
    } else {
        &&& post.heartbeat_counter == pre.heartbeat_counter
        &&& post.notification_source_value@ == pre.notification_source_value@
        &&& match control_point_response(request) {
            None => post.data_source_value@ == pre.data_source_value@ && actions.len() == 0,
            Some(resp) => {
                &&& post.data_source_value@ == resp
                &&& actions.len() == (if data_source_subscribers > 0 {
                    2int
                } else {
                    1
                })
                &&& (actions[0] matches ServerAction::SetDataSourceValue { payload } && payload@
                    == resp)
                &&& data_source_subscribers > 0 ==> actions[1] == ServerAction::NotifyDataSource
            },
        }
    }
}

/// Advertising restarts after a connect while the connection budget allows.
pub open spec fn connect_behavior(
    pre: AncsServer,
    post: AncsServer,
    connected_count: u32,
    max_connections: u32,
    actions: Seq<ServerAction>,
) -> bool {
    &&& values_unchanged(pre, post)
    &&& if connected_count < max_connections {
        actions == seq![ServerAction::RestartAdvertising]
    } else {
        actions.len() == 0
    }
}

/// Advertising always restarts after a disconnect.
pub open spec fn disconnect_behavior(
    pre: AncsServer,
    post: AncsServer,
    actions: Seq<ServerAction>,
) -> bool {
    values_unchanged(pre, post) && actions == seq![ServerAction::RestartAdvertising]
}

/// When the link becomes encrypted, the deferred initial event goes out:
/// exactly one delivery, to that connection, if anyone subscribed meanwhile;
/// a failed negotiation changes nothing.
pub open spec fn auth_complete_behavior(
    pre: AncsServer,
    post: AncsServer,
    conn: u16,
    success: bool,
    notification_subscribers: u32,
    actions: Seq<ServerAction>,
) -> bool {
    &&& post.heartbeat_counter == pre.heartbeat_counter
    &&& post.data_source_value@ == pre.data_source_value@
    &&& if !success {
        values_unchanged(pre, post) && actions.len() == 0
    } else if notification_subscribers == 0 {
        values_unchanged(pre, post) && actions == seq![ServerAction::RestartAdvertising]
    } else {
        &&& post.notification_source_value@ == notification_source_payload(0)
        &&& actions.len() == 3
        &&& actions[0] == ServerAction::RestartAdvertising
        &&& (actions[1] matches ServerAction::SetNotificationSourceValue { payload } && payload@
            == notification_source_payload(0))
        &&& (actions[2] matches ServerAction::NotifyConnection { conn: c, payload } && c == conn
            && payload@ == notification_source_payload(0))
        &&& delivery_count(actions) == 1
    }
}

/// Every tick advances the UID counter (wrapping; the UID is an opaque
/// identifier); with at least one subscriber, one synthetic
/// Notification-Added event goes out to all of them.
pub open spec fn heartbeat_behavior(
    pre: AncsServer,
    post: AncsServer,
    notification_subscribers: u32,
    actions: Seq<ServerAction>,
) -> bool {
    &&& post.data_source_value@ == pre.data_source_value@
    &&& post.heartbeat_counter == (if pre.heartbeat_counter == u32::MAX {
        0u32
    } else {
        (pre.heartbeat_counter + 1) as u32
    })
    &&& if notification_subscribers > 0 {
        &&& post.notification_source_value@ == notification_source_payload(pre.heartbeat_counter)
        &&& actions.len() == 2
        &&& (actions[0] matches ServerAction::SetNotificationSourceValue { payload } && payload@
            == notification_source_payload(pre.heartbeat_counter))
        &&& (actions[1] matches ServerAction::NotifyAllSubscribers { payload } && payload@
            == notification_source_payload(pre.heartbeat_counter))
    } else {
        post.notification_source_value@ == pre.notification_source_value@ && actions.len() == 0
    }
}

impl AncsServer {
    /// A fresh server: heartbeat UIDs start at 1, the Notification Source
    /// holds the initial event with UID 0, the Data Source is empty.
    pub fn new() -> (s: AncsServer)
        ensures
            s.heartbeat_counter == 1,
            s.notification_source_value@ == notification_source_payload(0),
            s.data_source_value@ == Seq::<u8>::empty(),
    {
        let initial = build_notification_source_payload(0);
        AncsServer {
            heartbeat_counter: 1,
            notification_source_value: vstd::slice::slice_to_vec(initial.as_slice()),
            data_source_value: Vec::new(),
        }
    }

    /// Notification Source (un)subscription: accepted at the protocol level,
    /// but the initial event is delivered only over an encrypted link.
    pub fn on_notification_source_subscribe(
        &mut self,
        conn: u16,
        encrypted: bool,
        subscribed: bool,
    ) -> (actions: Vec<ServerAction>)
        ensures
            notification_subscribe_behavior(
                *old(self),
                *final(self),
                conn,
                encrypted,
                subscribed,
                actions@,
            ),
    {
        let mut actions: Vec<ServerAction> = Vec::new();
        if subscribed && encrypted {
            let payload = build_notification_source_payload(0);
            actions.push(
                ServerAction::NotifyConnection {
                    conn,
                    payload: vstd::slice::slice_to_vec(payload.as_slice()),
                },
            );
        }
        proof {
            if actions@.len() == 1 {
                assert(delivery_count(actions@) == 1) by {
                    reveal_with_fuel(delivery_count, 2);
                    assert(actions@.drop_last() =~= Seq::<ServerAction>::empty());
                }
            }
        }
        actions
    }

    /// Data Source (un)subscription: recorded by the stack, nothing to do.
    pub fn on_data_source_subscribe(&mut self, conn: u16, subscribed: bool) -> (actions: Vec<
        ServerAction,
    >)
        ensures
            data_subscribe_behavior(*old(self), *final(self), actions@),
    {
        let _ = conn;
        let _ = subscribed;
        Vec::new()
    }

    /// A Control Point write: rejected without encryption; otherwise the
    /// command response becomes the Data Source value and is notified when
    /// someone listens.
    pub fn on_control_point_write(
        &mut self,
        encrypted: bool,
        request: &[u8],
        data_source_subscribers: u32,
    ) -> (actions: Vec<ServerAction>)
        ensures
            control_point_behavior(
                *old(self),
                *final(self),
                encrypted,
                request@,
                data_source_subscribers,
                actions@,
            ),
    {
        let mut actions: Vec<ServerAction> = Vec::new();
        if !encrypted {
            actions.push(ServerAction::RejectWrite);
            proof {
                assert(actions@ =~= seq![ServerAction::RejectWrite]);
            }
            return actions;
        }
        match build_control_point_response(request) {
            None => actions,
            Some(response) => {
                self.data_source_value = vstd::slice::slice_to_vec(response.as_slice());
                actions.push(ServerAction::SetDataSourceValue { payload: response });
                if data_source_subscribers > 0 {
                    actions.push(ServerAction::NotifyDataSource);
                }
                actions
            },
        }
    }

    /// A peer connected: keep advertising while the connection budget
    /// allows.
    pub fn on_connect(&mut self, connected_count: u32, max_connections: u32) -> (actions: Vec<
        ServerAction,
    >)
        ensures
            connect_behavior(*old(self), *final(self), connected_count, max_connections, actions@),
    {
        let mut actions: Vec<ServerAction> = Vec::new();
        if connected_count < max_connections {
            actions.push(ServerAction::RestartAdvertising);
            proof {
                assert(actions@ =~= seq![ServerAction::RestartAdvertising]);
            }
        }
        actions
    }

    /// A peer disconnected: always advertise again.
    pub fn on_disconnect(&mut self) -> (actions: Vec<ServerAction>)
        ensures
            disconnect_behavior(*old(self), *final(self), actions@),
    {
        let mut actions: Vec<ServerAction> = Vec::new();
        actions.push(ServerAction::RestartAdvertising);
        proof {
            assert(actions@ =~= seq![ServerAction::RestartAdvertising]);
        }
        actions
    }

    /// Security negotiation finished: on success the deferred initial event
    /// is delivered exactly once to that connection, if anyone subscribed.
    pub fn on_authentication_complete(
        &mut self,
        conn: u16,
        success: bool,
        notification_subscribers: u32,
    ) -> (actions: Vec<ServerAction>)
        ensures
            auth_complete_behavior(
                *old(self),
                *final(self),
                conn,
                success,
                notification_subscribers,
                actions@,
            ),
    {
        let mut actions: Vec<ServerAction> = Vec::new();
        if !success {
            return actions;
        }
        actions.push(ServerAction::RestartAdvertising);
        if notification_subscribers > 0 {
            let payload = build_notification_source_payload(0);
            self.notification_source_value = vstd::slice::slice_to_vec(payload.as_slice());
            actions.push(
                ServerAction::SetNotificationSourceValue {
                    payload: vstd::slice::slice_to_vec(payload.as_slice()),
                },
            );
            actions.push(
                ServerAction::NotifyConnection {
                    conn,
                    payload: vstd::slice::slice_to_vec(payload.as_slice()),
                },
            );
            proof {
                let s = actions@;
                assert(delivery_count(s) == 1) by {
                    reveal_with_fuel(delivery_count, 4);
                    assert(!is_delivery(s.drop_last().last()));
                    assert(!is_delivery(s.drop_last().drop_last().last()));
                    assert(s.drop_last().drop_last().drop_last() =~= Seq::<ServerAction>::empty());
                }
            }
        } else {
            proof {
                assert(actions@ =~= seq![ServerAction::RestartAdvertising]);
            }
        }
        actions
    }

    /// A heartbeat tick: the UID counter advances every tick; with
    /// subscribers, one synthetic event goes out to all of them.
    pub fn on_heartbeat_tick(&mut self, notification_subscribers: u32) -> (actions: Vec<
        ServerAction,
    >)
        ensures
            heartbeat_behavior(*old(self), *final(self), notification_subscribers, actions@),
    {
        let uid = self.heartbeat_counter;
        self.heartbeat_counter = self.heartbeat_counter.wrapping_add(1);
        let mut actions: Vec<ServerAction> = Vec::new();
        if notification_subscribers > 0 {
            let payload = build_notification_source_payload(uid);
            self.notification_source_value = vstd::slice::slice_to_vec(payload.as_slice());
            actions.push(
                ServerAction::SetNotificationSourceValue {
                    payload: vstd::slice::slice_to_vec(payload.as_slice()),
                },
            );
            actions.push(
                ServerAction::NotifyAllSubscribers {
                    payload: vstd::slice::slice_to_vec(payload.as_slice()),
                },
            );
        }
        actions
    }

    /// Dispatches one stack event to its handler.
    pub fn handle_event(&mut self, event: &ServerEvent) -> (actions: Vec<ServerAction>)
        ensures
            match *event {
                ServerEvent::NotificationSourceSubscribe { conn, encrypted, subscribed } => {
                    notification_subscribe_behavior(
                        *old(self),
                        *final(self),
                        conn,
                        encrypted,
                        subscribed,
                        actions@,
                    )
                },
                ServerEvent::DataSourceSubscribe { .. } => {
                    data_subscribe_behavior(*old(self), *final(self), actions@)
                },
                ServerEvent::ControlPointWrite { encrypted, ref request, data_source_subscribers } => {
                    control_point_behavior(
                        *old(self),
                        *final(self),
                        encrypted,
                        request@,
                        data_source_subscribers,
                        actions@,
                    )
                },
                ServerEvent::Connected { connected_count, max_connections } => {
                    connect_behavior(
                        *old(self),
                        *final(self),
                        connected_count,
                        max_connections,
                        actions@,
                    )
                },
                ServerEvent::Disconnected => {
                    disconnect_behavior(*old(self), *final(self), actions@)
                },
                ServerEvent::AuthenticationComplete { conn, success, notification_subscribers } => {
                    auth_complete_behavior(
                        *old(self),
                        *final(self),
                        conn,
                        success,
                        notification_subscribers,
                        actions@,
                    )
                },
                ServerEvent::HeartbeatTick { notification_subscribers } => {
                    heartbeat_behavior(
                        *old(self),
                        *final(self),
                        notification_subscribers,
                        actions@,
                    )
                },
            },
    {
        match event {
            ServerEvent::NotificationSourceSubscribe { conn, encrypted, subscribed } => self
                .on_notification_source_subscribe(*conn, *encrypted, *subscribed),
            ServerEvent::DataSourceSubscribe { conn, subscribed } => self.on_data_source_subscribe(
                *conn,
                *subscribed,
            ),
            ServerEvent::ControlPointWrite { encrypted, request, data_source_subscribers } => self
                .on_control_point_write(*encrypted, request.as_slice(), *data_source_subscribers),
            ServerEvent::Connected { connected_count, max_connections } => self.on_connect(
                *connected_count,
                *max_connections,
            ),
            ServerEvent::Disconnected => self.on_disconnect(),
            ServerEvent::AuthenticationComplete { conn, success, notification_subscribers } => self
                .on_authentication_complete(*conn, *success, *notification_subscribers),
            ServerEvent::HeartbeatTick { notification_subscribers } => self.on_heartbeat_tick(
                *notification_subscribers,
            ),
        }
    }
}

} // verus!
