use ancs_bridge::allocator::{align_up, PsramFirstAllocator};
use ancs_bridge::identity::{advertised_name, apple_manufacturer_data, characteristic_uuid_bytes,
    service_uuid_bytes, AncsCharacteristic};
use ancs_bridge::error::BridgeError;
use ancs_bridge::pointer::{pointer_transition, PointerAction};
use ancs_bridge::resolver::Role;
use ancs_bridge::scanner::{scan_hit, Advertisement, MIWEAR_SERVICE_UUID};
use ancs_bridge::session::{advance, DisconnectSlot, SessionEvent, SessionState};

#[test]
fn bootstrap_happy_path() {
    let mut state = SessionState::Idle;
    let steps = [
        SessionEvent::Started,
        SessionEvent::ScanMatched,
        SessionEvent::ConnectSucceeded,
        SessionEvent::ServiceDiscovered,
        SessionEvent::CharacteristicsResolved,
        SessionEvent::SessionEstablished,
    ];
    for step in steps {
        state = advance(state, step).unwrap();
    }
    assert_eq!(state, SessionState::SessionActive);
    let state = advance(state, SessionEvent::DisconnectSignalled(19)).unwrap();
    assert_eq!(state, SessionState::Disconnected { reason: 19 });
}

#[test]
fn each_failure_surfaces_its_own_error() {
    assert_eq!(
        advance(SessionState::Scanning, SessionEvent::ScanTimedOut),
        Err(BridgeError::ScanTimeout)
    );
    assert_eq!(
        advance(SessionState::Connecting, SessionEvent::ConnectFailed),
        Err(BridgeError::ConnectError)
    );
    assert_eq!(
        advance(SessionState::DiscoveringService, SessionEvent::ServiceMissing),
        Err(BridgeError::ServiceNotFound)
    );
    assert_eq!(
        advance(
            SessionState::ResolvingCharacteristics,
            SessionEvent::CharacteristicsMissing(Role::Receive)
        ),
        Err(BridgeError::MissingCharacteristic(Role::Receive))
    );
    assert_eq!(
        advance(SessionState::Subscribing, SessionEvent::SubscribeRefused),
        Err(BridgeError::SubscribeFailed)
    );
    assert_eq!(
        advance(SessionState::Subscribing, SessionEvent::SessionRejected),
        Err(BridgeError::SessionSetupFailed)
    );
}

#[test]
fn double_disconnect_wakes_once_and_keeps_first_reason() {
    let mut slot = DisconnectSlot::new();
    assert_eq!(slot.observed(), None);
    // the first disconnect event wins and wakes the waiter
    assert!(slot.record(8));
    // a second event in rapid succession must not double-signal
    assert!(!slot.record(42));
    assert_eq!(slot.observed(), Some(8));
}

#[test]
fn scan_matches_by_name_substring() {
    let adv = Advertisement {
        name: Some(b"Xiaomi Watch S4 ABCD".to_vec()),
        service_uuids: vec![],
    };
    assert!(scan_hit(&adv, b"Xiaomi Watch S4", MIWEAR_SERVICE_UUID));
    assert!(!scan_hit(&adv, b"Other Watch", MIWEAR_SERVICE_UUID));
}

#[test]
fn scan_matches_by_service_uuid() {
    let adv = Advertisement { name: None, service_uuids: vec![0x180F, 0xFE95] };
    assert!(scan_hit(&adv, b"Xiaomi Watch S4", MIWEAR_SERVICE_UUID));
    let adv = Advertisement { name: Some(b"something".to_vec()), service_uuids: vec![0x180F] };
    assert!(!scan_hit(&adv, b"Xiaomi Watch S4", MIWEAR_SERVICE_UUID));
}

#[test]
fn pointer_transitions() {
    assert_eq!(pointer_transition(0, false), (Some(PointerAction::Press), true));
    assert_eq!(pointer_transition(0, true), (Some(PointerAction::Press), true));
    // an up only releases a tracked press
    assert_eq!(pointer_transition(1, true), (Some(PointerAction::Release), false));
    assert_eq!(pointer_transition(1, false), (None, false));
    // a move continues a tracked press or starts one
    assert_eq!(pointer_transition(2, true), (Some(PointerAction::Move), true));
    assert_eq!(pointer_transition(2, false), (Some(PointerAction::Press), true));
    assert_eq!(pointer_transition(9, true), (None, true));
    assert_eq!(pointer_transition(9, false), (None, false));
}

#[test]
fn align_up_rounds_to_the_boundary() {
    assert_eq!(align_up(0, 8), Some(0));
    assert_eq!(align_up(1, 8), Some(8));
    assert_eq!(align_up(8, 8), Some(8));
    assert_eq!(align_up(9, 8), Some(16));
    assert_eq!(align_up(5, 1), Some(5));
    // the padded sum no longer fits
    assert_eq!(align_up(usize::MAX, 2), None);
}

#[test]
fn allocation_size_padding() {
    // zero-sized layouts still request one byte
    assert_eq!(PsramFirstAllocator::size_for_alignment(0, 1), Some(1));
    // word-aligned layouts keep their size
    assert_eq!(
        PsramFirstAllocator::size_for_alignment(24, core::mem::size_of::<usize>()),
        Some(24)
    );
    // over-aligned layouts round the size up to the alignment
    assert_eq!(PsramFirstAllocator::size_for_alignment(10, 64), Some(64));
    assert_eq!(PsramFirstAllocator::size_for_alignment(65, 64), Some(128));
}

#[test]
fn zero_sized_allocations_get_a_non_null_sentinel() {
    assert_eq!(PsramFirstAllocator::non_null_for_zero(4), 4);
    assert_ne!(PsramFirstAllocator::non_null_for_zero(1), 0);
}

#[test]
fn advertising_identity() {
    assert_eq!(&advertised_name(), b"iP");
    assert_eq!(apple_manufacturer_data(), [0x4C, 0x00, 0x02, 0x15]);
    assert_eq!(
        service_uuid_bytes(),
        [0x79, 0x05, 0xf4, 0x31, 0xb5, 0xce, 0x4e, 0x99, 0xa4, 0x0f, 0x4b, 0x1e, 0x12, 0x2d,
            0x00, 0xd0]
    );
    assert_eq!(
        characteristic_uuid_bytes(AncsCharacteristic::NotificationSource)[..2],
        [0x9f, 0xbf]
    );
    assert_eq!(characteristic_uuid_bytes(AncsCharacteristic::DataSource)[..2], [0x22, 0xea]);
    assert_eq!(characteristic_uuid_bytes(AncsCharacteristic::ControlPoint)[..2], [0x69, 0xd1]);
}
