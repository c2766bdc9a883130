use libdvb::ca::apdu::{Notice, RESOURCE_MANAGER};
use libdvb::ca::sys::{
    CaCaps, CaSlotInfo, CA_CI, CA_CI_LINK, CA_CI_MODULE_NOT_FOUND, CA_CI_MODULE_PRESENT,
    CA_CI_MODULE_READY,
};
use libdvb::ca::tpdu::{TT_CREATE_TC, TT_CTC_REPLY, TT_DATA_LAST, TT_RCV, TT_SB};
use libdvb::ca::{CaDevice, SlotState};
use libdvb::error::{Error, ProtocolError};

const READY: u32 = CA_CI_MODULE_PRESENT | CA_CI_MODULE_READY;

fn caps(slots: u32) -> CaCaps {
    CaCaps { slot_num: slots, slot_type: CA_CI_LINK, descr_num: 0, descr_type: 0 }
}

fn info(flags: u32) -> CaSlotInfo {
    CaSlotInfo { slot_num: 0, slot_type: CA_CI_LINK, flags }
}

fn open_request() -> Vec<u8> {
    vec![0, 1, TT_DATA_LAST, 7, 1, 0x91, 0x04, 0x00, 0x01, 0x00, 0x41]
}

fn ready_device_with_session() -> CaDevice {
    let mut ca = CaDevice::open(0, 0, 0, &caps(1), &info(READY)).unwrap();
    assert_eq!(ca.event(&open_request()), Ok(()));
    // The module confirms the session, which makes it active.
    let created = [0, 1, TT_DATA_LAST, 10, 1, 0x94, 0x07, 0x00, 0x00, 0x01, 0x00, 0x41, 0x00, 0x01];
    assert_eq!(ca.event(&created), Ok(()));
    ca.take_outbox();
    ca.take_notices();
    ca
}

#[test]
fn open_requests_transport_connection() {
    let mut ca = CaDevice::open(3, 1, 0, &caps(1), &info(CA_CI_MODULE_PRESENT)).unwrap();
    assert_eq!(ca.adapter(), 3);
    assert_eq!(ca.device(), 1);
    assert_eq!(ca.take_outbox(), vec![vec![0, 1, TT_CREATE_TC, 1, 1]]);
    assert_eq!(ca.get_slot_state(0), Some(SlotState::Present));
    assert_eq!(ca.get_slot_state(1), None);
}

#[test]
fn open_rejects_missing_slot() {
    assert_eq!(CaDevice::open(0, 0, 1, &caps(1), &info(READY)).err(), Some(Error::SlotNotFound));
    assert_eq!(CaDevice::open(0, 0, 0, &caps(0), &info(READY)).err(), Some(Error::SlotNotFound));
}

#[test]
fn open_rejects_other_interfaces() {
    let high_level = CaSlotInfo { slot_num: 0, slot_type: CA_CI, flags: READY };
    assert_eq!(
        CaDevice::open(0, 0, 0, &caps(1), &high_level).err(),
        Some(Error::IncompatibleInterface)
    );
}

#[test]
fn tick_from_ready_to_present_closes_all_sessions() {
    let mut ca = ready_device_with_session();
    assert_eq!(ca.event(&open_request()), Ok(()));
    ca.take_notices();
    assert_eq!(ca.sessions().len(), 2);
    assert_eq!(ca.tick(CA_CI_MODULE_PRESENT), SlotState::Present);
    assert!(ca.sessions().is_empty());
    assert_eq!(
        ca.take_notices(),
        vec![
            Notice::Closed { session_id: 1, resource_id: RESOURCE_MANAGER },
            Notice::Closed { session_id: 2, resource_id: RESOURCE_MANAGER },
        ]
    );
    assert!(!ca.is_connected());
}

#[test]
fn tick_reports_absent_module() {
    let mut ca = ready_device_with_session();
    assert_eq!(ca.tick(CA_CI_MODULE_NOT_FOUND), SlotState::ModuleAbsent);
    assert!(ca.sessions().is_empty());
    assert_eq!(ca.tick(CA_CI_MODULE_NOT_FOUND), SlotState::ModuleAbsent);
}

#[test]
fn tick_to_ready_recreates_transport_connection() {
    let mut ca = CaDevice::open(0, 0, 0, &caps(1), &info(CA_CI_MODULE_PRESENT)).unwrap();
    ca.take_outbox();
    assert_eq!(ca.tick(CA_CI_MODULE_PRESENT), SlotState::Present);
    assert!(ca.take_outbox().is_empty());
    assert_eq!(ca.tick(READY), SlotState::Ready);
    assert_eq!(ca.take_outbox(), vec![vec![0, 1, TT_CREATE_TC, 1, 1]]);
    assert_eq!(ca.tick(READY), SlotState::Ready);
    assert!(ca.take_outbox().is_empty());
}

#[test]
fn tick_while_ready_manages_sessions() {
    let mut ca = ready_device_with_session();
    assert_eq!(ca.tick(READY), SlotState::Ready);
    assert_eq!(
        ca.take_notices(),
        vec![Notice::Manage { session_id: 1, resource_id: RESOURCE_MANAGER }]
    );
}

#[test]
fn protocol_error_resets_the_slot() {
    let mut ca = ready_device_with_session();
    assert_eq!(
        ca.event(&[0, 1, 0x42, 1, 1]),
        Err(Error::Protocol(ProtocolError::InvalidTag(0x42)))
    );
    assert!(ca.sessions().is_empty());
    assert_eq!(ca.take_outbox(), vec![vec![0, 1, TT_CREATE_TC, 1, 1]]);
}

#[test]
fn unknown_session_is_reported_without_reset() {
    let mut ca = ready_device_with_session();
    assert_eq!(
        ca.event(&[0, 1, TT_DATA_LAST, 5, 1, 0x90, 0x02, 0x00, 0x09]),
        Err(Error::UnknownSession(9))
    );
    assert_eq!(ca.sessions().len(), 1);
    assert!(ca.take_outbox().is_empty());
}

#[test]
fn shutdown_asks_to_close_every_session() {
    let mut ca = ready_device_with_session();
    assert_eq!(ca.event(&open_request()), Ok(()));
    ca.take_outbox();
    ca.shutdown();
    assert!(ca.sessions().is_empty());
    // The reply to the last open request is still awaited.
    assert!(ca.take_outbox().is_empty());
    assert_eq!(ca.event(&[0, 1, TT_SB, 2, 1, 0x00]), Ok(()));
    assert_eq!(ca.take_outbox(), vec![vec![0, 1, TT_DATA_LAST, 5, 1, 0x95, 0x02, 0x00, 0x01]]);
    assert_eq!(ca.event(&[0, 1, TT_SB, 2, 1, 0x00]), Ok(()));
    assert_eq!(ca.take_outbox(), vec![vec![0, 1, TT_DATA_LAST, 5, 1, 0x95, 0x02, 0x00, 0x02]]);
    assert!(!ca.has_backlog());
}

#[test]
fn steady_ready_tick_writes_nothing() {
    let mut ca = CaDevice::open(0, 0, 0, &caps(1), &info(READY)).unwrap();
    ca.take_outbox();
    assert_eq!(ca.event(&[0, 1, TT_CTC_REPLY, 1, 1]), Ok(()));
    assert!(!ca.is_awaiting());
    assert_eq!(ca.tick(READY), SlotState::Ready);
    assert!(ca.take_outbox().is_empty());
    assert!(ca.sessions().is_empty());
    // A status byte that announces data is answered with a request for it.
    assert_eq!(ca.event(&[0, 1, TT_SB, 2, 1, 0x80]), Ok(()));
    assert_eq!(ca.take_outbox(), vec![vec![0, 1, TT_RCV, 1, 1]]);
}

#[test]
fn capability_query_is_retried_while_no_slot_shows() {
    assert!(libdvb::ca::caps_retry(1, &caps(0)));
    assert!(libdvb::ca::caps_retry(4, &caps(0)));
    assert!(!libdvb::ca::caps_retry(5, &caps(0)));
    assert!(!libdvb::ca::caps_retry(1, &caps(2)));
}
