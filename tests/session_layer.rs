use libdvb::ca::apdu::{Notice, SessionState, RESOURCE_MANAGER};
use libdvb::ca::spdu;
use libdvb::ca::sys::{CaCaps, CaSlotInfo, CA_CI_LINK, CA_CI_MODULE_READY};
use libdvb::ca::CaDevice;
use libdvb::error::{Error, ProtocolError};

fn device() -> CaDevice {
    let caps = CaCaps { slot_num: 1, slot_type: CA_CI_LINK, descr_num: 0, descr_type: 0 };
    let info = CaSlotInfo { slot_num: 0, slot_type: CA_CI_LINK, flags: CA_CI_MODULE_READY };
    let mut ca = CaDevice::open(0, 0, 0, &caps, &info).unwrap();
    ca.take_outbox();
    assert_eq!(ca.event(&[0, 1, 0x83, 1, 1]), Ok(()));
    ca
}

/// `spdu` as the module sends it: the device's response to it may go out.
fn deliver(ca: &mut CaDevice, spdu: &[u8]) -> Result<(), Error> {
    ca.event(&data_last(spdu))
}

fn data_last(payload: &[u8]) -> Vec<u8> {
    let mut f = vec![0, 1, 0xA0, payload.len() as u8 + 1, 1];
    f.extend_from_slice(payload);
    f
}

#[test]
fn open_session_request_replies_ok_with_new_id() {
    let mut ca = device();
    assert_eq!(spdu::handle(&mut ca, 0, &[0x91, 0x04, 0x00, 0x01, 0x00, 0x41]), Ok(()));
    assert_eq!(ca.sessions().len(), 1);
    let id = ca.sessions()[0].session_id;
    assert_eq!(ca.sessions()[0].resource_id, RESOURCE_MANAGER);
    assert_eq!(ca.sessions()[0].state, SessionState::Pending);
    assert!(ca.take_notices().is_empty());
    assert_eq!(
        ca.take_outbox(),
        vec![data_last(&[0x92, 7, 0x00, 0x00, 0x01, 0x00, 0x41, (id >> 8) as u8, id as u8])]
    );
    // A second request gets a session id of its own.
    assert_eq!(spdu::handle(&mut ca, 0, &[0x91, 0x04, 0x00, 0x01, 0x00, 0x41]), Ok(()));
    assert_ne!(ca.sessions()[1].session_id, id);
}

#[test]
fn open_session_request_for_unknown_resource_is_refused_in_the_reply() {
    let mut ca = device();
    assert_eq!(spdu::handle(&mut ca, 0, &[0x91, 0x04, 0x12, 0x34, 0x56, 0x78]), Ok(()));
    assert!(ca.sessions().is_empty());
    assert_eq!(
        ca.take_outbox(),
        vec![data_last(&[0x92, 7, 0xF0, 0x12, 0x34, 0x56, 0x78, 0, 0])]
    );
}

#[test]
fn close_session_request_closes_and_confirms() {
    let mut ca = device();
    deliver(&mut ca, &[0x91, 0x04, 0x00, 0x01, 0x00, 0x41]).unwrap();
    ca.take_outbox();
    ca.take_notices();
    assert_eq!(deliver(&mut ca, &[0x95, 0x02, 0x00, 0x01]), Ok(()));
    assert!(ca.sessions().is_empty());
    assert_eq!(ca.take_outbox(), vec![data_last(&[0x96, 3, 0x00, 0x00, 0x01])]);
    assert_eq!(
        ca.take_notices(),
        vec![Notice::Closed { session_id: 1, resource_id: RESOURCE_MANAGER }]
    );
    // Closing it again is confirmed too.
    assert_eq!(deliver(&mut ca, &[0x95, 0x02, 0x00, 0x01]), Ok(()));
    assert_eq!(ca.take_outbox(), vec![data_last(&[0x96, 3, 0x00, 0x00, 0x01])]);
}

#[test]
fn session_number_hands_apdu_to_session() {
    let mut ca = device();
    deliver(&mut ca, &[0x91, 0x04, 0x00, 0x01, 0x00, 0x41]).unwrap();
    // A pending session takes no data.
    assert_eq!(deliver(&mut ca, &[0x90, 0x02, 0x00, 0x01, 0x01]), Err(Error::UnknownSession(1)));
    deliver(&mut ca, &[0x94, 0x07, 0x00, 0x00, 0x01, 0x00, 0x41, 0x00, 0x01]).unwrap();
    ca.take_notices();
    assert_eq!(deliver(&mut ca, &[0x90, 0x02, 0x00, 0x01, 0x9F, 0x80, 0x10, 0x00]), Ok(()));
    assert_eq!(
        ca.take_notices(),
        vec![Notice::Apdu {
            session_id: 1,
            resource_id: RESOURCE_MANAGER,
            data: vec![0x9F, 0x80, 0x10, 0x00],
        }]
    );
    assert_eq!(deliver(&mut ca, &[0x90, 0x02, 0x00, 0x07]), Err(Error::UnknownSession(7)));
    assert_eq!(ca.sessions().len(), 1);
}

#[test]
fn create_session_response_failure_closes() {
    let mut ca = device();
    spdu::handle(&mut ca, 0, &[0x91, 0x04, 0x00, 0x01, 0x00, 0x41]).unwrap();
    assert_eq!(
        spdu::handle(&mut ca, 0, &[0x94, 0x07, 0xF0, 0x00, 0x01, 0x00, 0x41, 0x00, 0x01]),
        Ok(())
    );
    assert!(ca.sessions().is_empty());
}

#[test]
fn create_session_response_ok_needs_pending_session() {
    let mut ca = device();
    assert_eq!(
        spdu::handle(&mut ca, 0, &[0x94, 0x07, 0x00, 0x00, 0x01, 0x00, 0x41, 0x00, 0x05]),
        Err(Error::UnknownSession(5))
    );
}

#[test]
fn close_session_response_closes() {
    let mut ca = device();
    spdu::handle(&mut ca, 0, &[0x91, 0x04, 0x00, 0x01, 0x00, 0x41]).unwrap();
    assert_eq!(ca.sessions()[0].state, SessionState::Pending);
    assert_eq!(spdu::handle(&mut ca, 0, &[0x96, 0x03, 0x00, 0x00, 0x01]), Ok(()));
    assert!(ca.sessions().is_empty());
}

#[test]
fn wrong_declared_size_is_a_protocol_error() {
    let mut ca = device();
    assert_eq!(
        spdu::handle(&mut ca, 0, &[0x91, 0x05, 0x00, 0x01, 0x00, 0x41]),
        Err(Error::Protocol(ProtocolError::InvalidSpduSize(0x91)))
    );
    assert_eq!(
        spdu::handle(&mut ca, 0, &[0x95, 0x02, 0x00]),
        Err(Error::Protocol(ProtocolError::SpduTooShort))
    );
}

#[test]
fn unknown_session_tag_is_a_protocol_error() {
    let mut ca = device();
    assert_eq!(
        spdu::handle(&mut ca, 0, &[0x93, 0x06, 0, 0, 0, 0]),
        Err(Error::Protocol(ProtocolError::InvalidSpduTag(0x93)))
    );
}

#[test]
fn create_session_response_ok_activates() {
    let mut ca = device();
    spdu::handle(&mut ca, 0, &[0x91, 0x04, 0x00, 0x01, 0x00, 0x41]).unwrap();
    assert_eq!(
        spdu::handle(&mut ca, 0, &[0x94, 0x07, 0x00, 0x00, 0x01, 0x00, 0x41, 0x00, 0x01]),
        Ok(())
    );
    assert_eq!(ca.sessions()[0].state, SessionState::Active);
    assert_eq!(
        ca.take_notices(),
        vec![Notice::Opened { session_id: 1, resource_id: RESOURCE_MANAGER }]
    );
}
