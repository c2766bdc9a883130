//! Session layer (EN 50221 7.2): multiplexes the resource sessions of a
//! slot over its transport connection.
//!
//! A session message is `[tag][length][body]`; all multi-byte fields are
//! big-endian. Replies go out as `TT_DATA_LAST` frames.

use vstd::prelude::*;
use crate::error::{Error, ProtocolError};
use super::apdu::{Session, SessionState};
use super::tpdu::{self, tpdu_frame, TT_DATA_LAST};
use super::{CaDevice, CaDeviceView};

verus! {

/// Size of the header of a session message.
pub const SPDU_HEADER_SIZE: usize = 4;

/// Data of a session: `[tag, 2, session id (2), APDU...]`.
pub const ST_SESSION_NUMBER: u8 = 0x90;
/// The module asks to open a session: `[tag, 4, resource id (4)]`.
pub const ST_OPEN_SESSION_REQUEST: u8 = 0x91;
/// Reply: `[tag, 7, status, resource id (4), session id (2)]`.
pub const ST_OPEN_SESSION_RESPONSE: u8 = 0x92;
/// Asks the module to create a session.
pub const ST_CREATE_SESSION: u8 = 0x93;
/// `[tag, 7, status, resource id (4), session id (2)]`.
pub const ST_CREATE_SESSION_RESPONSE: u8 = 0x94;
/// `[tag, 2, session id (2)]`.
pub const ST_CLOSE_SESSION_REQUEST: u8 = 0x95;
/// `[tag, 3, status, session id (2)]`.
pub const ST_CLOSE_SESSION_RESPONSE: u8 = 0x96;

/// Session status: opened.
pub const SS_OK: u8 = 0x00;
/// Session status: no such resource.
pub const SS_NOT_ALLOCATED: u8 = 0xF0;

/// A big-endian 16-bit number.
pub open spec fn be16(hi: u8, lo: u8) -> u16 {
    (hi as int * 0x100 + lo as int) as u16
}

/// The big-endian 32-bit number in the four bytes of `b`.
pub open spec fn be32(b: Seq<u8>) -> u32 {
    (b[0] as int * 0x100_0000 + b[1] as int * 0x1_0000 + b[2] as int * 0x100 + b[3] as int) as u32
}

/// The two big-endian bytes of `id`.
pub open spec fn be16_bytes(id: u16) -> Seq<u8> {
    seq![(id / 0x100) as u8, (id % 0x100) as u8]
}

/// `spdu` is at least `size` bytes long and declares `size - 2` bytes after
/// its tag and length.
pub open spec fn size_fits(spdu: Seq<u8>, size: int) -> bool {
    spdu.len() >= size && spdu[1] as int == size - 2
}

/// The reply to an open request for the resource whose id is `resource`.
pub open spec fn open_response(status: u8, resource: Seq<u8>, id: u16) -> Seq<u8> {
    seq![ST_OPEN_SESSION_RESPONSE, 7u8, status] + resource + be16_bytes(id)
}

/// The reply to a close request for the session id `hi`, `lo`.
pub open spec fn close_response(hi: u8, lo: u8) -> Seq<u8> {
    seq![ST_CLOSE_SESSION_RESPONSE, 3u8, SS_OK, hi, lo]
}

/// The frame that asks the module to close session `id`.
pub open spec fn close_request_frame(slot_id: u8, id: u16) -> Seq<u8> {
    tpdu_frame(slot_id, TT_DATA_LAST, seq![ST_CLOSE_SESSION_REQUEST, 2u8] + be16_bytes(id))
}

/// The frames that ask the module to close `sessions`, in their order.
pub open spec fn close_requests(slot_id: u8, sessions: Seq<Session>) -> Seq<Seq<u8>> {
    sessions.map_values(|s: Session| close_request_frame(slot_id, s.session_id))
}

impl CaDeviceView {
    /// A complete session message from the module on slot `slot_id`: the
    /// device after it, and its error.
    pub open spec fn handle_spdu(self, slot_id: u8, spdu: Seq<u8>) -> (Self, Result<(), Error>) {
        if spdu.len() < SPDU_HEADER_SIZE {
            (self, Err(Error::Protocol(ProtocolError::SpduTooShort)))
        } else {
            let tag = spdu[0];
            let bad_size = Err(Error::Protocol(ProtocolError::InvalidSpduSize(tag)));
            if tag == ST_SESSION_NUMBER {
                let (t, r) = self.sessions.handle(
                    be16(spdu[2], spdu[3]),
                    spdu.subrange(SPDU_HEADER_SIZE as int, spdu.len() as int),
                );
                (self.with_sessions(t), r)
            } else if tag == ST_OPEN_SESSION_REQUEST {
                if !size_fits(spdu, 6) {
                    (self, bad_size)
                } else {
                    let resource = spdu.subrange(2, 6);
                    let (t, r) = self.sessions.init(be32(resource));
                    match r {
                        Ok(id) => {
                            let s = self.with_sessions(t).queue(
                                tpdu_frame(slot_id, TT_DATA_LAST, open_response(SS_OK, resource, id)),
                            );
                            (s, Ok(()))
                        },
                        Err(_) => (
                            self.queue(
                                tpdu_frame(
                                    slot_id,
                                    TT_DATA_LAST,
                                    open_response(SS_NOT_ALLOCATED, resource, 0),
                                ),
                            ),
                            Ok(()),
                        ),
                    }
                }
            } else if tag == ST_CLOSE_SESSION_REQUEST {
                if !size_fits(spdu, 4) {
                    (self, bad_size)
                } else {
                    let s = self.with_sessions(self.sessions.close(be16(spdu[2], spdu[3])));
                    (s.queue(tpdu_frame(slot_id, TT_DATA_LAST, close_response(spdu[2], spdu[3]))), Ok(()))
                }
            } else if tag == ST_CREATE_SESSION_RESPONSE {
                if !size_fits(spdu, 9) {
                    (self, bad_size)
                } else {
                    let id = be16(spdu[7], spdu[8]);
                    if spdu[2] == SS_OK {
                        let (t, r) = self.sessions.open(id);
                        (self.with_sessions(t), r)
                    } else {
                        (self.with_sessions(self.sessions.close(id)), Ok(()))
                    }
                }
            } else if tag == ST_CLOSE_SESSION_RESPONSE {
                if !size_fits(spdu, 5) {
                    (self, bad_size)
                } else {
                    (self.with_sessions(self.sessions.close(be16(spdu[3], spdu[4]))), Ok(()))
                }
            } else {
                (self, Err(Error::Protocol(ProtocolError::InvalidSpduTag(tag))))
            }
        }
    }
}

/// An open request for a registered resource, while a session id is free,
/// is answered with status OK, the resource id echoed and the id of a new
/// session, which was not open before and is pending after; no handler is
/// told of it yet.
pub proof fn lemma_open_request_answered(s: CaDeviceView, slot_id: u8, resource: Seq<u8>)
    requires
        s.wf(),
        resource.len() == 4,
        s.sessions.resources.contains(be32(resource)),
        s.sessions.free_id(s.sessions.next_id, 0xFFFF) is Some,
    ensures
        ({
            let id = s.sessions.free_id(s.sessions.next_id, 0xFFFF).unwrap();
            let (after, r) = s.handle_spdu(slot_id, seq![ST_OPEN_SESSION_REQUEST, 4u8] + resource);
            &&& r is Ok
            &&& after.outbox == s.queue(
                tpdu_frame(slot_id, TT_DATA_LAST, open_response(SS_OK, resource, id)),
            ).outbox
            &&& after.backlog == s.queue(
                tpdu_frame(slot_id, TT_DATA_LAST, open_response(SS_OK, resource, id)),
            ).backlog
            &&& !s.sessions.has_session(id)
            &&& after.sessions.has_session(id)
            &&& after.sessions.session(id) == (Session {
                session_id: id,
                resource_id: be32(resource),
                state: SessionState::Pending,
            })
            &&& after.sessions.sessions == s.sessions.sessions.push(after.sessions.session(id))
            &&& after.sessions.notices == s.sessions.notices
        }),
{
    let spdu = seq![ST_OPEN_SESSION_REQUEST, 4u8] + resource;
    assert(spdu.subrange(2, 6) =~= resource);
    assert(spdu.len() == 6 && spdu[0] == ST_OPEN_SESSION_REQUEST && spdu[1] == 4u8);
    assert(size_fits(spdu, 6));
    let id = s.sessions.free_id(s.sessions.next_id, 0xFFFF).unwrap();
    let rid = be32(resource);
    super::apdu::lemma_init(s.sessions, rid);
    let (t, r0) = s.sessions.init(rid);
    assert(r0 == Ok::<u16, Error>(id));
    let last = t.sessions.len() - 1;
    assert(t.sessions[last].session_id == id);
    super::apdu::lemma_index_of(t, last);
    assert(t.index_of(id) == last);
    assert(t.session(id).state == SessionState::Pending);
    let s1 = s.with_sessions(t).queue(tpdu_frame(slot_id, TT_DATA_LAST, open_response(SS_OK, resource, id)));
    assert(s.handle_spdu(slot_id, spdu) == (s1, Ok::<(), Error>(())));
}

/// The session id in `spdu[at]`, `spdu[at + 1]`.
fn read_be16(spdu: &[u8], at: usize) -> (r: u16)
    requires
        at + 1 < spdu@.len(),
    ensures
        r == be16(spdu@[at as int], spdu@[at + 1]),
{
    (spdu[at] as u16) * 0x100 + spdu[at + 1] as u16
}

/// The two big-endian bytes of `id`.
fn split_be16(id: u16) -> (r: (u8, u8))
    ensures
        seq![r.0, r.1] == be16_bytes(id),
{
    let hi: u16 = id >> 8;
    let lo: u16 = id & 0xFF;
    assert(hi == id / 0x100 && lo == id % 0x100) by (bit_vector)
        requires
            hi == id >> 8,
            lo == id & 0xFF,
    ;
    let r = (hi as u8, lo as u8);
    assert(seq![r.0, r.1] =~= be16_bytes(id));
    r
}

/// The tag of `spdu`, or 0 where it has none.
pub open spec fn spdu_tag(spdu: Seq<u8>) -> u8 {
    if spdu.len() > 0 {
        spdu[0]
    } else {
        0
    }
}

/// Checks that `spdu` is `size` bytes long at least and declares `size - 2`
/// bytes after its tag and length. A shorter message fails the check.
fn assert_size(spdu: &[u8], size: usize) -> (r: Result<(), Error>)
    requires
        2 <= size,
    ensures
        r is Ok <==> size_fits(spdu@, size as int),
        r is Err ==> r == Err::<(), Error>(Error::Protocol(ProtocolError::InvalidSpduSize(spdu_tag(spdu@)))),
{
    if spdu.len() >= size && spdu[1] as usize == size - 2 {
        Ok(())
    } else if spdu.len() > 0 {
        Err(Error::Protocol(ProtocolError::InvalidSpduSize(spdu[0])))
    } else {
        Err(Error::Protocol(ProtocolError::InvalidSpduSize(0)))
    }
}

/// Hands the APDU of a session message to its session.
fn handle_session_number(ca: &mut CaDevice, slot_id: u8, spdu: &[u8]) -> (r: Result<(), Error>)
    requires
        old(ca).wf(),
        spdu@.len() >= SPDU_HEADER_SIZE,
        spdu@[0] == ST_SESSION_NUMBER,
    ensures
        final(ca).wf(),
        (final(ca)@, r) == old(ca)@.handle_spdu(slot_id, spdu@),
{
    let session_id = read_be16(spdu, 2);
    let apdu = &spdu[SPDU_HEADER_SIZE..spdu.len()];
    assert(apdu@ =~= spdu@.subrange(SPDU_HEADER_SIZE as int, spdu@.len() as int));
    ca.sessions.handle(session_id, apdu)
}

/// Allocates a pending session for the resource that the module asks for
/// and replies with its id; a resource that the host does not offer is
/// refused in the reply.
fn handle_open_session_request(ca: &mut CaDevice, slot_id: u8, spdu: &[u8]) -> (r: Result<(), Error>)
    requires
        old(ca).wf(),
        slot_id < 255,
        spdu@.len() >= SPDU_HEADER_SIZE,
        spdu@[0] == ST_OPEN_SESSION_REQUEST,
    ensures
        final(ca).wf(),
        (final(ca)@, r) == old(ca)@.handle_spdu(slot_id, spdu@),
{
    if let Err(e) = assert_size(spdu, 6) {
        return Err(e);
    }
    let resource_id = (spdu[2] as u32) * 0x100_0000 + (spdu[3] as u32) * 0x1_0000 + (spdu[4] as u32)
        * 0x100 + spdu[5] as u32;
    let ghost resource = spdu@.subrange(2, 6);
    assert(resource_id == be32(resource));
    let (status, session_id) = match ca.sessions.init(resource_id) {
        Ok(id) => (SS_OK, id),
        Err(_) => (SS_NOT_ALLOCATED, 0u16),
    };
    let (hi, lo) = split_be16(session_id);
    let response: [u8; 9] = [
        ST_OPEN_SESSION_RESPONSE,
        7,
        status,
        spdu[2],
        spdu[3],
        spdu[4],
        spdu[5],
        hi,
        lo,
    ];
    assert(response@ =~= open_response(status, resource, session_id));
    let _ = tpdu::send(ca, slot_id, TT_DATA_LAST, &response);
    Ok(())
}

/// Closes the session that the module asks to close and confirms it.
fn handle_close_session_request(ca: &mut CaDevice, slot_id: u8, spdu: &[u8]) -> (r: Result<(), Error>)
    requires
        old(ca).wf(),
        slot_id < 255,
        spdu@.len() >= SPDU_HEADER_SIZE,
        spdu@[0] == ST_CLOSE_SESSION_REQUEST,
    ensures
        final(ca).wf(),
        (final(ca)@, r) == old(ca)@.handle_spdu(slot_id, spdu@),
{
    if let Err(e) = assert_size(spdu, 4) {
        return Err(e);
    }
    let session_id = read_be16(spdu, 2);
    let _ = ca.sessions.close(session_id);
    let response: [u8; 5] = [ST_CLOSE_SESSION_RESPONSE, 3, SS_OK, spdu[2], spdu[3]];
    assert(response@ =~= close_response(spdu@[2], spdu@[3]));
    let _ = tpdu::send(ca, slot_id, TT_DATA_LAST, &response);
    Ok(())
}

/// Activates a session that the module created, or forgets it where the
/// module failed to create it.
fn handle_create_session_response(ca: &mut CaDevice, slot_id: u8, spdu: &[u8]) -> (r: Result<(), Error>)
    requires
        old(ca).wf(),
        spdu@.len() >= SPDU_HEADER_SIZE,
        spdu@[0] == ST_CREATE_SESSION_RESPONSE,
    ensures
        final(ca).wf(),
        (final(ca)@, r) == old(ca)@.handle_spdu(slot_id, spdu@),
{
    if let Err(e) = assert_size(spdu, 9) {
        return Err(e);
    }
    let session_id = read_be16(spdu, 7);
    if spdu[2] == SS_OK {
        ca.sessions.open(session_id)
    } else {
        ca.sessions.close(session_id)
    }
}

/// Forgets a session whose close the module confirmed.
fn handle_close_session_response(ca: &mut CaDevice, slot_id: u8, spdu: &[u8]) -> (r: Result<(), Error>)
    requires
        old(ca).wf(),
        spdu@.len() >= SPDU_HEADER_SIZE,
        spdu@[0] == ST_CLOSE_SESSION_RESPONSE,
    ensures
        final(ca).wf(),
        (final(ca)@, r) == old(ca)@.handle_spdu(slot_id, spdu@),
{
    if let Err(e) = assert_size(spdu, 5) {
        return Err(e);
    }
    let session_id = read_be16(spdu, 3);
    ca.sessions.close(session_id)
}

/// Takes in a complete session message from the module on slot `slot_id`
/// and dispatches it by its tag.
pub fn handle(ca: &mut CaDevice, slot_id: u8, spdu: &[u8]) -> (r: Result<(), Error>)
    requires
        old(ca).wf(),
        slot_id < 255,
    ensures
        final(ca).wf(),
        (final(ca)@, r) == old(ca)@.handle_spdu(slot_id, spdu@),
{
    if spdu.len() < SPDU_HEADER_SIZE {
        return Err(Error::Protocol(ProtocolError::SpduTooShort));
    }
    let tag = spdu[0];
    if tag == ST_SESSION_NUMBER {
        handle_session_number(ca, slot_id, spdu)
    } else if tag == ST_OPEN_SESSION_REQUEST {
        handle_open_session_request(ca, slot_id, spdu)
    } else if tag == ST_CLOSE_SESSION_REQUEST {
        handle_close_session_request(ca, slot_id, spdu)
    } else if tag == ST_CREATE_SESSION_RESPONSE {
        handle_create_session_response(ca, slot_id, spdu)
    } else if tag == ST_CLOSE_SESSION_RESPONSE {
        handle_close_session_response(ca, slot_id, spdu)
    } else {
        Err(Error::Protocol(ProtocolError::InvalidSpduTag(tag)))
    }
}

/// The frame that asks the module to close session `id`.
pub fn close_request(slot_id: u8, id: u16) -> (r: Vec<u8>)
    requires
        slot_id < 255,
    ensures
        r@ == close_request_frame(slot_id, id),
{
    let (hi, lo) = split_be16(id);
    let connection_id = slot_id + 1;
    let r: Vec<u8> = vec![slot_id, connection_id, TT_DATA_LAST, 5, connection_id, ST_CLOSE_SESSION_REQUEST, 2, hi, lo];
    assert(r@ =~= close_request_frame(slot_id, id));
    r
}

} // verus!
