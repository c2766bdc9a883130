//! Transport layer (EN 50221 7.1): frames messages for the link of one slot
//! and reassembles the messages that come in fragments.
//!
//! The transport protocol is a command-response protocol: the host sends a
//! command frame and the module answers with a response frame. The module
//! cannot start a transfer; it announces data in its status byte and waits
//! for the host to ask for it.
//!
//! A frame is `[slot id][connection id][tag][length][connection id][payload]`,
//! where the connection id of a slot is its slot id plus one and the length
//! counts the second connection id and the payload.

use vstd::prelude::*;
use crate::bytes::append_bytes;
use crate::error::{Error, ProtocolError};
use super::asn1::{self, length_field, parse_length};
use super::{spdu, CaDevice, CaDeviceView};

verus! {

/// Payloads must be shorter than this.
pub const TPDU_SIZE_MAX: usize = 2048;

/// Status byte.
pub const TT_SB: u8 = 0x80;
/// Request for the data that the module holds.
pub const TT_RCV: u8 = 0x81;
/// Create a transport connection.
pub const TT_CREATE_TC: u8 = 0x82;
/// Reply to `TT_CREATE_TC`.
pub const TT_CTC_REPLY: u8 = 0x83;
/// Delete a transport connection.
pub const TT_DELETE_TC: u8 = 0x84;
/// Reply to `TT_DELETE_TC`.
pub const TT_DTC_REPLY: u8 = 0x85;
/// The module asks for a transport connection.
pub const TT_REQUEST_TC: u8 = 0x86;
/// A new transport connection.
pub const TT_NEW_TC: u8 = 0x87;
/// Transport connection error.
pub const TT_TC_ERROR: u8 = 0x88;
/// The last (or only) fragment of a message.
pub const TT_DATA_LAST: u8 = 0xA0;
/// A fragment that more fragments of the same message follow.
pub const TT_DATA_MORE: u8 = 0xA1;

/// Bit of the status byte: the module has data for the host.
pub const SB_DATA_AVAILABLE: u8 = 0x80;

/// The frame that carries `payload` with `tag` on the connection of slot
/// `slot_id`.
pub open spec fn tpdu_frame(slot_id: u8, tag: u8, payload: Seq<u8>) -> Seq<u8> {
    let connection_id = (slot_id + 1) as u8;
    seq![slot_id, connection_id, tag] + length_field((payload.len() + 1) as u16) + seq![connection_id]
        + payload
}

/// A frame from the module, taken apart.
pub struct Tpdu {
    pub connection_id: u8,
    pub tag: u8,
    pub payload: Seq<u8>,
    /// What follows the first object: in a response, its status object.
    pub rest: Seq<u8>,
}

/// `rest` starts with a status object that announces data.
pub open spec fn announces_data(rest: Seq<u8>) -> bool {
    rest.len() >= 4 && rest[0] == TT_SB && rest[1] == 2 && rest[3] & SB_DATA_AVAILABLE != 0
}

/// The parts of `frame`, or what is wrong with it.
pub open spec fn parse_tpdu(frame: Seq<u8>) -> Result<Tpdu, ProtocolError> {
    if frame.len() < 4 {
        Err(ProtocolError::FrameTooShort)
    } else {
        match parse_length(frame.subrange(3, frame.len() as int)) {
            None => Err(ProtocolError::InvalidLength),
            Some((len, n)) => if len == 0 || 3 + n + len > frame.len() {
                Err(ProtocolError::InvalidLength)
            } else {
                Ok(
                    Tpdu {
                        connection_id: frame[1],
                        tag: frame[2],
                        payload: frame.subrange(3 + n + 1, 3 + n + len),
                        rest: frame.subrange(3 + n + len, frame.len() as int),
                    },
                )
            },
        }
    }
}

impl CaDeviceView {
    /// Sending `payload` with `tag` on the connection of slot `slot_id`.
    pub open spec fn send(self, slot_id: u8, tag: u8, payload: Seq<u8>) -> (Self, Result<(), Error>) {
        if payload.len() >= TPDU_SIZE_MAX {
            (self, Err(Error::PayloadTooLarge))
        } else {
            (self.queue(tpdu_frame(slot_id, tag, payload)), Ok(()))
        }
    }

    /// The device with the fragments `fragments` collected.
    pub open spec fn with_fragments(self, fragments: Seq<u8>) -> Self {
        CaDeviceView { fragments, ..self }
    }

    /// Creating the transport connection of slot `slot_id` anew: what
    /// waited for the old one is dropped.
    pub open spec fn init_transport(self, slot_id: u8) -> Self {
        CaDeviceView {
            connected: false,
            fragments: Seq::empty(),
            awaiting: false,
            backlog: Seq::empty(),
            ..self
        }.queue(tpdu_frame(slot_id, TT_CREATE_TC, Seq::empty()))
    }

    /// The first object of a frame from the module, with `tag` and
    /// `payload`: the device after it, and its error.
    pub open spec fn on_tpdu(self, tag: u8, payload: Seq<u8>) -> (Self, Result<(), Error>) {
        if tag == TT_CTC_REPLY {
            (CaDeviceView { connected: true, ..self }, Ok(()))
        } else if tag == TT_DTC_REPLY {
            (CaDeviceView { connected: false, ..self }, Ok(()))
        } else if tag == TT_DATA_MORE {
            (CaDeviceView { fragments: self.fragments + payload, ..self }, Ok(()))
        } else if tag == TT_DATA_LAST {
            CaDeviceView { fragments: Seq::empty(), ..self }.handle_spdu(
                self.slot_id(),
                self.fragments + payload,
            )
        } else if tag == TT_SB {
            if payload.len() > 0 && payload[0] & SB_DATA_AVAILABLE != 0 {
                self.send(self.slot_id(), TT_RCV, Seq::empty())
            } else {
                (self, Ok(()))
            }
        } else {
            (self, Err(Error::Protocol(ProtocolError::InvalidTag(tag))))
        }
    }

    /// A complete frame from the module: the device after it, and its
    /// error. Where a status object after the first object announces data,
    /// the host asks for it.
    pub open spec fn on_frame(self, frame: Seq<u8>) -> (Self, Result<(), Error>) {
        match parse_tpdu(frame) {
            Err(e) => (self, Err(Error::Protocol(e))),
            Ok(t) => if t.connection_id as int != self.slot.slot_num + 1 {
                (self, Err(Error::Protocol(ProtocolError::InvalidConnection(t.connection_id))))
            } else {
                let (s, r) = self.on_tpdu(t.tag, t.payload);
                if r is Ok && announces_data(t.rest) {
                    s.send(self.slot_id(), TT_RCV, Seq::empty())
                } else {
                    (s, r)
                }
            },
        }
    }
}

/// A frame that `send` builds reads back as its connection id, tag and
/// payload.
pub proof fn lemma_frame_round_trip(slot_id: u8, tag: u8, payload: Seq<u8>)
    requires
        slot_id < 255,
        payload.len() < 0xFFFF,
    ensures
        parse_tpdu(tpdu_frame(slot_id, tag, payload)) == Ok::<Tpdu, ProtocolError>(
            (Tpdu { connection_id: (slot_id + 1) as u8, tag, payload, rest: Seq::empty() }),
        ),
{
    let connection_id = (slot_id + 1) as u8;
    let value = (payload.len() + 1) as u16;
    let field = length_field(value);
    let frame = tpdu_frame(slot_id, tag, payload);
    let rest = seq![connection_id] + payload;
    assert(frame.subrange(3, frame.len() as int) =~= field + rest);
    asn1::lemma_length_round_trip(value, rest);
    let n = field.len() as int;
    assert(frame.subrange(3 + n + 1, 3 + n + value) =~= payload);
    assert(frame.subrange(3 + n + value, frame.len() as int) =~= Seq::<u8>::empty());
}

/// A message in fragments reaches the session layer once, whole: from a
/// device with no fragment pending, two `TT_DATA_MORE` frames with payloads
/// `a` and `b` only collect them, and a `TT_DATA_LAST` frame with payload `c`
/// then leaves the device as handing `a + b + c` to the session layer does.
pub proof fn lemma_fragments_reassembled(s: CaDeviceView, a: Seq<u8>, b: Seq<u8>, c: Seq<u8>)
    requires
        s.wf(),
        s.fragments.len() == 0,
        a.len() < 0xFFFF,
        b.len() < 0xFFFF,
        c.len() < 0xFFFF,
    ensures
        s.on_frame(tpdu_frame(s.slot_id(), TT_DATA_MORE, a)) == (s.with_fragments(a), Ok::<(), Error>(())),
        s.with_fragments(a).on_frame(tpdu_frame(s.slot_id(), TT_DATA_MORE, b)) == (
        s.with_fragments(a + b),
        Ok::<(), Error>(()),
        ),
        s.with_fragments(a + b).on_frame(tpdu_frame(s.slot_id(), TT_DATA_LAST, c)) == s.handle_spdu(
            s.slot_id(),
            a + b + c,
        ),
{
    let slot_id = s.slot_id();
    lemma_frame_round_trip(slot_id, TT_DATA_MORE, a);
    lemma_frame_round_trip(slot_id, TT_DATA_MORE, b);
    lemma_frame_round_trip(slot_id, TT_DATA_LAST, c);
    assert(s.fragments + a =~= a);
    assert(s.fragments =~= Seq::<u8>::empty());
    assert(s.with_fragments(Seq::empty()) == s);
    assert(s.with_fragments(a + b).fragments + c =~= a + b + c);
}

/// Queues the frame that carries `data` with `tag` on the connection of slot
/// `slot_id`. Fails with `PayloadTooLarge` where `data` holds 2048 bytes or
/// more.
pub fn send(ca: &mut CaDevice, slot_id: u8, tag: u8, data: &[u8]) -> (r: Result<(), Error>)
    requires
        slot_id < 255,
    ensures
        (final(ca)@, r) == old(ca)@.send(slot_id, tag, data@),
{
    if data.len() >= TPDU_SIZE_MAX {
        return Err(Error::PayloadTooLarge);
    }
    let connection_id = slot_id + 1;
    let mut frame: Vec<u8> = Vec::with_capacity(data.len() + 8);
    frame.push(slot_id);
    frame.push(connection_id);
    frame.push(tag);
    asn1::encode(data.len() as u16 + 1, &mut frame);
    frame.push(connection_id);
    append_bytes(&mut frame, data);
    assert(frame@ =~= tpdu_frame(slot_id, tag, data@));
    ca.queue(frame);
    Ok(())
}

/// Creates the transport connection of slot `slot_id` anew: a partly
/// received message and the frames that wait for a response are dropped,
/// and `TT_CREATE_TC` is sent.
pub fn init(ca: &mut CaDevice, slot_id: u8) -> (r: Result<(), Error>)
    requires
        slot_id < 255,
    ensures
        final(ca)@ == old(ca)@.init_transport(slot_id),
        r is Ok,
{
    ca.connected = false;
    ca.fragments.clear();
    ca.awaiting = false;
    ca.backlog.clear();
    assert(ca@.backlog =~= Seq::<Seq<u8>>::empty());
    let empty: Vec<u8> = Vec::new();
    let r = send(ca, slot_id, TT_CREATE_TC, empty.as_slice());
    assert(empty@ =~= Seq::<u8>::empty());
    r
}

/// Takes in the first object of a frame from the module: connection
/// replies change the state of the connection, fragments are collected, the
/// last fragment hands the whole message to the session layer, and a status
/// byte that announces data makes the host ask for it.
fn on_tpdu(ca: &mut CaDevice, tag: u8, payload: &[u8]) -> (r: Result<(), Error>)
    requires
        old(ca).wf(),
    ensures
        final(ca).wf(),
        (final(ca)@, r) == old(ca)@.on_tpdu(tag, payload@),
{
    let slot_id = ca.slot.slot_num as u8;
    if tag == TT_CTC_REPLY {
        ca.connected = true;
        Ok(())
    } else if tag == TT_DTC_REPLY {
        ca.connected = false;
        Ok(())
    } else if tag == TT_DATA_MORE {
        append_bytes(&mut ca.fragments, payload);
        Ok(())
    } else if tag == TT_DATA_LAST {
        let mut message: Vec<u8> = Vec::new();
        std::mem::swap(&mut message, &mut ca.fragments);
        append_bytes(&mut message, payload);
        spdu::handle(ca, slot_id, message.as_slice())
    } else if tag == TT_SB {
        if payload.len() > 0 && payload[0] & SB_DATA_AVAILABLE != 0 {
            let empty: Vec<u8> = Vec::new();
            assert(empty@ =~= Seq::<u8>::empty());
            send(ca, slot_id, TT_RCV, empty.as_slice())
        } else {
            Ok(())
        }
    } else {
        Err(Error::Protocol(ProtocolError::InvalidTag(tag)))
    }
}

/// Takes in a complete frame from the module: its first object, then the
/// status object after it, which may announce data that the host then asks
/// for.
pub fn on_frame(ca: &mut CaDevice, frame: &[u8]) -> (r: Result<(), Error>)
    requires
        old(ca).wf(),
    ensures
        final(ca).wf(),
        (final(ca)@, r) == old(ca)@.on_frame(frame@),
{
    if frame.len() < 4 {
        return Err(Error::Protocol(ProtocolError::FrameTooShort));
    }
    let field = &frame[3..frame.len()];
    assert(field@ =~= frame@.subrange(3, frame@.len() as int));
    let (len, n) = match asn1::decode(field) {
        None => {
            return Err(Error::Protocol(ProtocolError::InvalidLength));
        },
        Some(field) => field,
    };
    let end = 3 + n + len as usize;
    if len == 0 || end > frame.len() {
        return Err(Error::Protocol(ProtocolError::InvalidLength));
    }
    let connection_id = frame[1];
    if connection_id as u32 != ca.slot.slot_num + 1 {
        return Err(Error::Protocol(ProtocolError::InvalidConnection(connection_id)));
    }
    let slot_id = ca.slot.slot_num as u8;
    let r = on_tpdu(ca, frame[2], &frame[3 + n + 1..end]);
    if r.is_ok() && frame.len() >= end + 4 && frame[end] == TT_SB && frame[end + 1] == 2 && frame[end + 3]
        & SB_DATA_AVAILABLE != 0 {
        let empty: Vec<u8> = Vec::new();
        assert(empty@ =~= Seq::<u8>::empty());
        send(ca, slot_id, TT_RCV, empty.as_slice())
    } else {
        r
    }
}

} // verus!
