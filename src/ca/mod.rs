//! The Common Interface stack of one CA slot.
//!
//! `CaDevice` holds the state of the slot, of its transport connection and of
//! its resource sessions. It performs no I/O: whoever owns the device file
//! passes in the slot flags at each timer tick and each frame read from the
//! device, and writes out the frames that `take_outbox` hands back, each
//! frame whole.
//!
//! The link is half-duplex: the host sends a command and waits for the
//! module's response before it sends the next. A frame queued while a
//! response is awaited waits in a backlog; each frame from the module
//! releases the oldest one.

pub mod apdu;
pub mod asn1;
pub mod spdu;
pub mod sys;
pub mod tpdu;

use vstd::prelude::*;
use crate::error::Error;
use self::apdu::{SessionTable, SessionTableView, Session, Notice};
use self::sys::{CaCaps, CaSlotInfo, CA_CI_LINK, CA_CI_MODULE_PRESENT, CA_CI_MODULE_READY};

verus! {

/// Tries of the capability query while a module enumerates its slots.
pub const CA_CAPS_ATTEMPTS: u32 = 5;

/// Milliseconds between two tries of the capability query, and between two
/// ticks.
pub const CA_DELAY_MS: u64 = 100;

/// Whether the capability query is to be tried again after try `attempt`
/// (counting from 1) found `caps`: a module that enumerates its slots
/// slowly reports none at first.
pub fn caps_retry(attempt: u32, caps: &CaCaps) -> (r: bool)
    ensures
        r == (attempt < CA_CAPS_ATTEMPTS && caps.slot_num == 0),
{
    attempt < CA_CAPS_ATTEMPTS && caps.slot_num == 0
}

/// What the flags of a slot say about its module.
#[derive(Debug, Clone, Copy, PartialEq, Eq, Structural)]
pub enum SlotState {
    /// No module in the slot: a passing state while one is awaited.
    ModuleAbsent,
    /// A module is inserted, not ready.
    Present,
    /// The module is ready for use.
    Ready,
}

/// The state that slot `flags` report.
pub open spec fn slot_state(flags: u32) -> SlotState {
    if flags & CA_CI_MODULE_READY != 0 {
        SlotState::Ready
    } else if flags & CA_CI_MODULE_PRESENT != 0 {
        SlotState::Present
    } else {
        SlotState::ModuleAbsent
    }
}

/// The state that slot `flags` report.
pub fn slot_state_of(flags: u32) -> (r: SlotState)
    ensures
        r == slot_state(flags),
{
    if flags & CA_CI_MODULE_READY != 0 {
        SlotState::Ready
    } else if flags & CA_CI_MODULE_PRESENT != 0 {
        SlotState::Present
    } else {
        SlotState::ModuleAbsent
    }
}

/// A `CaDevice` as a mathematical value.
pub struct CaDeviceView {
    pub adapter: u32,
    pub device: u32,
    /// The slot; its flags are those of the last tick.
    pub slot: CaSlotInfo,
    /// The module confirmed the transport connection.
    pub connected: bool,
    /// Payloads of a message whose last fragment has not come yet.
    pub fragments: Seq<u8>,
    /// The application layer.
    pub sessions: SessionTableView,
    /// Frames waiting to be written to the device, oldest first.
    pub outbox: Seq<Seq<u8>>,
    /// A command went out and the module's response has not come yet.
    pub awaiting: bool,
    /// Frames waiting for the response to the command before them.
    pub backlog: Seq<Seq<u8>>,
}

impl CaDeviceView {
    /// The slot number fits the link layer's one-byte slot field, with room
    /// for its connection id; the session table is well formed.
    pub open spec fn wf(self) -> bool {
        &&& self.slot.slot_num < 255
        &&& self.sessions.wf()
    }

    /// The slot number as it stands in frames.
    pub open spec fn slot_id(self) -> u8 {
        self.slot.slot_num as u8
    }

    /// The stack of slot `slot` just opened, its transport connection
    /// requested: the slot reads as `info`, and the session table, empty,
    /// serves the standard resources.
    pub open spec fn opened(adapter: u32, device: u32, slot: u32, info: CaSlotInfo) -> Self {
        CaDeviceView {
            adapter,
            device,
            slot: CaSlotInfo { slot_num: slot, slot_type: info.slot_type, flags: info.flags },
            connected: false,
            fragments: Seq::empty(),
            sessions: SessionTableView::fresh(apdu::standard_resource_ids()),
            outbox: seq![tpdu::tpdu_frame(slot as u8, tpdu::TT_CREATE_TC, Seq::empty())],
            awaiting: true,
            backlog: Seq::empty(),
        }
    }

    /// The device with `frame` queued: written out where no response is
    /// awaited, else put in the backlog.
    pub open spec fn queue(self, frame: Seq<u8>) -> Self {
        if self.awaiting {
            CaDeviceView { backlog: self.backlog.push(frame), ..self }
        } else {
            CaDeviceView { outbox: self.outbox.push(frame), awaiting: true, ..self }
        }
    }

    /// The device with `frames` queued, in their order.
    pub open spec fn queue_all(self, frames: Seq<Seq<u8>>) -> Self
        decreases frames.len(),
    {
        if frames.len() == 0 {
            self
        } else {
            self.queue_all(frames.drop_last()).queue(frames.last())
        }
    }

    /// A response came from the module: the oldest frame of the backlog
    /// goes out, if there is one.
    pub open spec fn receive(self) -> Self {
        if self.backlog.len() > 0 {
            CaDeviceView {
                outbox: self.outbox.push(self.backlog[0]),
                backlog: self.backlog.drop_first(),
                awaiting: true,
                ..self
            }
        } else {
            CaDeviceView { awaiting: false, ..self }
        }
    }

    /// The device with the application layer `t`.
    pub open spec fn with_sessions(self, t: SessionTableView) -> Self {
        CaDeviceView { sessions: t, ..self }
    }

    /// Resetting the slot: its sessions are closed and its transport
    /// connection created anew.
    pub open spec fn reset(self) -> Self {
        self.with_sessions(self.sessions.close_all()).init_transport(self.slot_id())
    }

    /// A timer tick that read the slot `flags`: the device after it, and
    /// the state of the slot.
    ///
    /// Leaving the ready state closes every session of the slot and drops
    /// its transport connection; reaching it creates a new connection. While
    /// the module is ready, each active session gets its periodic turn.
    pub open spec fn tick(self, flags: u32) -> (Self, SlotState) {
        let was_ready = slot_state(self.slot.flags) == SlotState::Ready;
        let now = slot_state(flags);
        let s = CaDeviceView { slot: CaSlotInfo { flags, ..self.slot }, ..self };
        let s = if now == SlotState::Ready {
            let s = if !was_ready { s.init_transport(s.slot_id()) } else { s };
            s.with_sessions(s.sessions.manage_all())
        } else if was_ready {
            CaDeviceView {
                connected: false,
                fragments: Seq::empty(),
                sessions: s.sessions.close_all(),
                awaiting: false,
                backlog: Seq::empty(),
                ..s
            }
        } else {
            s
        };
        (s, now)
    }

    /// A frame read from the device: the device after it, and what is to be
    /// reported. A protocol error resets the slot.
    pub open spec fn event(self, frame: Seq<u8>) -> (Self, Result<(), Error>) {
        let (s, r) = self.receive().on_frame(frame);
        match r {
            Err(Error::Protocol(_)) => (s.reset(), r),
            _ => (s, r),
        }
    }

    /// Shutting down: a close request queued for every open session, then
    /// every session closed.
    pub open spec fn shutdown(self) -> Self {
        let s = self.queue_all(spdu::close_requests(self.slot_id(), self.sessions.sessions));
        s.with_sessions(s.sessions.close_all())
    }
}

/// A tick that finds a ready module no longer ready has closed every
/// session of the slot, in their order, by the time it returns.
pub proof fn lemma_tick_leaving_ready_closes_sessions(s: CaDeviceView, flags: u32)
    requires
        s.wf(),
        slot_state(s.slot.flags) == SlotState::Ready,
        slot_state(flags) != SlotState::Ready,
    ensures
        s.tick(flags).0.sessions.sessions.len() == 0,
        s.tick(flags).0.sessions.notices == s.sessions.notices + apdu::closed_notices(s.sessions.sessions),
        !s.tick(flags).0.connected,
        s.tick(flags).0.backlog.len() == 0,
        s.tick(flags).0.wf(),
{
}

/// The Common Interface stack of one CA slot.
pub struct CaDevice {
    adapter: u32,
    device: u32,
    slot: CaSlotInfo,
    connected: bool,
    fragments: Vec<u8>,
    sessions: SessionTable,
    outbox: Vec<Vec<u8>>,
    awaiting: bool,
    backlog: Vec<Vec<u8>>,
}

impl View for CaDevice {
    type V = CaDeviceView;

    closed spec fn view(&self) -> CaDeviceView {
        CaDeviceView {
            adapter: self.adapter,
            device: self.device,
            slot: self.slot,
            connected: self.connected,
            fragments: self.fragments@,
            sessions: self.sessions@,
            outbox: self.outbox@.map_values(|f: Vec<u8>| f@),
            awaiting: self.awaiting,
            backlog: self.backlog@.map_values(|f: Vec<u8>| f@),
        }
    }
}

impl CaDevice {
    pub open spec fn wf(&self) -> bool {
        self@.wf()
    }

    /// The stack of slot `slot` of the CA device `adapter`/`device`, whose
    /// capabilities are `caps` and whose slot reads as `info`. Its
    /// transport connection is requested at once.
    ///
    /// Fails with `SlotNotFound` where the device has no slot `slot` (or one
    /// whose number does not fit a frame), and with `IncompatibleInterface`
    /// where the slot is no link layer interface.
    pub fn open(adapter: u32, device: u32, slot: u32, caps: &CaCaps, info: &CaSlotInfo) -> (r: Result<
        CaDevice,
        Error,
    >)
        ensures
            slot >= caps.slot_num || slot >= 255 ==> r == Err::<CaDevice, Error>(Error::SlotNotFound),
            slot < caps.slot_num && slot < 255 && info.slot_type != CA_CI_LINK ==> r == Err::<
                CaDevice,
                Error,
            >(Error::IncompatibleInterface),
            slot < caps.slot_num && slot < 255 && info.slot_type == CA_CI_LINK ==> (r matches Ok(ca)
                && ca.wf() && ca@ == CaDeviceView::opened(adapter, device, slot, *info)),
    {
        if slot >= caps.slot_num || slot >= 255 {
            return Err(Error::SlotNotFound);
        }
        if info.slot_type != CA_CI_LINK {
            return Err(Error::IncompatibleInterface);
        }
        let mut ca = CaDevice {
            adapter,
            device,
            slot: CaSlotInfo { slot_num: slot, slot_type: info.slot_type, flags: info.flags },
            connected: false,
            fragments: Vec::new(),
            sessions: SessionTable::new(SessionTable::standard_resources()),
            outbox: Vec::new(),
            awaiting: false,
            backlog: Vec::new(),
        };
        let _ = tpdu::init(&mut ca, slot as u8);
        assert(ca@.outbox =~= seq![tpdu::tpdu_frame(slot as u8, tpdu::TT_CREATE_TC, Seq::empty())]);
        assert(ca@.fragments =~= Seq::<u8>::empty());
        assert(ca@.backlog =~= Seq::<Seq<u8>>::empty());
        Ok(ca)
    }

    /// Queues `frame`: out at once where no response is awaited, else
    /// into the backlog.
    fn queue(&mut self, frame: Vec<u8>)
        ensures
            final(self)@ == old(self)@.queue(frame@),
    {
        let ghost before = self@;
        if self.awaiting {
            self.backlog.push(frame);
            assert(self@.backlog =~= before.backlog.push(frame@));
        } else {
            self.outbox.push(frame);
            self.awaiting = true;
            assert(self@.outbox =~= before.outbox.push(frame@));
        }
    }

    /// A response came from the module: releases the oldest frame of the
    /// backlog.
    fn receive(&mut self)
        ensures
            final(self)@ == old(self)@.receive(),
    {
        let ghost before = self@;
        if self.backlog.len() > 0 {
            let frame = self.backlog.remove(0);
            self.outbox.push(frame);
            self.awaiting = true;
            assert(self@.outbox =~= before.outbox.push(before.backlog[0]));
            assert(self@.backlog =~= before.backlog.drop_first());
        } else {
            self.awaiting = false;
        }
    }

    /// A timer tick: `flags` are the slot flags just read from the device.
    /// Returns the state of the slot.
    pub fn tick(&mut self, flags: u32) -> (r: SlotState)
        requires
            old(self).wf(),
        ensures
            final(self).wf(),
            (final(self)@, r) == old(self)@.tick(flags),
    {
        let was_ready = slot_state_of(self.slot.flags) == SlotState::Ready;
        let now = slot_state_of(flags);
        self.slot.flags = flags;
        if now == SlotState::Ready {
            if !was_ready {
                let _ = tpdu::init(self, self.slot.slot_num as u8);
            }
            self.sessions.manage_all();
        } else if was_ready {
            self.connected = false;
            self.fragments.clear();
            self.sessions.close_all();
            self.awaiting = false;
            self.backlog.clear();
            assert(self@.backlog =~= Seq::<Seq<u8>>::empty());
        }
        now
    }

    /// A frame read from the device. An error is returned to be reported;
    /// after a protocol error the slot has been reset.
    pub fn event(&mut self, frame: &[u8]) -> (r: Result<(), Error>)
        requires
            old(self).wf(),
        ensures
            final(self).wf(),
            (final(self)@, r) == old(self)@.event(frame@),
    {
        self.receive();
        let r = tpdu::on_frame(self, frame);
        if let Err(Error::Protocol(_)) = r {
            self.sessions.close_all();
            let _ = tpdu::init(self, self.slot.slot_num as u8);
        }
        r
    }

    /// Asks the module to close every open session, and closes them.
    pub fn shutdown(&mut self)
        requires
            old(self).wf(),
        ensures
            final(self).wf(),
            final(self)@ == old(self)@.shutdown(),
    {
        let mut i: usize = 0;
        let ghost before = self@;
        let ghost requests = spdu::close_requests(before.slot_id(), before.sessions.sessions);
        let n = self.sessions.sessions().len();
        while i < n
            invariant
                self.wf(),
                self@ == before.queue_all(requests.subrange(0, i as int)),
                requests == spdu::close_requests(before.slot_id(), before.sessions.sessions),
                requests.len() == n,
                i <= n,
                n == before.sessions.sessions.len(),
                before.wf(),
                self@.sessions == before.sessions,
                self@.slot == before.slot,
            decreases n - i,
        {
            let id = self.sessions.sessions()[i].session_id;
            let frame = spdu::close_request(self.slot.slot_num as u8, id);
            let ghost sub = requests.subrange(0, i + 1);
            assert(sub.drop_last() =~= requests.subrange(0, i as int));
            assert(id == before.sessions.sessions[i as int].session_id);
            assert(requests[i as int] == spdu::close_request_frame(before.slot_id(), id));
            assert(sub.last() == requests[i as int]);
            assert(before.queue_all(sub) == before.queue_all(sub.drop_last()).queue(sub.last()));
            self.queue(frame);
            i += 1;
        }
        assert(requests.subrange(0, n as int) =~= requests);
        self.sessions.close_all();
    }

    /// The state of slot `slot_id`, if it is the slot of this device.
    pub fn get_slot_state(&self, slot_id: u32) -> (r: Option<SlotState>)
        ensures
            slot_id == self@.slot.slot_num ==> r == Some(slot_state(self@.slot.flags)),
            slot_id != self@.slot.slot_num ==> r is None,
    {
        if slot_id == self.slot.slot_num {
            Some(slot_state_of(self.slot.flags))
        } else {
            None
        }
    }

    /// The slot as of the last tick.
    pub fn slot_info(&self) -> (r: CaSlotInfo)
        ensures
            r == self@.slot,
    {
        self.slot
    }

    /// Adapter number of the device.
    pub fn adapter(&self) -> (r: u32)
        ensures
            r == self@.adapter,
    {
        self.adapter
    }

    /// Device number of the device.
    pub fn device(&self) -> (r: u32)
        ensures
            r == self@.device,
    {
        self.device
    }

    /// A command went out and its response has not come yet.
    pub fn is_awaiting(&self) -> (r: bool)
        ensures
            r == self@.awaiting,
    {
        self.awaiting
    }

    /// Frames wait in the backlog.
    pub fn has_backlog(&self) -> (r: bool)
        ensures
            r == (self@.backlog.len() > 0),
    {
        self.backlog.len() > 0
    }

    /// The module confirmed the transport connection.
    pub fn is_connected(&self) -> (r: bool)
        ensures
            r == self@.connected,
    {
        self.connected
    }

    /// The open sessions, in the order they were allocated.
    pub fn sessions(&self) -> (r: &Vec<Session>)
        ensures
            r@ == self@.sessions.sessions,
    {
        self.sessions.sessions()
    }

    /// Takes out the frames waiting to be written, oldest first.
    pub fn take_outbox(&mut self) -> (r: Vec<Vec<u8>>)
        requires
            old(self).wf(),
        ensures
            final(self).wf(),
            r@.map_values(|f: Vec<u8>| f@) == old(self)@.outbox,
            final(self)@ == (CaDeviceView { outbox: Seq::empty(), ..old(self)@ }),
    {
        let mut r: Vec<Vec<u8>> = Vec::new();
        std::mem::swap(&mut r, &mut self.outbox);
        assert(self@.outbox =~= Seq::<Seq<u8>>::empty());
        r
    }

    /// Takes out the notices that wait for the resource handlers, oldest
    /// first.
    pub fn take_notices(&mut self) -> (r: Vec<Notice>)
        requires
            old(self).wf(),
        ensures
            final(self).wf(),
            r@.map_values(|n: Notice| n@) == old(self)@.sessions.notices,
            final(self)@ == old(self)@.with_sessions(
                SessionTableView { notices: Seq::empty(), ..old(self)@.sessions },
            ),
    {
        self.sessions.take_notices()
    }
}

} // verus!
