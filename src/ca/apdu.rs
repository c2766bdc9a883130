//! Application layer: the table of resource sessions.
//!
//! Each session binds a session id that the host assigned to a resource of
//! the host. The table allocates ids, tracks whether a session is pending or
//! active, and hands what concerns a resource to its handler as a `Notice`,
//! which the owner of the table takes out and dispatches.

use vstd::prelude::*;
use crate::bytes::copy_bytes;
use crate::error::Error;

verus! {

/// Size of an APDU tag.
pub const APDU_TAG_SIZE: usize = 3;

/// Resource Manager.
pub const RESOURCE_MANAGER: u32 = 0x0001_0041;
/// Application Information.
pub const APPLICATION_INFORMATION: u32 = 0x0002_0041;
/// Conditional Access Support.
pub const CONDITIONAL_ACCESS_SUPPORT: u32 = 0x0003_0041;
/// Host Control.
pub const HOST_CONTROL: u32 = 0x0020_0041;
/// Date-Time.
pub const DATE_TIME: u32 = 0x0024_0041;
/// Man-Machine Interface.
pub const MMI: u32 = 0x0040_0041;

/// The resources that the host offers.
pub open spec fn standard_resource_ids() -> Seq<u32> {
    seq![RESOURCE_MANAGER, APPLICATION_INFORMATION, CONDITIONAL_ACCESS_SUPPORT, HOST_CONTROL, DATE_TIME, MMI]
}

/// State of an open session. A closed session has no record.
#[derive(Debug, Clone, Copy, PartialEq, Eq, Structural)]
pub enum SessionState {
    /// Allocated, its resource not yet started.
    Pending,
    /// Its resource handler runs.
    Active,
}

/// A session of the table.
#[derive(Debug, Clone, Copy, PartialEq, Eq, Structural)]
pub struct Session {
    pub session_id: u16,
    pub resource_id: u32,
    pub state: SessionState,
}

/// What the table hands to the handler of a session's resource.
#[derive(Debug, PartialEq, Eq)]
pub enum Notice {
    /// The session became active: its handler starts.
    Opened { session_id: u16, resource_id: u32 },
    /// An APDU for the session came from the module.
    Apdu { session_id: u16, resource_id: u32, data: Vec<u8> },
    /// Periodic turn of the handler.
    Manage { session_id: u16, resource_id: u32 },
    /// The session was closed.
    Closed { session_id: u16, resource_id: u32 },
}

/// A `Notice` as a mathematical value.
pub enum NoticeView {
    Opened { session_id: u16, resource_id: u32 },
    Apdu { session_id: u16, resource_id: u32, data: Seq<u8> },
    Manage { session_id: u16, resource_id: u32 },
    Closed { session_id: u16, resource_id: u32 },
}

impl View for Notice {
    type V = NoticeView;

    open spec fn view(&self) -> NoticeView {
        match self {
            Notice::Opened { session_id, resource_id } => NoticeView::Opened {
                session_id: *session_id,
                resource_id: *resource_id,
            },
            Notice::Apdu { session_id, resource_id, data } => NoticeView::Apdu {
                session_id: *session_id,
                resource_id: *resource_id,
                data: data@,
            },
            Notice::Manage { session_id, resource_id } => NoticeView::Manage {
                session_id: *session_id,
                resource_id: *resource_id,
            },
            Notice::Closed { session_id, resource_id } => NoticeView::Closed {
                session_id: *session_id,
                resource_id: *resource_id,
            },
        }
    }
}

/// The candidate session id after `id`: ids run from 1 to 0xFFFF and wrap.
pub open spec fn next_candidate(id: u16) -> u16 {
    if id == 0xFFFF {
        1
    } else {
        (id + 1) as u16
    }
}

/// The `Closed` notices of `sessions`, in their order.
pub open spec fn closed_notices(sessions: Seq<Session>) -> Seq<NoticeView> {
    sessions.map_values(
        |s: Session| NoticeView::Closed { session_id: s.session_id, resource_id: s.resource_id },
    )
}

/// The `Manage` notices of the active sessions among `sessions`, in their order.
pub open spec fn manage_notices(sessions: Seq<Session>) -> Seq<NoticeView>
    decreases sessions.len(),
{
    if sessions.len() == 0 {
        Seq::empty()
    } else {
        let s = sessions.last();
        let before = manage_notices(sessions.drop_last());
        if s.state == SessionState::Active {
            before.push(NoticeView::Manage { session_id: s.session_id, resource_id: s.resource_id })
        } else {
            before
        }
    }
}

/// The session table as a mathematical value.
pub struct SessionTableView {
    /// Resources registered with the host.
    pub resources: Seq<u32>,
    /// Open sessions, in the order they were allocated.
    pub sessions: Seq<Session>,
    /// Where the search for a free session id starts.
    pub next_id: u16,
    /// Notices not yet taken by the handlers, oldest first.
    pub notices: Seq<NoticeView>,
}

impl SessionTableView {
    /// An empty table that serves `resources`.
    pub open spec fn fresh(resources: Seq<u32>) -> SessionTableView {
        SessionTableView { resources, sessions: Seq::empty(), next_id: 1, notices: Seq::empty() }
    }

    /// Session ids are nonzero and unique, every session is for a
    /// registered resource, and the search starts at a valid id.
    pub open spec fn wf(self) -> bool {
        &&& self.next_id != 0
        &&& forall|i: int|
            0 <= i < self.sessions.len() ==> self.resources.contains(#[trigger] self.sessions[i].resource_id)
        &&& forall|i: int| 0 <= i < self.sessions.len() ==> #[trigger] self.sessions[i].session_id != 0
        &&& forall|i: int, j: int|
            0 <= i < self.sessions.len() && 0 <= j < self.sessions.len() && i != j
                ==> #[trigger] self.sessions[i].session_id != #[trigger] self.sessions[j].session_id
    }

    /// A session with id `id` is open.
    pub open spec fn has_session(self, id: u16) -> bool {
        exists|i: int| 0 <= i < self.sessions.len() && #[trigger] self.sessions[i].session_id == id
    }

    /// Where the session `id` stands, if it is open.
    pub open spec fn index_of(self, id: u16) -> int {
        choose|i: int| 0 <= i < self.sessions.len() && #[trigger] self.sessions[i].session_id == id
    }

    /// The open session `id`.
    pub open spec fn session(self, id: u16) -> Session {
        self.sessions[self.index_of(id)]
    }

    /// The session `id` is open and active.
    pub open spec fn is_active(self, id: u16) -> bool {
        self.has_session(id) && self.session(id).state == SessionState::Active
    }

    /// The first id, among `n` candidates from `start` on, that no open
    /// session holds.
    pub open spec fn free_id(self, start: u16, n: nat) -> Option<u16>
        decreases n,
    {
        if n == 0 {
            None
        } else if start != 0 && !self.has_session(start) {
            Some(start)
        } else {
            self.free_id(next_candidate(start), (n - 1) as nat)
        }
    }

    /// Allocating a session for `resource_id`: the table after it, and the
    /// new session's id or the reason there is none.
    pub open spec fn init(self, resource_id: u32) -> (Self, Result<u16, Error>) {
        if !self.resources.contains(resource_id) {
            (self, Err(Error::UnsupportedResource(resource_id)))
        } else {
            match self.free_id(self.next_id, 0xFFFF) {
                None => (self, Err(Error::SessionsExhausted)),
                Some(id) => (
                    SessionTableView {
                        sessions: self.sessions.push(
                            Session { session_id: id, resource_id, state: SessionState::Pending },
                        ),
                        next_id: next_candidate(id),
                        ..self
                    },
                    Ok(id),
                ),
            }
        }
    }

    /// Activating the pending session `id`.
    pub open spec fn open(self, id: u16) -> (Self, Result<(), Error>) {
        if self.has_session(id) && self.session(id).state == SessionState::Pending {
            let s = self.session(id);
            (
                SessionTableView {
                    sessions: self.sessions.update(
                        self.index_of(id),
                        Session { state: SessionState::Active, ..s },
                    ),
                    notices: self.notices.push(
                        NoticeView::Opened { session_id: id, resource_id: s.resource_id },
                    ),
                    ..self
                },
                Ok(()),
            )
        } else {
            (self, Err(Error::UnknownSession(id)))
        }
    }

    /// Closing the session `id`; a session that is not open stays so.
    pub open spec fn close(self, id: u16) -> Self {
        if self.has_session(id) {
            let s = self.session(id);
            SessionTableView {
                sessions: self.sessions.remove(self.index_of(id)),
                notices: self.notices.push(
                    NoticeView::Closed { session_id: id, resource_id: s.resource_id },
                ),
                ..self
            }
        } else {
            self
        }
    }

    /// Handing `data` to the handler of the active session `id`.
    pub open spec fn handle(self, id: u16, data: Seq<u8>) -> (Self, Result<(), Error>) {
        if self.is_active(id) {
            (
                SessionTableView {
                    notices: self.notices.push(
                        NoticeView::Apdu {
                            session_id: id,
                            resource_id: self.session(id).resource_id,
                            data,
                        },
                    ),
                    ..self
                },
                Ok(()),
            )
        } else {
            (self, Err(Error::UnknownSession(id)))
        }
    }

    /// Giving the handler of the active session `id` its periodic turn.
    pub open spec fn manage(self, id: u16) -> (Self, Result<(), Error>) {
        if self.is_active(id) {
            (
                SessionTableView {
                    notices: self.notices.push(
                        NoticeView::Manage { session_id: id, resource_id: self.session(id).resource_id },
                    ),
                    ..self
                },
                Ok(()),
            )
        } else {
            (self, Err(Error::UnknownSession(id)))
        }
    }

    /// Closing every open session, in their order.
    pub open spec fn close_all(self) -> Self {
        SessionTableView {
            sessions: Seq::empty(),
            notices: self.notices + closed_notices(self.sessions),
            ..self
        }
    }

    /// Giving every active session its periodic turn, in their order.
    pub open spec fn manage_all(self) -> Self {
        SessionTableView { notices: self.notices + manage_notices(self.sessions), ..self }
    }
}

/// A free id found from `start` on is nonzero and held by no open session.
pub proof fn lemma_free_id(t: SessionTableView, start: u16, n: nat)
    ensures
        t.free_id(start, n) matches Some(id) ==> id != 0 && !t.has_session(id),
    decreases n,
{
    if n > 0 && !(start != 0 && !t.has_session(start)) {
        lemma_free_id(t, next_candidate(start), (n - 1) as nat);
    }
}

/// In a well-formed table, the session at `i` is the one `index_of` finds.
pub proof fn lemma_index_of(t: SessionTableView, i: int)
    requires
        t.wf(),
        0 <= i < t.sessions.len(),
    ensures
        t.has_session(t.sessions[i].session_id),
        t.index_of(t.sessions[i].session_id) == i,
{
    let id = t.sessions[i].session_id;
    assert(t.has_session(id));
    let j = t.index_of(id);
    assert(t.sessions[j].session_id == id);
}

/// Allocating keeps the table well formed; a new id was free before and is
/// open after, and every session that was open stays open.
pub proof fn lemma_init(t: SessionTableView, resource_id: u32)
    requires
        t.wf(),
    ensures
        t.init(resource_id).0.wf(),
        forall|x: u16| t.has_session(x) ==> #[trigger] t.init(resource_id).0.has_session(x),
        t.init(resource_id).1 matches Ok(id) ==> !t.has_session(id) && t.init(resource_id).0.has_session(id),
{
    let (u, r) = t.init(resource_id);
    if let Ok(id) = r {
        lemma_free_id(t, t.next_id, 0xFFFF);
        assert(u.sessions[u.sessions.len() - 1].session_id == id);
        assert forall|x: u16| t.has_session(x) implies #[trigger] u.has_session(x) by {
            let i = choose|i: int| 0 <= i < t.sessions.len() && #[trigger] t.sessions[i].session_id == x;
            assert(u.sessions[i] == t.sessions[i]);
        }
        assert forall|i: int, j: int|
            0 <= i < u.sessions.len() && 0 <= j < u.sessions.len() && i != j implies
            #[trigger] u.sessions[i].session_id != #[trigger] u.sessions[j].session_id by {
            if i == u.sessions.len() - 1 {
                assert(t.sessions[j].session_id != id);
            } else if j == u.sessions.len() - 1 {
                assert(t.sessions[i].session_id != id);
            }
        }
    }
}

/// An id open in `tables[from]` is still open in `tables[to]` where only
/// allocations lead from one to the other.
proof fn lemma_stays_open(tables: Seq<SessionTableView>, resources: Seq<u32>, id: u16, from: int, to: int)
    requires
        tables.len() == resources.len() + 1,
        0 <= from <= to < tables.len(),
        forall|k: int| 0 <= k <= from ==> (#[trigger] tables[k]).wf(),
        forall|k: int| 0 <= k < resources.len() ==> #[trigger] tables[k + 1] == tables[k].init(resources[k]).0,
        tables[from].has_session(id),
    ensures
        tables[to].wf(),
        tables[to].has_session(id),
    decreases to - from,
{
    if from < to {
        lemma_init(tables[from], resources[from]);
        assert(tables[from + 1] == tables[from].init(resources[from]).0);
        assert forall|k: int| 0 <= k <= from + 1 implies (#[trigger] tables[k]).wf() by {
            if k == from + 1 {
                assert(tables[k] == tables[from].init(resources[from]).0);
            }
        }
        lemma_stays_open(tables, resources, id, from + 1, to);
    }
}

/// Allocations with no close in between never hand out an id twice: where
/// `tables[k + 1]` is the table that allocating for `resources[k]` leaves
/// from `tables[k]`, two allocations that succeeded returned distinct ids.
pub proof fn lemma_init_ids_distinct(tables: Seq<SessionTableView>, resources: Seq<u32>, i: int, j: int)
    requires
        tables.len() == resources.len() + 1,
        tables[0].wf(),
        forall|k: int| 0 <= k < resources.len() ==> #[trigger] tables[k + 1] == tables[k].init(resources[k]).0,
        0 <= i < j < resources.len(),
        tables[i].init(resources[i]).1 is Ok,
        tables[j].init(resources[j]).1 is Ok,
    ensures
        tables[i].init(resources[i]).1 != tables[j].init(resources[j]).1,
{
    assert forall|k: int| 0 <= k < tables.len() implies (#[trigger] tables[k]).wf() by {
        lemma_all_wf(tables, resources, k);
    }
    let id = tables[i].init(resources[i]).1.unwrap();
    lemma_init(tables[i], resources[i]);
    assert(tables[i + 1].has_session(id));
    lemma_stays_open(tables, resources, id, i + 1, j);
    lemma_init(tables[j], resources[j]);
}

/// Every table of a run of allocations from a well-formed table is well
/// formed.
proof fn lemma_all_wf(tables: Seq<SessionTableView>, resources: Seq<u32>, k: int)
    requires
        tables.len() == resources.len() + 1,
        tables[0].wf(),
        forall|m: int| 0 <= m < resources.len() ==> #[trigger] tables[m + 1] == tables[m].init(resources[m]).0,
        0 <= k < tables.len(),
    ensures
        tables[k].wf(),
    decreases k,
{
    if k > 0 {
        lemma_all_wf(tables, resources, k - 1);
        lemma_init(tables[k - 1], resources[(k - 1)]);
        assert(tables[(k - 1) + 1] == tables[k - 1].init(resources[k - 1]).0);
    }
}

/// Closing keeps the table well formed, and the closed id is no longer open.
pub proof fn lemma_close(t: SessionTableView, id: u16)
    requires
        t.wf(),
    ensures
        t.close(id).wf(),
        !t.close(id).has_session(id),
{
    if t.has_session(id) {
        let i = t.index_of(id);
        let u = t.close(id).sessions;
        assert forall|a: int, b: int|
            0 <= a < u.len() && 0 <= b < u.len() && a != b implies
            #[trigger] u[a].session_id != #[trigger] u[b].session_id by {
            let a0 = if a < i { a } else { a + 1 };
            let b0 = if b < i { b } else { b + 1 };
            assert(u[a] == t.sessions[a0] && u[b] == t.sessions[b0]);
        }
        assert forall|a: int| 0 <= a < u.len() implies #[trigger] u[a].session_id != 0 by {
            let a0 = if a < i { a } else { a + 1 };
            assert(u[a] == t.sessions[a0]);
        }
        assert forall|a: int| 0 <= a < u.len() implies #[trigger] u[a].session_id != id by {
            let a0 = if a < i { a } else { a + 1 };
            assert(u[a] == t.sessions[a0]);
        }
    }
}

/// Closing is idempotent: closing a session again changes nothing.
pub proof fn lemma_close_idempotent(t: SessionTableView, id: u16)
    requires
        t.wf(),
    ensures
        t.close(id).close(id) == t.close(id),
{
    lemma_close(t, id);
}

/// The resource sessions of one module.
pub struct SessionTable {
    resources: Vec<u32>,
    sessions: Vec<Session>,
    next_id: u16,
    notices: Vec<Notice>,
}

impl View for SessionTable {
    type V = SessionTableView;

    closed spec fn view(&self) -> SessionTableView {
        SessionTableView {
            resources: self.resources@,
            sessions: self.sessions@,
            next_id: self.next_id,
            notices: self.notices@.map_values(|n: Notice| n@),
        }
    }
}

impl SessionTable {
    /// An empty table that serves the resources `resources`.
    pub fn new(resources: Vec<u32>) -> (r: SessionTable)
        ensures
            r@.wf(),
            r@ == SessionTableView::fresh(resources@),
    {
        let r = SessionTable { resources, sessions: Vec::new(), next_id: 1, notices: Vec::new() };
        assert(r@.notices =~= Seq::<NoticeView>::empty());
        assert(r@.sessions =~= Seq::<Session>::empty());
        r
    }

    /// The resources that the host offers: resource manager, application
    /// information, conditional access support, host control, date-time and
    /// MMI.
    pub fn standard_resources() -> (r: Vec<u32>)
        ensures
            r@ == standard_resource_ids(),
    {
        let mut r: Vec<u32> = Vec::new();
        r.push(RESOURCE_MANAGER);
        r.push(APPLICATION_INFORMATION);
        r.push(CONDITIONAL_ACCESS_SUPPORT);
        r.push(HOST_CONTROL);
        r.push(DATE_TIME);
        r.push(MMI);
        assert(r@ =~= standard_resource_ids());
        r
    }

    /// Where the open session `id` stands.
    fn find(&self, id: u16) -> (r: Option<usize>)
        requires
            self@.wf(),
        ensures
            r matches Some(i) ==> i < self@.sessions.len() && self@.index_of(id) == i
                && self@.has_session(id),
            r is None ==> !self@.has_session(id),
    {
        let mut i: usize = 0;
        while i < self.sessions.len()
            invariant
                self@.wf(),
                i <= self.sessions@.len(),
                forall|j: int| 0 <= j < i ==> self.sessions@[j].session_id != id,
            decreases self.sessions@.len() - i,
        {
            if self.sessions[i].session_id == id {
                proof {
                    lemma_index_of(self@, i as int);
                }
                return Some(i);
            }
            i += 1;
        }
        None
    }

    /// Whether `id` is a registered resource.
    fn supports(&self, resource_id: u32) -> (r: bool)
        ensures
            r == self@.resources.contains(resource_id),
    {
        let mut i: usize = 0;
        while i < self.resources.len()
            invariant
                i <= self.resources@.len(),
                forall|j: int| 0 <= j < i ==> self.resources@[j] != resource_id,
            decreases self.resources@.len() - i,
        {
            if self.resources[i] == resource_id {
                assert(self@.resources[i as int] == resource_id);
                return true;
            }
            i += 1;
        }
        false
    }

    /// The first id from `next_id` on that no open session holds.
    fn free_id(&self) -> (r: Option<u16>)
        requires
            self@.wf(),
        ensures
            r == self@.free_id(self@.next_id, 0xFFFF),
    {
        let mut candidate: u16 = self.next_id;
        let mut n: u32 = 0;
        while n < 0xFFFF
            invariant
                self@.wf(),
                n <= 0xFFFF,
                self@.free_id(self@.next_id, 0xFFFF) == self@.free_id(candidate, (0xFFFF - n) as nat),
            decreases 0xFFFF - n,
        {
            if candidate != 0 && self.find(candidate).is_none() {
                return Some(candidate);
            }
            candidate = if candidate == 0xFFFF {
                1
            } else {
                candidate + 1
            };
            n += 1;
        }
        None
    }

    /// Allocates a pending session for `resource_id` and returns its id:
    /// the first id from the table's counter on that no open session holds.
    /// Fails with `UnsupportedResource` where the resource is not registered.
    pub fn init(&mut self, resource_id: u32) -> (r: Result<u16, Error>)
        requires
            old(self)@.wf(),
        ensures
            final(self)@.wf(),
            (final(self)@, r) == old(self)@.init(resource_id),
    {
        if !self.supports(resource_id) {
            return Err(Error::UnsupportedResource(resource_id));
        }
        match self.free_id() {
            None => Err(Error::SessionsExhausted),
            Some(id) => {
                proof {
                    lemma_init(self@, resource_id);
                }
                self.sessions.push(
                    Session { session_id: id, resource_id, state: SessionState::Pending },
                );
                self.next_id = if id == 0xFFFF {
                    1
                } else {
                    id + 1
                };
                Ok(id)
            },
        }
    }

    /// Makes the pending session `id` active, which starts its handler.
    /// Fails with `UnknownSession` where no pending session has this id.
    pub fn open(&mut self, id: u16) -> (r: Result<(), Error>)
        requires
            old(self)@.wf(),
        ensures
            final(self)@.wf(),
            (final(self)@, r) == old(self)@.open(id),
    {
        match self.find(id) {
            None => Err(Error::UnknownSession(id)),
            Some(i) => {
                let s = self.sessions[i];
                if s.state != SessionState::Pending {
                    return Err(Error::UnknownSession(id));
                }
                self.sessions.set(i, Session { state: SessionState::Active, ..s });
                self.notices.push(Notice::Opened { session_id: id, resource_id: s.resource_id });
                assert(self@.sessions =~= old(self)@.open(id).0.sessions);
                assert(self@.notices =~= old(self)@.open(id).0.notices);
                Ok(())
            },
        }
    }

    /// Closes the session `id` and removes its record. Closing an id that no
    /// open session has is no error.
    pub fn close(&mut self, id: u16) -> (r: Result<(), Error>)
        requires
            old(self)@.wf(),
        ensures
            final(self)@.wf(),
            final(self)@ == old(self)@.close(id),
            r == Ok::<(), Error>(()),
    {
        if let Some(i) = self.find(id) {
            let s = self.sessions.remove(i);
            self.notices.push(Notice::Closed { session_id: id, resource_id: s.resource_id });
            proof {
                lemma_close(old(self)@, id);
            }
            assert(self@.notices =~= old(self)@.close(id).notices);
        }
        Ok(())
    }

    /// Hands `data` to the handler of the active session `id`. Fails with
    /// `UnknownSession` where no active session has this id.
    pub fn handle(&mut self, id: u16, data: &[u8]) -> (r: Result<(), Error>)
        requires
            old(self)@.wf(),
        ensures
            final(self)@.wf(),
            (final(self)@, r) == old(self)@.handle(id, data@),
    {
        match self.find(id) {
            None => Err(Error::UnknownSession(id)),
            Some(i) => {
                let s = self.sessions[i];
                if s.state != SessionState::Active {
                    return Err(Error::UnknownSession(id));
                }
                let bytes = copy_bytes(data);
                self.notices.push(Notice::Apdu { session_id: id, resource_id: s.resource_id, data: bytes });
                assert(self@.notices =~= old(self)@.handle(id, data@).0.notices);
                Ok(())
            },
        }
    }

    /// Gives the handler of the active session `id` its periodic turn.
    /// Fails with `UnknownSession` where no active session has this id.
    pub fn manage(&mut self, id: u16) -> (r: Result<(), Error>)
        requires
            old(self)@.wf(),
        ensures
            final(self)@.wf(),
            (final(self)@, r) == old(self)@.manage(id),
    {
        match self.find(id) {
            None => Err(Error::UnknownSession(id)),
            Some(i) => {
                let s = self.sessions[i];
                if s.state != SessionState::Active {
                    return Err(Error::UnknownSession(id));
                }
                self.notices.push(Notice::Manage { session_id: id, resource_id: s.resource_id });
                assert(self@.notices =~= old(self)@.manage(id).0.notices);
                Ok(())
            },
        }
    }

    /// Closes every open session.
    pub fn close_all(&mut self)
        requires
            old(self)@.wf(),
        ensures
            final(self)@.wf(),
            final(self)@ == old(self)@.close_all(),
    {
        let mut i: usize = 0;
        while i < self.sessions.len()
            invariant
                self.sessions@ == old(self)@.sessions,
                self.resources@ == old(self)@.resources,
                self.next_id == old(self)@.next_id,
                i <= self.sessions@.len(),
                self@.notices == old(self)@.notices + closed_notices(self.sessions@.subrange(0, i as int)),
            decreases self.sessions@.len() - i,
        {
            let s = self.sessions[i];
            let ghost prev = self@.notices;
            self.notices.push(Notice::Closed { session_id: s.session_id, resource_id: s.resource_id });
            assert(self@.notices =~= prev.push(
                NoticeView::Closed { session_id: s.session_id, resource_id: s.resource_id },
            ));
            assert(closed_notices(self.sessions@.subrange(0, i + 1)) =~= closed_notices(
                self.sessions@.subrange(0, i as int),
            ).push(NoticeView::Closed { session_id: s.session_id, resource_id: s.resource_id }));
            assert(self@.notices =~= old(self)@.notices + closed_notices(
                self.sessions@.subrange(0, i + 1),
            ));
            i += 1;
        }
        assert(self.sessions@.subrange(0, i as int) =~= self.sessions@);
        self.sessions.clear();
        assert(self@ =~= old(self)@.close_all());
    }

    /// Gives every active session its periodic turn.
    pub fn manage_all(&mut self)
        requires
            old(self)@.wf(),
        ensures
            final(self)@.wf(),
            final(self)@ == old(self)@.manage_all(),
    {
        let mut i: usize = 0;
        while i < self.sessions.len()
            invariant
                self.sessions@ == old(self)@.sessions,
                self.resources@ == old(self)@.resources,
                self.next_id == old(self)@.next_id,
                i <= self.sessions@.len(),
                self@.notices == old(self)@.notices + manage_notices(self.sessions@.subrange(0, i as int)),
            decreases self.sessions@.len() - i,
        {
            let s = self.sessions[i];
            assert(self.sessions@.subrange(0, i + 1).drop_last() =~= self.sessions@.subrange(0, i as int));
            let ghost prev = self@.notices;
            if s.state == SessionState::Active {
                self.notices.push(Notice::Manage { session_id: s.session_id, resource_id: s.resource_id });
                assert(self@.notices =~= prev.push(
                    NoticeView::Manage { session_id: s.session_id, resource_id: s.resource_id },
                ));
            }
            assert(self@.notices =~= old(self)@.notices + manage_notices(
                self.sessions@.subrange(0, i + 1),
            ));
            i += 1;
        }
        assert(self.sessions@.subrange(0, i as int) =~= self.sessions@);
        assert(self@ =~= old(self)@.manage_all());
    }

    /// Takes out the notices that wait for the handlers, oldest first.
    pub fn take_notices(&mut self) -> (r: Vec<Notice>)
        requires
            old(self)@.wf(),
        ensures
            final(self)@.wf(),
            r@.map_values(|n: Notice| n@) == old(self)@.notices,
            final(self)@ == (SessionTableView { notices: Seq::empty(), ..old(self)@ }),
    {
        let mut r: Vec<Notice> = Vec::new();
        std::mem::swap(&mut r, &mut self.notices);
        assert(self@.notices =~= Seq::<NoticeView>::empty());
        assert(self@ =~= (SessionTableView { notices: Seq::empty(), ..old(self)@ }));
        r
    }

    /// The open sessions, in the order they were allocated.
    pub fn sessions(&self) -> (r: &Vec<Session>)
        ensures
            r@ == self@.sessions,
    {
        &self.sessions
    }
}

} // verus!
