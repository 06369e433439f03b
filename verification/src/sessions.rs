use vstd::prelude::*;
use crate::error::{SessionError, SessionErrorView};
use crate::handler::{
    check_remove_unused_displays, delivery_view, FlutterHandlerView, HandlerView,
};
use crate::ordered_map::OrderedMap;
use crate::session::{conn_type_of, requested_conn_type, PeerKey, Session, SessionView};
use crate::events::{event_text, pairs_view};
use crate::types::{
    close_event, deliveries_view, ConnType, Delivery, EventView, SessionID, SinkId,
};

verus! {

/// The view of a [`PeerKey`].
pub type PeerKeyView = (Seq<char>, ConnType);

/// The mathematical value of a [`Sessions`] registry.
pub struct SessionsView {
    /// Whether the sessions deliver frames to render targets; else to owned buffers.
    pub texture_render: bool,
    /// Whether the write callback of the render targets was resolved.
    pub has_callback: bool,
    /// The attachment that the user works in.
    pub cur_session_id: SessionID,
    /// The connections, in the order in which they were registered.
    pub keys: Seq<PeerKeyView>,
    /// The session of each connection.
    pub sessions: Map<PeerKeyView, SessionView>,
}

impl SessionsView {
    /// No connection occurs twice; each has its session, with a well-formed UI side and
    /// at least one attachment.
    pub open spec fn wf(self) -> bool {
        &&& self.keys.no_duplicates()
        &&& forall|k: PeerKeyView| self.sessions.dom().contains(k) <==> self.keys.contains(k)
        &&& forall|k: PeerKeyView|
            self.sessions.dom().contains(k) ==> (#[trigger] self.sessions[k]).ui.wf()
        &&& forall|k: PeerKeyView|
            self.sessions.dom().contains(k) ==> (#[trigger] self.sessions[k]).ui.ids.len() > 0
    }

    /// The registry without connections.
    pub open spec fn empty(texture_render: bool, has_callback: bool) -> SessionsView {
        SessionsView {
            texture_render,
            has_callback,
            cur_session_id: 0,
            keys: Seq::empty(),
            sessions: Map::empty(),
        }
    }

    /// Whether the connection `key` is registered.
    pub open spec fn registered(self, key: PeerKeyView) -> bool {
        self.sessions.dom().contains(key)
    }

    /// The number of attachments of the connection `key`, 0 where it is not registered.
    pub open spec fn session_count(self, key: PeerKeyView) -> nat {
        if self.registered(key) {
            self.sessions[key].ui.ids.len()
        } else {
            0
        }
    }

    /// Whether the connection at position `i` holds the attachment `id`.
    pub open spec fn owns_at(self, i: int, id: SessionID) -> bool {
        self.sessions[self.keys[i]].ui.handlers.dom().contains(id)
    }

    /// Whether position `i` is the first whose connection holds the attachment `id`.
    pub open spec fn is_owner(self, i: int, id: SessionID) -> bool {
        &&& 0 <= i < self.keys.len()
        &&& self.owns_at(i, id)
        &&& forall|j: int| 0 <= j < i ==> !self.owns_at(j, id)
    }

    /// The position of the first connection that holds the attachment `id`.
    pub open spec fn owner(self, id: SessionID) -> Option<int> {
        if exists|i: int| self.is_owner(i, id) {
            Some(choose|i: int| self.is_owner(i, id))
        } else {
            None
        }
    }

    /// Whether position `i` is the first whose connection is of kind `conn_type` and
    /// holds the attachment `id`.
    pub open spec fn is_owner_of_kind(self, i: int, id: SessionID, conn_type: ConnType) -> bool {
        &&& 0 <= i < self.keys.len()
        &&& self.keys[i].1 == conn_type
        &&& self.owns_at(i, id)
        &&& forall|j: int| 0 <= j < i ==> !(self.keys[j].1 == conn_type && self.owns_at(j, id))
    }

    /// The registry with the session of `key` replaced.
    pub open spec fn with_session(self, key: PeerKeyView, s: SessionView) -> SessionsView {
        SessionsView { sessions: self.sessions.insert(key, s), ..self }
    }

    /// The registry after `session` was offered for the connection of its peer and of
    /// kind `conn_type`, with the attachment `session_id`: a connection that is
    /// registered keeps its session, a new one gets `session`; either way the session
    /// gets a fresh attachment under `session_id`.
    pub open spec fn insert_session(
        self,
        session_id: SessionID,
        conn_type: ConnType,
        session: SessionView,
    ) -> SessionsView {
        let key = (session.peer_id, conn_type);
        if self.registered(key) {
            let s = self.sessions[key];
            self.with_session(
                key,
                SessionView { ui: s.ui.insert_handler(session_id, false), ..s },
            )
        } else {
            SessionsView {
                keys: self.keys.push(key),
                sessions: self.sessions.insert(
                    key,
                    SessionView { ui: session.ui.insert_handler(session_id, false), ..session },
                ),
                ..self
            }
        }
    }

    /// The registry after the attachment `session_id` joined the connection `key`;
    /// unchanged where the connection is not registered.
    pub open spec fn insert_peer_session_id(
        self,
        key: PeerKeyView,
        session_id: SessionID,
    ) -> SessionsView {
        if self.registered(key) {
            let s = self.sessions[key];
            self.with_session(
                key,
                SessionView { ui: s.ui.insert_handler(session_id, s.ui.peer_multi_display), ..s },
            )
        } else {
            self
        }
    }

    /// The registry after the attachment `id` was detached: it leaves the first
    /// connection that holds it, and a connection that loses its last attachment leaves
    /// the registry.
    pub open spec fn detach(self, id: SessionID) -> SessionsView {
        match self.owner(id) {
            None => self,
            Some(i) => {
                let key = self.keys[i];
                let s = self.sessions[key];
                let ui = s.ui.remove_handler(id);
                if ui.ids.len() == 0 {
                    SessionsView {
                        keys: self.keys.remove(i),
                        sessions: self.sessions.remove(key),
                        ..self
                    }
                } else {
                    self.with_session(key, SessionView { ui, ..s })
                }
            },
        }
    }
}

/// The registry of the peer connections: the one place where connections are made and
/// given up.
pub struct Sessions {
    map: OrderedMap<PeerKey, Session>,
    texture_render: bool,
    on_rgba_func: bool,
    cur_session_id: SessionID,
}

impl View for Sessions {
    type V = SessionsView;

    closed spec fn view(&self) -> SessionsView {
        SessionsView {
            texture_render: self.texture_render,
            has_callback: self.on_rgba_func,
            cur_session_id: self.cur_session_id,
            keys: self.map.keys(),
            sessions: self.map@.map_values(|s: Session| s@),
        }
    }
}

impl Sessions {
    /// What holds of every registry that was made by [`Self::new`] and changed by the
    /// functions of this module: no connection occurs twice, and every session is
    /// well-formed and has an attachment.
    pub closed spec fn wf(&self) -> bool {
        &&& self.map.wf()
        &&& forall|k: PeerKeyView| self.map@.dom().contains(k) ==> (#[trigger] self.map@[k]).wf()
        &&& forall|k: PeerKeyView|
            self.map@.dom().contains(k) ==> (#[trigger] self.map@[k])@.ui.ids.len() > 0
    }

    /// A well-formed registry has a well-formed view.
    pub proof fn lemma_view_wf(&self)
        requires
            self.wf(),
        ensures
            self@.wf(),
    {
        self.map.lemma_dom();
        self.map.lemma_keys();
        assert forall|k: PeerKeyView| self@.sessions.dom().contains(k) implies (
        #[trigger] self@.sessions[k]).ui.wf() by {
            self.map@[k].lemma_view_wf();
        }
    }

    /// A registry without connections. `texture_render` chooses, for every session made
    /// here, between render targets and owned buffers; `on_rgba_func` says whether the
    /// write callback of the render targets could be resolved.
    pub fn new(texture_render: bool, on_rgba_func: bool) -> (r: Self)
        ensures
            r.wf(),
            r@ == SessionsView::empty(texture_render, on_rgba_func),
    {
        let r = Sessions {
            map: OrderedMap::new(),
            texture_render,
            on_rgba_func,
            cur_session_id: 0,
        };
        assert(r@.sessions =~= Map::empty());
        r
    }

    /// The number of connections.
    pub fn len(&self) -> (n: usize)
        ensures
            n == self@.keys.len(),
    {
        self.map.len()
    }

    /// The position of the first connection that holds the attachment `id`.
    pub fn find_owner(&self, id: SessionID) -> (r: Option<usize>)
        requires
            self.wf(),
        ensures
            match r {
                Some(i) => self@.owner(id) == Some(i as int) && self@.is_owner(i as int, id),
                None => self@.owner(id) is None,
            },
            r is None ==> forall|j: int| 0 <= j < self@.keys.len() ==> !self@.owns_at(j, id),
    {
        let n = self.map.len();
        let mut i: usize = 0;
        proof {
            self.map.lemma_dom();
        }
        while i < n
            invariant
                self.wf(),
                n == self@.keys.len(),
                i <= n,
                forall|j: int| 0 <= j < i ==> !self@.owns_at(j, id),
            decreases n - i,
        {
            proof {
                self.map.lemma_dom();
            }
            let s = self.map.value_at(i);
            if s.ui_handler().has_handler(id) {
                proof {
                    assert(self@.is_owner(i as int, id));
                    let c = choose|c: int| self@.is_owner(c, id);
                    assert(self@.is_owner(c, id));
                    assert(c == i) by {
                        if c < i {
                            assert(!self@.owns_at(c, id));
                        } else if c > i {
                            assert(!self@.owns_at(i as int, id));
                        }
                    }
                }
                return Some(i);
            }
            i += 1;
        }
        proof {
            assert forall|c: int| !self@.is_owner(c, id) by {
                if self@.is_owner(c, id) {
                    assert(!self@.owns_at(c, id));
                }
            }
        }
        None
    }

    /// The session at position `i`.
    pub fn session_at(&self, i: usize) -> (s: &Session)
        requires
            self.wf(),
            i < self@.keys.len(),
        ensures
            s@ == self@.sessions[self@.keys[i as int]],
            self@.sessions.dom().contains(self@.keys[i as int]),
            s.wf(),
    {
        proof {
            self.map.lemma_dom();
        }
        self.map.value_at(i)
    }
}

/// The number of attachments of the connection of `peer_id` and `conn_type`, 0 where it
/// is not registered.
pub fn get_session_count(sessions: &Sessions, peer_id: String, conn_type: ConnType) -> (n: usize)
    requires
        sessions.wf(),
    ensures
        n == sessions@.session_count((peer_id@, conn_type)),
{
    proof {
        sessions.map.lemma_dom();
    }
    let key = PeerKey { peer_id, conn_type };
    match sessions.map.get(&key) {
        Some(s) => s.ui_handler().handler_count(),
        None => 0,
    }
}

/// The session of the first connection that holds the attachment `id`.
pub fn get_session_by_session_id<'a>(sessions: &'a Sessions, id: &SessionID) -> (r: Option<
    &'a Session,
>)
    requires
        sessions.wf(),
    ensures
        r is Some == sessions@.owner(*id) is Some,
        r is Some ==> r->0@ == sessions@.sessions[sessions@.keys[sessions@.owner(*id)->0]]
            && r->0.wf(),
{
    match sessions.find_owner(*id) {
        Some(i) => Some(sessions.session_at(i)),
        None => None,
    }
}

/// The session of the connection of `peer_id` and `conn_type`.
pub fn get_session_by_peer_id(sessions: &Sessions, peer_id: String, conn_type: ConnType) -> (r:
    Option<&Session>)
    requires
        sessions.wf(),
    ensures
        r is Some == sessions@.registered((peer_id@, conn_type)),
        r is Some ==> r->0@ == sessions@.sessions[(peer_id@, conn_type)] && r->0.wf(),
{
    proof {
        sessions.map.lemma_dom();
    }
    let key = PeerKey { peer_id, conn_type };
    sessions.map.get(&key)
}

/// Whether the connection of `peer_id` and `conn_type` is registered with an attachment.
pub fn other_sessions_running(sessions: &Sessions, peer_id: String, conn_type: ConnType) -> (b:
    bool)
    requires
        sessions.wf(),
    ensures
        b == (sessions@.session_count((peer_id@, conn_type)) != 0),
{
    get_session_count(sessions, peer_id, conn_type) != 0
}

/// The peer of the first connection of kind `conn_type` that holds the attachment `id`.
pub fn get_peer_id_by_session_id(sessions: &Sessions, id: &SessionID, conn_type: ConnType) -> (r:
    Option<String>)
    requires
        sessions.wf(),
    ensures
        match r {
            Some(peer_id) => exists|i: int|
                sessions@.is_owner_of_kind(i, *id, conn_type) && peer_id@
                    == #[trigger] sessions@.keys[i].0,
            None => forall|i: int| !sessions@.is_owner_of_kind(i, *id, conn_type),
        },
{
    let n = sessions.map.len();
    let mut i: usize = 0;
    proof {
        sessions.map.lemma_dom();
    }
    while i < n
        invariant
            sessions.wf(),
            n == sessions@.keys.len(),
            i <= n,
            forall|j: int|
                0 <= j < i ==> !(sessions@.keys[j].1 == conn_type && sessions@.owns_at(j, *id)),
        decreases n - i,
    {
        proof {
            sessions.map.lemma_dom();
        }
        let key = sessions.map.key_at(i);
        if key.conn_type == conn_type && sessions.map.value_at(i).ui_handler().has_handler(*id) {
            let peer_id = key.peer_id.clone();
            proof {
                assert(key@ == sessions@.keys[i as int]);
                assert(sessions@.is_owner_of_kind(i as int, *id, conn_type));
                assert(peer_id@ == sessions@.keys[i as int].0);
            }
            return Some(peer_id);
        }
        i += 1;
    }
    proof {
        assert forall|c: int| !sessions@.is_owner_of_kind(c, *id, conn_type) by {
            if sessions@.is_owner_of_kind(c, *id, conn_type) {
                assert(!(sessions@.keys[c].1 == conn_type && sessions@.owns_at(c, *id)));
            }
        }
    }
    None
}

/// Registers `session` for the connection of its peer and of kind `conn_type`, unless
/// that connection is registered, and gives the connection's session a fresh attachment
/// under `session_id`.
pub fn insert_session(
    sessions: &mut Sessions,
    session_id: SessionID,
    conn_type: ConnType,
    session: Session,
)
    requires
        old(sessions).wf(),
        session.wf(),
    ensures
        final(sessions).wf(),
        final(sessions)@ == old(sessions)@.insert_session(session_id, conn_type, session@),
{
    proof {
        sessions.map.lemma_dom();
        session.lemma_view_wf();
    }
    let key = PeerKey { peer_id: session.get_id(), conn_type };
    match sessions.map.position(&key) {
        Some(i) => {
            let ghost k = sessions.map.keys()[i as int];
            let ghost s0 = sessions.map@[k];
            proof {
                s0.lemma_view_wf();
            }
            let s = sessions.map.value_at_mut(i);
            let h = s.ui_handler_mut();
            h.insert_handler(session_id, false);
            proof {
                lemma_ids_with_nonempty(s0@.ui, session_id);
                assert(sessions@.sessions =~= old(sessions)@.insert_session(
                    session_id,
                    conn_type,
                    session@,
                ).sessions);
            }
        },
        None => {
            let mut s = session;
            let h = s.ui_handler_mut();
            h.insert_handler(session_id, false);
            proof {
                lemma_ids_with_nonempty(session@.ui, session_id);
            }
            sessions.map.insert(key, s);
            proof {
                assert(sessions@.sessions =~= old(sessions)@.insert_session(
                    session_id,
                    conn_type,
                    session@,
                ).sessions);
            }
        },
    }
}

/// After an attachment was put in, there is at least one.
pub proof fn lemma_ids_with_nonempty(v: FlutterHandlerView, id: SessionID)
    requires
        v.wf(),
    ensures
        v.insert_handler(id, false).ids.len() > 0,
        v.ids_with(id).len() > 0,
{
    if v.handlers.dom().contains(id) {
        assert(v.ids.contains(id));
    }
}

/// Lets the attachment `session_id` join the connection of `peer_id` and `conn_type`,
/// and says whether that connection is registered. Where it is not, nothing changes.
pub fn insert_peer_session_id(
    sessions: &mut Sessions,
    peer_id: String,
    conn_type: ConnType,
    session_id: SessionID,
) -> (found: bool)
    requires
        old(sessions).wf(),
    ensures
        final(sessions).wf(),
        found == old(sessions)@.registered((peer_id@, conn_type)),
        final(sessions)@ == old(sessions)@.insert_peer_session_id(
            (peer_id@, conn_type),
            session_id,
        ),
{
    proof {
        sessions.map.lemma_dom();
    }
    let key = PeerKey { peer_id, conn_type };
    match sessions.map.position(&key) {
        Some(i) => {
            let ghost k = sessions.map.keys()[i as int];
            let ghost s0 = sessions.map@[k];
            proof {
                s0.lemma_view_wf();
            }
            let s = sessions.map.value_at_mut(i);
            let h = s.ui_handler_mut();
            let multi = h.is_support_multi_ui_session();
            h.insert_handler(session_id, multi);
            proof {
                lemma_ids_with_nonempty(s0@.ui, session_id);
                assert(sessions@.sessions =~= old(sessions)@.insert_peer_session_id(
                    (peer_id@, conn_type),
                    session_id,
                ).sessions);
            }
            true
        },
        None => false,
    }
}

/// What the detaching of an attachment brought about.
pub struct RemovedSession {
    /// The session that left the registry, because its last attachment was detached.
    pub session: Option<Session>,
    /// With render targets, where attachments remain: the displays to capture from now
    /// on, for the caller to ask of the transport.
    pub capture: Option<Vec<i32>>,
}

/// Detaches the attachment `id` from the first connection that holds it. A connection
/// that loses its last attachment leaves the registry, and its session is returned.
/// Where attachments remain and frames go to render targets, the displays that the
/// remaining attachments still use are returned, unless there is none.
pub fn remove_session_by_session_id(sessions: &mut Sessions, id: &SessionID) -> (r: RemovedSession)
    requires
        old(sessions).wf(),
    ensures
        final(sessions).wf(),
        final(sessions)@ == old(sessions)@.detach(*id),
        match old(sessions)@.owner(*id) {
            None => r.session is None && r.capture is None,
            Some(i) => {
                let s = old(sessions)@.sessions[old(sessions)@.keys[i]];
                let ui = s.ui.remove_handler(*id);
                if ui.ids.len() == 0 {
                    &&& r.session is Some
                    &&& r.session->0@ == (SessionView { ui, ..s })
                    &&& r.capture is None
                } else {
                    &&& r.session is None
                    &&& r.capture is Some == (old(sessions)@.texture_render
                        && ui.remaining_displays(None, *id).len() > 0)
                    &&& r.capture is Some ==> r.capture->0@ == ui.remaining_displays(
                        None,
                        *id,
                    ).map_values(|d: usize| d as i32)
                }
            },
        },
{
    proof {
        sessions.map.lemma_dom();
    }
    match sessions.find_owner(*id) {
        None => RemovedSession { session: None, capture: None },
        Some(i) => {
            let ghost k = sessions.map.keys()[i as int];
            let ghost s0 = sessions.map@[k];
            let texture_render = sessions.texture_render;
            let s = sessions.map.value_at_mut(i);
            let h = s.ui_handler_mut();
            h.remove_handler(*id);
            let left = h.handler_count();
            let capture = if left != 0 && texture_render {
                check_remove_unused_displays(None, id, h)
            } else {
                None
            };
            if left == 0 {
                let removed = sessions.map.remove_at(i);
                proof {
                    assert(sessions@.sessions =~= old(sessions)@.detach(*id).sessions);
                }
                RemovedSession { session: Some(removed.1), capture: None }
            } else {
                proof {
                    assert(sessions@.sessions =~= old(sessions)@.detach(*id).sessions);
                }
                RemovedSession { session: None, capture }
            }
        },
    }
}

impl SessionsView {
    /// Why the attachment `session_id` cannot be added for a connection of kind
    /// `conn_type`, if it cannot: a session holds the id already, of another kind of
    /// connection or of this one.
    pub open spec fn add_error(self, session_id: SessionID, conn_type: ConnType) -> Option<
        SessionErrorView,
    > {
        match self.owner(session_id) {
            None => None,
            Some(i) => if self.sessions[self.keys[i]].conn_type != conn_type {
                Some(SessionErrorView::SameSessionIdDifferentConnType)
            } else {
                Some(SessionErrorView::SameSessionId)
            },
        }
    }

    /// The session that a request makes in this registry.
    pub open spec fn fresh_session(
        self,
        id: Seq<char>,
        conn_type: ConnType,
        switch_uuid: Seq<char>,
        force_relay: bool,
        password: Seq<char>,
    ) -> SessionView {
        SessionView::fresh(
            id,
            conn_type,
            switch_uuid,
            force_relay,
            password,
            self.texture_render,
            self.has_callback,
        )
    }

    /// Whether the start of the attachment `id` starts the transport loop of the
    /// connection at position `i`: it does where the attachment had no sink and is the
    /// connection's only one.
    pub open spec fn starts_transport(self, i: int, id: SessionID) -> bool {
        let s = self.sessions[self.keys[i]];
        s.ui.handlers[id].event_stream is None && s.ui.ids.len() == 1
    }

    /// The registry after the attachment `id` of the connection at position `i` got the
    /// sink `sink`.
    pub open spec fn started(self, i: int, id: SessionID, sink: SinkId) -> SessionsView {
        let key = self.keys[i];
        let s = self.sessions[key];
        self.with_session(
            key,
            SessionView {
                round: if self.starts_transport(i, id) {
                    s.next_round()
                } else {
                    s.round
                },
                ui: s.ui.with_handler(
                    id,
                    HandlerView { event_stream: Some(sink), ..s.ui.handlers[id] },
                ),
                ..s
            },
        )
    }
}

/// What the start of a session brought about.
#[derive(Debug, PartialEq, Eq)]
pub struct SessionStart {
    /// The terminal notice for the sink that was replaced, for the caller to send.
    pub closed: Option<Delivery>,
    /// The number of the transport loop to start, where one is to be started.
    pub spawn_round: Option<u64>,
}

/// Adds a session for the peer `id` with the attachment `session_id`.
///
/// It fails where a session holds `session_id` already, and then changes nothing. Else
/// the connection of the peer and of the kind that the flags ask for gets the
/// attachment: a connection that is not yet registered is registered with a session
/// made of the other arguments. The connection's key is returned.
pub fn session_add(
    sessions: &mut Sessions,
    session_id: &SessionID,
    id: &str,
    is_file_transfer: bool,
    is_port_forward: bool,
    is_rdp: bool,
    switch_uuid: &str,
    force_relay: bool,
    password: String,
) -> (r: Result<PeerKey, SessionError>)
    requires
        old(sessions).wf(),
    ensures
        final(sessions).wf(),
        ({
            let conn_type = requested_conn_type(is_file_transfer, is_port_forward, is_rdp);
            match old(sessions)@.add_error(*session_id, conn_type) {
                Some(e) => r is Err && r->Err_0@ == e && final(sessions)@ == old(sessions)@,
                None => {
                    &&& r is Ok
                    &&& r->Ok_0@ == (id@, conn_type)
                    &&& final(sessions)@ == old(sessions)@.insert_session(
                        *session_id,
                        conn_type,
                        old(sessions)@.fresh_session(
                            id@,
                            conn_type,
                            switch_uuid@,
                            force_relay,
                            password@,
                        ),
                    )
                },
            }
        }),
{
    let conn_type = conn_type_of(is_file_transfer, is_port_forward, is_rdp);
    if let Some(session) = get_session_by_session_id(sessions, session_id) {
        if session.conn_type() != conn_type {
            return Err(SessionError::SameSessionIdDifferentConnType);
        }
        return Err(SessionError::SameSessionId);
    }
    let session = Session::new(
        id,
        conn_type,
        switch_uuid,
        force_relay,
        password,
        sessions.texture_render,
        sessions.on_rgba_func,
    );
    insert_session(sessions, *session_id, conn_type, session);
    Ok(PeerKey::new(id, conn_type))
}

/// Starts the attachment `session_id` with the sink `event_stream`.
///
/// It fails where no session holds the attachment, naming the peer `id` and the
/// attachment. Else the attachment of the first connection that holds it gets the
/// sink; the sink that it replaces is owed the terminal notice, which is returned. The
/// transport loop is to be started, with the connection's next round number, where the
/// attachment had no sink and is the only one of its connection.
pub fn session_start_(
    sessions: &mut Sessions,
    session_id: &SessionID,
    id: &str,
    event_stream: SinkId,
) -> (r: Result<SessionStart, SessionError>)
    requires
        old(sessions).wf(),
    ensures
        final(sessions).wf(),
        match old(sessions)@.owner(*session_id) {
            None => {
                &&& r is Err
                &&& r->Err_0@ == (SessionErrorView::NoSession {
                    peer_id: id@,
                    session_id: *session_id,
                })
                &&& final(sessions)@ == old(sessions)@
            },
            Some(i) => {
                let s = old(sessions)@.sessions[old(sessions)@.keys[i]];
                &&& r is Ok
                &&& delivery_view(r->Ok_0.closed) == s.ui.handlers[*session_id].notice(
                    close_event(),
                )
                &&& r->Ok_0.spawn_round == if old(sessions)@.starts_transport(i, *session_id) {
                    Some(s.next_round())
                } else {
                    None
                }
                &&& final(sessions)@ == old(sessions)@.started(i, *session_id, event_stream)
            },
        },
{
    proof {
        sessions.map.lemma_dom();
    }
    match sessions.find_owner(*session_id) {
        None => Err(SessionError::NoSession { peer_id: id.to_owned(), session_id: *session_id }),
        Some(i) => {
            let ghost k = sessions.map.keys()[i as int];
            let ghost s0 = sessions.map@[k];
            proof {
                s0.lemma_view_wf();
            }
            let s = sessions.map.value_at_mut(i);
            let h = s.ui_handler_mut();
            let is_first_ui_session = h.handler_count() == 1;
            let started = match h.start_stream(*session_id, event_stream) {
                Some(started) => started,
                None => {
                    return Err(
                        SessionError::NoSession {
                            peer_id: id.to_owned(),
                            session_id: *session_id,
                        },
                    );
                },
            };
            let spawn_round = if !started.was_connected && is_first_ui_session {
                Some(s.new_round())
            } else {
                None
            };
            proof {
                assert(s0@.ui.with_handler(
                    *session_id,
                    HandlerView { event_stream: Some(event_stream), ..s0@.ui.handlers[*session_id] },
                ).ids.len() > 0);
                assert(sessions@.sessions =~= old(sessions)@.started(
                    i as int,
                    *session_id,
                    event_stream,
                ).sessions);
            }
            Ok(SessionStart { closed: started.closed, spawn_round })
        },
    }
}

impl SessionsView {
    /// The registry with the UI side of the first connection that holds the attachment
    /// `id` replaced by what `f` makes of it; unchanged where no connection holds it.
    pub open spec fn update_owner_ui(
        self,
        id: SessionID,
        f: spec_fn(FlutterHandlerView) -> FlutterHandlerView,
    ) -> SessionsView {
        match self.owner(id) {
            None => self,
            Some(i) => {
                let key = self.keys[i];
                let s = self.sessions[key];
                self.with_session(key, SessionView { ui: f(s.ui), ..s })
            },
        }
    }

    /// The UI side of the first connection that holds the attachment `id`.
    pub open spec fn owner_ui(self, id: SessionID) -> Option<FlutterHandlerView> {
        match self.owner(id) {
            None => None,
            Some(i) => Some(self.sessions[self.keys[i]].ui),
        }
    }
}

/// Sets the size of `display` at the attachment `session_id` of the first connection
/// that holds it, and arms one more notice that a frame is ready. With owned buffers,
/// or without such an attachment, nothing changes.
pub fn session_set_size(
    sessions: &mut Sessions,
    session_id: SessionID,
    display: usize,
    width: usize,
    height: usize,
)
    requires
        old(sessions).wf(),
    ensures
        final(sessions).wf(),
        final(sessions)@ == if old(sessions)@.texture_render {
            old(sessions)@.update_owner_ui(
                session_id,
                |ui: FlutterHandlerView|
                    ui.with_handler(
                        session_id,
                        ui.handlers[session_id].set_size(display, width, height),
                    ),
            )
        } else {
            old(sessions)@
        },
{
    if !sessions.texture_render {
        return ;
    }
    proof {
        sessions.map.lemma_dom();
    }
    if let Some(i) = sessions.find_owner(session_id) {
        let s = sessions.map.value_at_mut(i);
        let h = s.ui_handler_mut();
        h.set_size(session_id, display, width, height);
        proof {
            assert(sessions@.sessions =~= old(sessions)@.update_owner_ui(
                session_id,
                |ui: FlutterHandlerView|
                    ui.with_handler(
                        session_id,
                        ui.handlers[session_id].set_size(display, width, height),
                    ),
            ).sessions);
        }
    }
}

/// Registers `ptr` as the render target of `display` at the attachment `session_id`
/// of the first connection that holds it, and arms one more notice that a frame is
/// ready; 0 takes the target away and arms nothing. Returns whether another target,
/// not 0, was replaced, which the caller reports. With owned buffers, or without such
/// an attachment, nothing changes.
pub fn session_register_texture(
    sessions: &mut Sessions,
    session_id: SessionID,
    display: usize,
    ptr: usize,
) -> (violation: bool)
    requires
        old(sessions).wf(),
    ensures
        final(sessions).wf(),
        final(sessions)@ == if old(sessions)@.texture_render {
            old(sessions)@.update_owner_ui(
                session_id,
                |ui: FlutterHandlerView|
                    ui.with_handler(
                        session_id,
                        ui.handlers[session_id].register_texture(display, ptr),
                    ),
            )
        } else {
            old(sessions)@
        },
        violation == (old(sessions)@.texture_render && old(sessions)@.owner_ui(session_id) is Some
            && old(sessions)@.owner_ui(session_id)->0.handlers[session_id].renderer.registers_over(
            display,
            ptr,
        )),
{
    if !sessions.texture_render {
        return false;
    }
    proof {
        sessions.map.lemma_dom();
    }
    match sessions.find_owner(session_id) {
        Some(i) => {
            let s = sessions.map.value_at_mut(i);
            let h = s.ui_handler_mut();
            let r = h.register_texture(session_id, display, ptr);
            proof {
                assert(sessions@.sessions =~= old(sessions)@.update_owner_ui(
                    session_id,
                    |ui: FlutterHandlerView|
                        ui.with_handler(
                            session_id,
                            ui.handlers[session_id].register_texture(display, ptr),
                        ),
                ).sessions);
            }
            match r {
                Some(violation) => violation,
                None => false,
            }
        },
        None => false,
    }
}

/// The length of the buffer that the first connection holding the attachment
/// `session_id` has for `display`; 0 with render targets, without such a connection
/// and without a buffer.
pub fn session_get_rgba_size(sessions: &Sessions, session_id: SessionID, display: usize) -> (n:
    usize)
    requires
        sessions.wf(),
    ensures
        n == match sessions@.owner_ui(session_id) {
            Some(ui) => if !sessions@.texture_render && ui.rgbas.dom().contains(display) {
                ui.rgbas[display].data.len()
            } else {
                0
            },
            None => 0,
        },
{
    if sessions.texture_render {
        return 0;
    }
    match get_session_by_session_id(sessions, &session_id) {
        Some(s) => s.ui_handler().rgba_size(display),
        None => 0,
    }
}

/// The frame that the consumer may read for `display`, at the first connection that
/// holds the attachment `session_id`.
pub fn session_get_rgba<'a>(sessions: &'a Sessions, session_id: SessionID, display: usize) -> (r:
    Option<&'a Vec<u8>>)
    requires
        sessions.wf(),
    ensures
        match r {
            Some(data) => sessions@.owner_ui(session_id) is Some && sessions@.owner_ui(
                session_id,
            )->0.get_rgba(display) == Some(data@),
            None => sessions@.owner_ui(session_id) is None || sessions@.owner_ui(
                session_id,
            )->0.get_rgba(display) is None,
        },
{
    match get_session_by_session_id(sessions, &session_id) {
        Some(s) => s.ui_handler().get_rgba(display),
        None => None,
    }
}

/// Releases the frame of `display` at the first connection that holds the attachment
/// `session_id`.
pub fn session_next_rgba(sessions: &mut Sessions, session_id: SessionID, display: usize)
    requires
        old(sessions).wf(),
    ensures
        final(sessions).wf(),
        final(sessions)@ == old(sessions)@.update_owner_ui(
            session_id,
            |ui: FlutterHandlerView| ui.next_rgba(display),
        ),
{
    proof {
        sessions.map.lemma_dom();
    }
    if let Some(i) = sessions.find_owner(session_id) {
        let s = sessions.map.value_at_mut(i);
        let h = s.ui_handler_mut();
        h.next_rgba(display);
        proof {
            assert(sessions@.sessions =~= old(sessions)@.update_owner_ui(
                session_id,
                |ui: FlutterHandlerView| ui.next_rgba(display),
            ).sessions);
        }
    }
}

/// The keys of the registered connections, in the order of their registration.
pub fn get_sessions(sessions: &Sessions) -> (keys: Vec<PeerKey>)
    ensures
        keys@.map_values(|k: PeerKey| k@) == sessions@.keys,
{
    let mut out: Vec<PeerKey> = Vec::new();
    let n = sessions.map.len();
    let mut i: usize = 0;
    while i < n
        invariant
            n == sessions@.keys.len(),
            i <= n,
            out@.map_values(|k: PeerKey| k@) == sessions@.keys.take(i as int),
        decreases n - i,
    {
        let k = sessions.map.key_at(i);
        let ghost before = out@;
        let copy = PeerKey { peer_id: k.peer_id.clone(), conn_type: k.conn_type };
        assert(copy@ == sessions@.keys[i as int]);
        out.push(copy);
        assert(out@.map_values(|k: PeerKey| k@) =~= before.map_values(|k: PeerKey| k@).push(
            copy@,
        ));
        assert(out@.map_values(|k: PeerKey| k@) =~= sessions@.keys.take(i + 1));
        i += 1;
    }
    proof {
        crate::seq_util::lemma_take_all(sessions@.keys);
    }
    out
}

/// The attachment that the user works in.
pub fn get_cur_session_id(sessions: &Sessions) -> (id: SessionID)
    ensures
        id == sessions@.cur_session_id,
{
    sessions.cur_session_id
}

/// Notes the attachment that the user works in.
pub fn set_cur_session_id(sessions: &mut Sessions, session_id: SessionID)
    ensures
        final(sessions)@ == (SessionsView { cur_session_id: session_id, ..old(sessions)@ }),
        final(sessions).wf() == old(sessions).wf(),
{
    if sessions.cur_session_id != session_id {
        sessions.cur_session_id = session_id;
    }
}

/// The peer of the first default connection that holds the attachment that the user
/// works in; the empty text where there is none.
pub fn get_cur_peer_id(sessions: &Sessions) -> (peer_id: String)
    requires
        sessions.wf(),
    ensures
        (exists|i: int|
            sessions@.is_owner_of_kind(i, sessions@.cur_session_id, ConnType::DEFAULT_CONN)
                && peer_id@ == #[trigger] sessions@.keys[i].0) || (peer_id@ == ""@ && forall|
            i: int,
        |
            !sessions@.is_owner_of_kind(i, sessions@.cur_session_id, ConnType::DEFAULT_CONN)),
{
    let id = sessions.cur_session_id;
    match get_peer_id_by_session_id(sessions, &id, ConnType::DEFAULT_CONN) {
        Some(peer_id) => peer_id,
        None => "".to_owned(),
    }
}

/// The session of the first connection that holds the attachment that the user works
/// in.
pub fn get_cur_session(sessions: &Sessions) -> (r: Option<&Session>)
    requires
        sessions.wf(),
    ensures
        r is Some == sessions@.owner(sessions@.cur_session_id) is Some,
        r is Some ==> r->0@ == sessions@.sessions[sessions@.keys[sessions@.owner(
            sessions@.cur_session_id,
        )->0]] && r->0.wf(),
{
    let id = sessions.cur_session_id;
    get_session_by_session_id(sessions, &id)
}

/// Pushes the event `name` with the fields `event` to every attachment, with a sink,
/// of the first connection that holds the attachment `session_id`: the deliveries for
/// the caller to send. Without such a connection there is none.
pub fn push_session_event(
    sessions: &Sessions,
    session_id: &SessionID,
    name: &str,
    event: Vec<(&str, &str)>,
) -> (out: Vec<Delivery>)
    requires
        sessions.wf(),
    ensures
        deliveries_view(out@) == match sessions@.owner_ui(*session_id) {
            Some(ui) => ui.notices(EventView::Event(event_text(name@, pairs_view(event@)))),
            None => Seq::empty(),
        },
{
    match get_session_by_session_id(sessions, session_id) {
        Some(s) => s.ui_handler().push_event(name, event),
        None => {
            let out: Vec<Delivery> = Vec::new();
            assert(deliveries_view(out@) =~= Seq::empty());
            out
        },
    }
}

/// What the transport is asked to do.
#[derive(Debug, PartialEq, Eq)]
pub enum SessionCommand {
    /// Show this display.
    SwitchDisplay(i32),
    /// Capture exactly these displays.
    CaptureDisplays(Vec<i32>),
}

/// The mathematical value of a [`SessionCommand`].
pub enum CommandView {
    SwitchDisplay(i32),
    CaptureDisplays(Seq<i32>),
}

impl View for SessionCommand {
    type V = CommandView;

    open spec fn view(&self) -> CommandView {
        match self {
            SessionCommand::SwitchDisplay(d) => CommandView::SwitchDisplay(*d),
            SessionCommand::CaptureDisplays(set) => CommandView::CaptureDisplays(set@),
        }
    }
}

/// The views of a sequence of commands.
pub open spec fn commands_view(s: Seq<SessionCommand>) -> Seq<CommandView> {
    s.map_values(|c: SessionCommand| c@)
}

impl SessionsView {
    /// What the transport is asked to do when the attachment `id` chooses the displays
    /// `value`.
    ///
    /// One display is switched to. Away from the desktop it alone is captured from then
    /// on; on the desktop, with render targets, the capture goes on for it and for the
    /// displays that other attachments of the connection use. Several displays, or
    /// none, are captured as they are given.
    pub open spec fn switch_display_commands(
        self,
        is_desktop: bool,
        id: SessionID,
        value: Seq<i32>,
    ) -> Seq<CommandView> {
        match self.owner_ui(id) {
            None => Seq::empty(),
            Some(ui) => if value.len() == 1 {
                let switch = seq![CommandView::SwitchDisplay(value[0])];
                if !is_desktop {
                    switch.push(CommandView::CaptureDisplays(value))
                } else if self.texture_render {
                    switch.push(
                        CommandView::CaptureDisplays(
                            ui.remaining_displays(Some(value[0] as usize), id).map_values(
                                |d: usize| d as i32,
                            ),
                        ),
                    )
                } else {
                    switch
                }
            } else {
                seq![CommandView::CaptureDisplays(value)]
            },
        }
    }
}

/// Decides what the transport is asked to do when the attachment `session_id` chooses
/// the displays `value`, at the first connection that holds the attachment.
pub fn session_switch_display(
    sessions: &Sessions,
    is_desktop: bool,
    session_id: SessionID,
    value: Vec<i32>,
) -> (out: Vec<SessionCommand>)
    requires
        sessions.wf(),
    ensures
        commands_view(out@) == sessions@.switch_display_commands(is_desktop, session_id, value@),
{
    let mut out: Vec<SessionCommand> = Vec::new();
    let s = match get_session_by_session_id(sessions, &session_id) {
        Some(s) => s,
        None => {
            assert(commands_view(out@) =~= Seq::empty());
            return out;
        },
    };
    if value.len() == 1 {
        let display: i32 = value[0];
        out.push(SessionCommand::SwitchDisplay(display));
        if !is_desktop {
            out.push(SessionCommand::CaptureDisplays(value));
        } else if sessions.texture_render {
            let current = #[verifier::truncate] (display as usize);
            match check_remove_unused_displays(Some(current), &session_id, s.ui_handler()) {
                Some(set) => {
                    out.push(SessionCommand::CaptureDisplays(set));
                },
                None => {
                    proof {
                        // the current display always remains
                        crate::display_laws::lemma_remaining_displays(
                            s@.ui,
                            Some(current),
                            session_id,
                        );
                        assert(s@.ui.remaining_displays(Some(current), session_id).contains(
                            current,
                        ));
                    }
                },
            }
        }
    } else {
        out.push(SessionCommand::CaptureDisplays(value));
    }
    assert(commands_view(out@) =~= sessions@.switch_display_commands(
        is_desktop,
        session_id,
        value@,
    ));
    out
}

impl SessionsView {
    /// The registry with one more notice armed at the attachment `id` of every
    /// connection that holds it.
    pub open spec fn rearmed(self, id: SessionID) -> SessionsView {
        SessionsView {
            sessions: self.sessions.map_values(
                |s: SessionView|
                    if s.ui.handlers.dom().contains(id) {
                        SessionView {
                            ui: s.ui.with_handler(
                                id,
                                HandlerView { notify_rendered: false, ..s.ui.handlers[id] },
                            ),
                            ..s
                        }
                    } else {
                        s
                    },
            ),
            ..self
        }
    }
}

/// Arms one more notice that a frame is ready at the attachment `session_id` of every
/// connection that holds it.
pub fn session_on_waiting_for_image_dialog_show(sessions: &mut Sessions, session_id: SessionID)
    requires
        old(sessions).wf(),
    ensures
        final(sessions).wf(),
        final(sessions)@ == old(sessions)@.rearmed(session_id),
{
    let n = sessions.map.len();
    let ghost m0 = sessions.map@;
    let ghost keys = sessions.map.keys();
    let ghost upd = |s: SessionView|
        if s.ui.handlers.dom().contains(session_id) {
            SessionView {
                ui: s.ui.with_handler(
                    session_id,
                    HandlerView { notify_rendered: false, ..s.ui.handlers[session_id] },
                ),
                ..s
            }
        } else {
            s
        };
    let mut i: usize = 0;
    proof {
        sessions.map.lemma_dom();
        sessions.map.lemma_keys();
    }
    while i < n
        invariant
            sessions.map.wf(),
            sessions.texture_render == old(sessions).texture_render,
            sessions.on_rgba_func == old(sessions).on_rgba_func,
            sessions.cur_session_id == old(sessions).cur_session_id,
            old(sessions).wf(),
            m0 == old(sessions).map@,
            keys == sessions.map.keys(),
            keys == old(sessions).map.keys(),
            keys.no_duplicates(),
            n == keys.len(),
            i <= n,
            sessions.map@.dom() == m0.dom(),
            forall|k: PeerKeyView| m0.dom().contains(k) <==> keys.contains(k),
            forall|k: PeerKeyView| m0.dom().contains(k) ==> (#[trigger] sessions.map@[k]).wf(),
            forall|k: PeerKeyView|
                m0.dom().contains(k) ==> (#[trigger] sessions.map@[k])@.ui.ids.len() > 0,
            upd == |s: SessionView|
                if s.ui.handlers.dom().contains(session_id) {
                    SessionView {
                        ui: s.ui.with_handler(
                            session_id,
                            HandlerView { notify_rendered: false, ..s.ui.handlers[session_id] },
                        ),
                        ..s
                    }
                } else {
                    s
                },
            forall|j: int| 0 <= j < i ==> (#[trigger] sessions.map@[keys[j]])@ == upd(m0[keys[j]]@),
            forall|j: int| i <= j < n ==> (#[trigger] sessions.map@[keys[j]]) == m0[keys[j]],
        decreases n - i,
    {
        let ghost k = keys[i as int];
        proof {
            sessions.map.lemma_dom();
            assert(keys.contains(k));
            assert(sessions.map@[k] == m0[k]);
        }
        let s = sessions.map.value_at_mut(i);
        let h = s.ui_handler_mut();
        h.on_waiting_for_image_dialog_show(session_id);
        proof {
            assert forall|j: int| 0 <= j < n && j != i implies keys[j] != k by {}
            assert(sessions.map@[k]@ == upd(m0[k]@));
        }
        i += 1;
    }
    proof {
        assert(sessions@.sessions =~= old(sessions)@.rearmed(session_id).sessions) by {
            assert forall|k: PeerKeyView| m0.dom().contains(k) implies (
            #[trigger] sessions.map@[k])@ == upd(m0[k]@) by {
                let j = keys.index_of(k);
                assert(keys[j] == k);
            }
        }
    }
}

impl SessionsView {
    /// Whether the connection at position `i` takes part in the exchange of clipboard
    /// texts.
    pub open spec fn clipboard_at(self, i: int) -> bool {
        self.sessions[self.keys[i]].is_text_clipboard_required()
    }

    /// The connections that take part in the exchange of clipboard texts, in the
    /// order of their registration.
    pub open spec fn clipboard_keys(self) -> Seq<PeerKeyView> {
        self.keys.filter(|k: PeerKeyView| self.sessions[k].is_text_clipboard_required())
    }
}

/// Whether any session takes part in the exchange of clipboard texts: what the caller
/// tells the clipboard service.
pub fn update_text_clipboard_required(sessions: &Sessions) -> (is_required: bool)
    requires
        sessions.wf(),
    ensures
        is_required == exists|i: int|
            0 <= i < sessions@.keys.len() && #[trigger] sessions@.clipboard_at(i),
{
    let n = sessions.map.len();
    let mut i: usize = 0;
    while i < n
        invariant
            sessions.wf(),
            n == sessions@.keys.len(),
            i <= n,
            forall|j: int| 0 <= j < i ==> !sessions@.clipboard_at(j),
        decreases n - i,
    {
        if sessions.session_at(i).is_text_clipboard_required() {
            assert(sessions@.clipboard_at(i as int));
            return true;
        }
        i += 1;
    }
    false
}

/// The connections to which a clipboard text is to be sent: those that take part in
/// the exchange, in the order of their registration.
pub fn send_text_clipboard_msg(sessions: &Sessions) -> (keys: Vec<PeerKey>)
    requires
        sessions.wf(),
    ensures
        keys@.map_values(|k: PeerKey| k@) == sessions@.clipboard_keys(),
{
    let mut out: Vec<PeerKey> = Vec::new();
    let n = sessions.map.len();
    let ghost p = |k: PeerKeyView| sessions@.sessions[k].is_text_clipboard_required();
    let mut i: usize = 0;
    proof {
        reveal(Seq::filter);
        assert(sessions@.keys.take(0) =~= Seq::empty());
        assert(out@.map_values(|k: PeerKey| k@) =~= sessions@.keys.take(0).filter(p));
    }
    while i < n
        invariant
            sessions.wf(),
            n == sessions@.keys.len(),
            i <= n,
            p == |k: PeerKeyView| sessions@.sessions[k].is_text_clipboard_required(),
            out@.map_values(|k: PeerKey| k@) == sessions@.keys.take(i as int).filter(p),
        decreases n - i,
    {
        let ghost t = sessions@.keys.take(i + 1);
        proof {
            assert(t.drop_last() =~= sessions@.keys.take(i as int));
            assert(t.last() == sessions@.keys[i as int]);
            assert(t.len() > 0);
            reveal(Seq::filter);
            assert(t.filter(p) == if p(t.last()) {
                t.drop_last().filter(p).push(t.last())
            } else {
                t.drop_last().filter(p)
            });
        }
        if sessions.session_at(i).is_text_clipboard_required() {
            let k = sessions.map.key_at(i);
            let ghost before = out@;
            let copy = PeerKey { peer_id: k.peer_id.clone(), conn_type: k.conn_type };
            assert(copy@ == sessions@.keys[i as int]);
            out.push(copy);
            assert(out@.map_values(|k: PeerKey| k@) =~= before.map_values(|k: PeerKey| k@).push(
                copy@,
            ));
            assert(p(t.last()));
        } else {
            assert(!p(t.last()));
        }
        i += 1;
    }
    proof {
        crate::seq_util::lemma_take_all(sessions@.keys);
    }
    out
}

/// The session of the connection of `peer_id` and `conn_type`, to be changed in place.
/// The registry stays well-formed as long as the session does and keeps an attachment.
pub fn get_session_mut_by_peer_id(
    sessions: &mut Sessions,
    peer_id: String,
    conn_type: ConnType,
) -> (r: Option<&mut Session>)
    requires
        old(sessions).wf(),
    ensures
        r is Some == old(sessions)@.registered((peer_id@, conn_type)),
        r is None ==> final(sessions)@ == old(sessions)@ && final(sessions).wf(),
        r is Some ==> r->0@ == old(sessions)@.sessions[(peer_id@, conn_type)] && r->0.wf(),
        r is Some ==> final(sessions)@.sessions =~= old(sessions)@.sessions.insert(
            (peer_id@, conn_type),
            final(r->0)@,
        ),
        r is Some ==> final(sessions)@.keys == old(sessions)@.keys,
        r is Some ==> final(sessions)@.texture_render == old(sessions)@.texture_render,
        r is Some ==> final(sessions)@.has_callback == old(sessions)@.has_callback,
        r is Some ==> final(sessions)@.cur_session_id == old(sessions)@.cur_session_id,
        r is Some && final(r->0).wf() && final(r->0)@.ui.ids.len() > 0 ==> final(sessions).wf(),
{
    proof {
        sessions.map.lemma_dom();
    }
    let key = PeerKey { peer_id, conn_type };
    match sessions.map.position(&key) {
        Some(i) => Some(sessions.map.value_at_mut(i)),
        None => None,
    }
}

/// Lets the attachment `session_id` join the default connection of `peer_id`. Where
/// that connection is not registered, it fails, naming the peer and the attachment,
/// and nothing changes.
pub fn session_add_existed(sessions: &mut Sessions, peer_id: String, session_id: SessionID) -> (r:
    Result<(), SessionError>)
    requires
        old(sessions).wf(),
    ensures
        final(sessions).wf(),
        old(sessions)@.registered((peer_id@, ConnType::DEFAULT_CONN)) ==> r is Ok
            && final(sessions)@ == old(sessions)@.insert_peer_session_id(
            (peer_id@, ConnType::DEFAULT_CONN),
            session_id,
        ),
        !old(sessions)@.registered((peer_id@, ConnType::DEFAULT_CONN)) ==> r is Err
            && r->Err_0@ == (SessionErrorView::NoSession { peer_id: peer_id@, session_id })
            && final(sessions)@ == old(sessions)@,
{
    let name = peer_id.clone();
    if insert_peer_session_id(sessions, peer_id, ConnType::DEFAULT_CONN, session_id) {
        Ok(())
    } else {
        Err(SessionError::NoSession { peer_id: name, session_id })
    }
}

} // verus!
