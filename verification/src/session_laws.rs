use vstd::prelude::*;
use crate::handler::{FlutterHandlerView, HandlerView};
use crate::seq_util::{
    lemma_push_no_duplicates, lemma_remove_no_duplicates, lemma_remove_value_no_duplicates,
};
use crate::session::SessionView;
use crate::sessions::{PeerKeyView, SessionsView};
use crate::types::{ConnType, SessionID, SinkId};

verus! {

/// Putting an attachment in and taking one out leave the UI side of a connection
/// well-formed; afterwards the attachment is there, or is not.
pub proof fn lemma_attachments_keep_wf(v: FlutterHandlerView, id: SessionID, multi_display: bool)
    requires
        v.wf(),
    ensures
        v.insert_handler(id, multi_display).wf(),
        v.insert_handler(id, multi_display).handlers.dom().contains(id),
        v.insert_handler(id, multi_display).ids.len() > 0,
        v.remove_handler(id).wf(),
        !v.remove_handler(id).handlers.dom().contains(id),
        v.handlers.dom().contains(id) ==> v.remove_handler(id).ids.len() == v.ids.len() - 1,
        !v.handlers.dom().contains(id) ==> v.remove_handler(id) == v,
{
    let a = v.insert_handler(id, multi_display);
    let r = v.remove_handler(id);
    let fresh = HandlerView::fresh(v.has_callback, multi_display);
    assert(fresh.renderer.wf()) by {
        assert(fresh.renderer.displays =~= Seq::<usize>::empty());
    }
    if !v.handlers.dom().contains(id) {
        assert(!v.ids.contains(id));
        lemma_push_no_duplicates(v.ids, id);
        assert(r.handlers =~= v.handlers);
    } else {
        assert(v.ids.contains(id));
    }
    lemma_remove_value_no_duplicates(v.ids, id);
    assert(a.ids.contains(id));
    assert(a.wf()) by {
        assert(a.ids.no_duplicates());
        assert forall|x: SessionID| a.handlers.dom().contains(x) <==> a.ids.contains(x) by {
            assert(v.handlers.dom().contains(x) <==> v.ids.contains(x));
            if !v.handlers.dom().contains(id) {
                assert(v.ids.push(id).contains(x) <==> (v.ids.contains(x) || x == id));
            }
        }
        assert forall|x: SessionID| a.handlers.dom().contains(x) implies (
        #[trigger] a.handlers[x]).renderer.wf() by {
            if x != id {
                assert(v.handlers.dom().contains(x));
                assert(a.handlers[x] == v.handlers[x]);
            }
        }
    }
    assert(r.wf()) by {
        assert(r.ids.no_duplicates());
        assert forall|x: SessionID| r.handlers.dom().contains(x) <==> r.ids.contains(x) by {
            assert(v.handlers.dom().contains(x) <==> v.ids.contains(x));
            assert(v.ids.remove_value(id).contains(x) <==> (v.ids.contains(x) && x != id));
        }
        assert forall|x: SessionID| r.handlers.dom().contains(x) implies (
        #[trigger] r.handlers[x]).renderer.wf() by {
            assert(v.handlers.dom().contains(x));
            assert(r.handlers[x] == v.handlers[x]);
        }
    }
}

/// Giving an attachment a new state leaves the UI side well-formed, where the
/// attachment is there and its new render targets are well-formed.
pub proof fn lemma_with_handler_keeps_wf(v: FlutterHandlerView, id: SessionID, h: HandlerView)
    requires
        v.wf(),
        v.handlers.dom().contains(id),
        h.renderer.wf(),
    ensures
        v.with_handler(id, h).wf(),
        v.with_handler(id, h).ids == v.ids,
{
}

/// A connection is registered exactly while it has an attachment.
pub proof fn lemma_registered_iff_attached(v: SessionsView, key: PeerKeyView)
    requires
        v.wf(),
    ensures
        v.registered(key) <==> v.session_count(key) > 0,
{
}

/// Adding a session, attaching, detaching and starting leave a well-formed registry
/// well-formed.
pub proof fn lemma_registry_keeps_wf(
    v: SessionsView,
    session_id: SessionID,
    conn_type: ConnType,
    session: SessionView,
    key: PeerKeyView,
    sink: SinkId,
)
    requires
        v.wf(),
        session.ui.wf(),
    ensures
        v.insert_session(session_id, conn_type, session).wf(),
        v.insert_peer_session_id(key, session_id).wf(),
        v.detach(session_id).wf(),
        v.owner(session_id) is Some ==> v.started(v.owner(session_id)->0, session_id, sink).wf(),
{
    lemma_insert_session_wf(v, session_id, conn_type, session);
    lemma_attach_wf(v, key, session_id);
    lemma_detach_wf(v, session_id);
    if v.owner(session_id) is Some {
        let i = v.owner(session_id)->0;
        assert(v.is_owner(i, session_id));
        let k = v.keys[i];
        assert(v.keys.contains(k));
        let s = v.sessions[k];
        lemma_with_handler_keeps_wf(
            s.ui,
            session_id,
            HandlerView { event_stream: Some(sink), ..s.ui.handlers[session_id] },
        );
    }
}

proof fn lemma_insert_session_wf(
    v: SessionsView,
    session_id: SessionID,
    conn_type: ConnType,
    session: SessionView,
)
    requires
        v.wf(),
        session.ui.wf(),
    ensures
        v.insert_session(session_id, conn_type, session).wf(),
{
    let key = (session.peer_id, conn_type);
    let a = v.insert_session(session_id, conn_type, session);
    if v.registered(key) {
        lemma_attachments_keep_wf(v.sessions[key].ui, session_id, false);
        assert(v.keys.contains(key));
    } else {
        lemma_attachments_keep_wf(session.ui, session_id, false);
        assert(!v.keys.contains(key));
        lemma_push_no_duplicates(v.keys, key);
    }
    assert forall|k: PeerKeyView| a.sessions.dom().contains(k) <==> a.keys.contains(k) by {
        assert(v.sessions.dom().contains(k) <==> v.keys.contains(k));
        if !v.registered(key) {
            assert(v.keys.push(key).contains(k) <==> (v.keys.contains(k) || k == key));
        }
    }
    assert forall|k: PeerKeyView| a.sessions.dom().contains(k) implies (
    #[trigger] a.sessions[k]).ui.wf() && a.sessions[k].ui.ids.len() > 0 by {
        if k != key {
            assert(v.sessions.dom().contains(k));
            assert(a.sessions[k] == v.sessions[k]);
        }
    }
}

proof fn lemma_attach_wf(v: SessionsView, key: PeerKeyView, session_id: SessionID)
    requires
        v.wf(),
    ensures
        v.insert_peer_session_id(key, session_id).wf(),
{
    if v.registered(key) {
        let s = v.sessions[key];
        lemma_attachments_keep_wf(s.ui, session_id, s.ui.peer_multi_display);
    }
}

proof fn lemma_detach_wf(v: SessionsView, id: SessionID)
    requires
        v.wf(),
    ensures
        v.detach(id).wf(),
{
    if v.owner(id) is Some {
        let i = v.owner(id)->0;
        assert(v.is_owner(i, id));
        let key = v.keys[i];
        assert(v.keys.contains(key));
        lemma_attachments_keep_wf(v.sessions[key].ui, id, false);
        lemma_remove_no_duplicates(v.keys, i);
        let a = v.detach(id);
        assert forall|k: PeerKeyView| a.sessions.dom().contains(k) <==> a.keys.contains(k) by {
            assert(v.sessions.dom().contains(k) <==> v.keys.contains(k));
            assert(v.keys.remove(i).contains(k) <==> (v.keys.contains(k) && k != key));
        }
        assert forall|k: PeerKeyView| a.sessions.dom().contains(k) implies (
        #[trigger] a.sessions[k]).ui.wf() && a.sessions[k].ui.ids.len() > 0 by {
            if k != key {
                assert(v.sessions.dom().contains(k));
                assert(a.sessions[k] == v.sessions[k]);
            }
        }
    }
}

/// One step in the life of a registry.
pub enum SessionOp {
    /// A session is added with its first attachment.
    Add { session_id: SessionID, conn_type: ConnType, session: SessionView },
    /// An attachment joins a connection.
    Attach { key: PeerKeyView, session_id: SessionID },
    /// An attachment is detached.
    Detach { session_id: SessionID },
}

impl SessionsView {
    /// The registry after one step.
    pub open spec fn apply(self, op: SessionOp) -> SessionsView {
        match op {
            SessionOp::Add { session_id, conn_type, session } => self.insert_session(
                session_id,
                conn_type,
                session,
            ),
            SessionOp::Attach { key, session_id } => self.insert_peer_session_id(key, session_id),
            SessionOp::Detach { session_id } => self.detach(session_id),
        }
    }

    /// The registry after the steps `ops`, in order.
    pub open spec fn run(self, ops: Seq<SessionOp>) -> SessionsView
        decreases ops.len(),
    {
        if ops.len() == 0 {
            self
        } else {
            self.run(ops.drop_last()).apply(ops.last())
        }
    }
}

/// Whether the sessions that the steps add are well-formed.
pub open spec fn ops_wf(ops: Seq<SessionOp>) -> bool {
    forall|i: int|
        0 <= i < ops.len() ==> ((#[trigger] ops[i]) matches SessionOp::Add { session, .. }
            ==> session.ui.wf())
}

/// Whatever sessions are added and whatever attachments join and leave, in whatever
/// order: a connection is in the registry exactly while it has an attachment.
pub proof fn lemma_session_lives_with_its_attachments(
    v: SessionsView,
    ops: Seq<SessionOp>,
    key: PeerKeyView,
)
    requires
        v.wf(),
        ops_wf(ops),
    ensures
        v.run(ops).wf(),
        v.run(ops).registered(key) <==> v.run(ops).session_count(key) > 0,
    decreases ops.len(),
{
    if ops.len() > 0 {
        let before = ops.drop_last();
        assert forall|i: int| 0 <= i < before.len() implies ((#[trigger] before[i]) matches SessionOp::Add {
            session,
            ..
        } ==> session.ui.wf()) by {
            assert(before[i] == ops[i]);
        }
        lemma_session_lives_with_its_attachments(v, before, key);
        let w = v.run(before);
        let op = ops.last();
        assert(op == ops[ops.len() - 1]);
        match op {
            SessionOp::Add { session_id, conn_type, session } => {
                lemma_insert_session_wf(w, session_id, conn_type, session);
            },
            SessionOp::Attach { key, session_id } => {
                lemma_attach_wf(w, key, session_id);
            },
            SessionOp::Detach { session_id } => {
                lemma_detach_wf(w, session_id);
            },
        }
    }
}

/// Detaching the only attachment of a connection takes the connection out of the
/// registry; detaching one of several leaves it there with the others.
pub proof fn lemma_last_detach_removes_session(v: SessionsView, id: SessionID)
    requires
        v.wf(),
        v.owner(id) is Some,
    ensures
        ({
            let key = v.keys[v.owner(id)->0];
            &&& v.registered(key)
            &&& v.sessions[key].ui.ids.len() == 1 ==> !v.detach(id).registered(key)
            &&& v.sessions[key].ui.ids.len() > 1 ==> v.detach(id).registered(key)
                && v.detach(id).session_count(key) == v.session_count(key) - 1
        }),
{
    let i = v.owner(id)->0;
    assert(v.is_owner(i, id));
    let key = v.keys[i];
    assert(v.keys.contains(key));
    lemma_attachments_keep_wf(v.sessions[key].ui, id, false);
    lemma_remove_no_duplicates(v.keys, i);
}

} // verus!
