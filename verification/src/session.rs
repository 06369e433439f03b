use vstd::prelude::*;
use crate::handler::{FlutterHandler, FlutterHandlerView};
use crate::ordered_map::MapKey;
use crate::types::ConnType;

verus! {

/// What identifies a peer connection: the peer and the kind of the connection.
#[derive(Debug, PartialEq, Eq)]
pub struct PeerKey {
    pub peer_id: String,
    pub conn_type: ConnType,
}

impl View for PeerKey {
    type V = (Seq<char>, ConnType);

    open spec fn view(&self) -> (Seq<char>, ConnType) {
        (self.peer_id@, self.conn_type)
    }
}

impl MapKey for PeerKey {
    fn same_key(&self, other: &Self) -> (b: bool) {
        self.peer_id == other.peer_id && self.conn_type == other.conn_type
    }
}

impl PeerKey {
    /// The key of the connection of kind `conn_type` to the peer `peer_id`.
    pub fn new(peer_id: &str, conn_type: ConnType) -> (k: Self)
        ensures
            k@ == (peer_id@, conn_type),
    {
        PeerKey { peer_id: peer_id.to_owned(), conn_type }
    }
}

/// The kind of connection that the three flags of a request ask for: a file transfer
/// before all, then a port forward, which is an RDP connection where `is_rdp` is set.
pub open spec fn requested_conn_type(
    is_file_transfer: bool,
    is_port_forward: bool,
    is_rdp: bool,
) -> ConnType {
    if is_file_transfer {
        ConnType::FILE_TRANSFER
    } else if is_port_forward {
        if is_rdp {
            ConnType::RDP
        } else {
            ConnType::PORT_FORWARD
        }
    } else {
        ConnType::DEFAULT_CONN
    }
}

/// The kind of connection that the three flags of a request ask for.
pub fn conn_type_of(is_file_transfer: bool, is_port_forward: bool, is_rdp: bool) -> (t: ConnType)
    ensures
        t == requested_conn_type(is_file_transfer, is_port_forward, is_rdp),
{
    if is_file_transfer {
        ConnType::FILE_TRANSFER
    } else if is_port_forward {
        if is_rdp {
            ConnType::RDP
        } else {
            ConnType::PORT_FORWARD
        }
    } else {
        ConnType::DEFAULT_CONN
    }
}

/// The mathematical value of a [`Session`].
pub struct SessionView {
    pub peer_id: Seq<char>,
    pub conn_type: ConnType,
    pub password: Seq<char>,
    pub switch_uuid: Option<Seq<char>>,
    pub force_relay: bool,
    pub server_keyboard_enabled: bool,
    pub server_file_transfer_enabled: bool,
    pub server_clipboard_enabled: bool,
    /// The number of the transport loop that was started last; 0 before the first.
    pub round: u64,
    pub ui: FlutterHandlerView,
}

impl SessionView {
    /// The session as a request makes it: every capability enabled, no transport loop
    /// started, no attachment.
    pub open spec fn fresh(
        peer_id: Seq<char>,
        conn_type: ConnType,
        switch_uuid: Seq<char>,
        force_relay: bool,
        password: Seq<char>,
        texture_render: bool,
        has_callback: bool,
    ) -> SessionView {
        SessionView {
            peer_id,
            conn_type,
            password,
            switch_uuid: if switch_uuid.len() == 0 {
                None
            } else {
                Some(switch_uuid)
            },
            force_relay,
            server_keyboard_enabled: true,
            server_file_transfer_enabled: true,
            server_clipboard_enabled: true,
            round: 0,
            ui: FlutterHandlerView::empty(texture_render, has_callback),
        }
    }

    /// The number that the next transport loop gets: one more than the last, as long as
    /// the counter has room.
    pub open spec fn next_round(self) -> u64 {
        if self.round < u64::MAX {
            (self.round + 1) as u64
        } else {
            self.round
        }
    }
}

/// One logical peer connection: its identity, its configuration, the counter of its
/// transport loops and its UI side.
pub struct Session {
    id: String,
    conn_type: ConnType,
    password: String,
    switch_uuid: Option<String>,
    force_relay: bool,
    server_keyboard_enabled: bool,
    server_file_transfer_enabled: bool,
    server_clipboard_enabled: bool,
    round: u64,
    ui_handler: FlutterHandler,
}

/// The view of a text that may be absent.
pub open spec fn opt_text(s: Option<String>) -> Option<Seq<char>> {
    match s {
        Some(s) => Some(s@),
        None => None,
    }
}

impl View for Session {
    type V = SessionView;

    closed spec fn view(&self) -> SessionView {
        SessionView {
            peer_id: self.id@,
            conn_type: self.conn_type,
            password: self.password@,
            switch_uuid: opt_text(self.switch_uuid),
            force_relay: self.force_relay,
            server_keyboard_enabled: self.server_keyboard_enabled,
            server_file_transfer_enabled: self.server_file_transfer_enabled,
            server_clipboard_enabled: self.server_clipboard_enabled,
            round: self.round,
            ui: self.ui_handler@,
        }
    }
}

impl Session {
    /// What holds of every session that was made by [`Self::new`] and changed by its
    /// methods: its UI side is well-formed.
    pub closed spec fn wf(&self) -> bool {
        self.ui_handler.wf()
    }

    /// A well-formed session has a well-formed UI side.
    pub proof fn lemma_view_wf(&self)
        requires
            self.wf(),
        ensures
            self@.ui.wf(),
    {
        self.ui_handler.lemma_view_wf();
    }

    /// A session for the peer `id`, with every capability enabled and no attachment.
    /// An empty `switch_uuid` stands for none.
    pub fn new(
        id: &str,
        conn_type: ConnType,
        switch_uuid: &str,
        force_relay: bool,
        password: String,
        texture_render: bool,
        on_rgba_func: bool,
    ) -> (s: Self)
        ensures
            s.wf(),
            s@ == SessionView::fresh(
                id@,
                conn_type,
                switch_uuid@,
                force_relay,
                password@,
                texture_render,
                on_rgba_func,
            ),
    {
        let switch_uuid = if switch_uuid.is_empty() {
            None
        } else {
            Some(switch_uuid.to_owned())
        };
        Session {
            id: id.to_owned(),
            conn_type,
            password,
            switch_uuid,
            force_relay,
            server_keyboard_enabled: true,
            server_file_transfer_enabled: true,
            server_clipboard_enabled: true,
            round: 0,
            ui_handler: FlutterHandler::new(texture_render, on_rgba_func),
        }
    }

    /// The peer's id.
    pub fn get_id(&self) -> (id: String)
        ensures
            id@ == self@.peer_id,
    {
        self.id.clone()
    }

    /// The kind of the connection.
    pub fn conn_type(&self) -> (t: ConnType)
        ensures
            t == self@.conn_type,
    {
        self.conn_type
    }

    /// The number of the transport loop that was started last.
    pub fn round(&self) -> (r: u64)
        ensures
            r == self@.round,
    {
        self.round
    }

    /// The UI side.
    pub fn ui_handler(&self) -> (h: &FlutterHandler)
        ensures
            h@ == self@.ui,
            h.wf() == self.wf(),
    {
        &self.ui_handler
    }

    /// The UI side, to be changed in place.
    pub fn ui_handler_mut(&mut self) -> (h: &mut FlutterHandler)
        ensures
            h@ == old(self)@.ui,
            h.wf() == old(self).wf(),
            final(self)@ == (SessionView { ui: final(h)@, ..old(self)@ }),
            final(self).wf() == final(h).wf(),
    {
        &mut self.ui_handler
    }

    /// Counts one more transport loop and returns its number. A stale loop tells by
    /// this number that it was superseded.
    pub fn new_round(&mut self) -> (r: u64)
        ensures
            r == old(self)@.next_round(),
            final(self)@ == (SessionView { round: r, ..old(self)@ }),
            final(self).wf() == old(self).wf(),
    {
        if self.round < u64::MAX {
            self.round = self.round + 1;
        }
        self.round
    }

    /// Whether a transport loop with the number `round` is still the current one.
    pub fn is_current_round(&self, round: u64) -> (b: bool)
        ensures
            b == (round == self@.round),
    {
        round == self.round
    }
}

impl SessionView {
    /// Whether the session takes part in the exchange of clipboard texts: it does
    /// while the peer lets it use the clipboard.
    pub open spec fn is_text_clipboard_required(self) -> bool {
        self.server_clipboard_enabled
    }
}

impl Session {
    /// Whether the session takes part in the exchange of clipboard texts.
    pub fn is_text_clipboard_required(&self) -> (b: bool)
        ensures
            b == self@.is_text_clipboard_required(),
    {
        self.server_clipboard_enabled
    }

    /// Notes whether the peer lets the session use the keyboard.
    pub fn set_server_keyboard_enabled(&mut self, enabled: bool)
        ensures
            final(self)@ == (SessionView { server_keyboard_enabled: enabled, ..old(self)@ }),
            final(self).wf() == old(self).wf(),
    {
        self.server_keyboard_enabled = enabled;
    }

    /// Notes whether the peer lets the session transfer files.
    pub fn set_server_file_transfer_enabled(&mut self, enabled: bool)
        ensures
            final(self)@ == (SessionView { server_file_transfer_enabled: enabled, ..old(self)@ }),
            final(self).wf() == old(self).wf(),
    {
        self.server_file_transfer_enabled = enabled;
    }

    /// Notes whether the peer lets the session use the clipboard.
    pub fn set_server_clipboard_enabled(&mut self, enabled: bool)
        ensures
            final(self)@ == (SessionView { server_clipboard_enabled: enabled, ..old(self)@ }),
            final(self).wf() == old(self).wf(),
    {
        self.server_clipboard_enabled = enabled;
    }
}

impl Session {
    /// The password that the connection is made with.
    pub fn password(&self) -> (p: &str)
        ensures
            p@ == self@.password,
    {
        self.password.as_str()
    }

    /// The id under which the sides of the connection were switched, if they were.
    pub fn switch_uuid(&self) -> (u: Option<&str>)
        ensures
            match u {
                Some(u) => self@.switch_uuid == Some(u@),
                None => self@.switch_uuid is None,
            },
    {
        match &self.switch_uuid {
            Some(u) => Some(u.as_str()),
            None => None,
        }
    }

    /// Whether the connection is to go through a relay.
    pub fn force_relay(&self) -> (b: bool)
        ensures
            b == self@.force_relay,
    {
        self.force_relay
    }

    /// Whether the peer lets the session use the keyboard.
    pub fn server_keyboard_enabled(&self) -> (b: bool)
        ensures
            b == self@.server_keyboard_enabled,
    {
        self.server_keyboard_enabled
    }

    /// Whether the peer lets the session transfer files.
    pub fn server_file_transfer_enabled(&self) -> (b: bool)
        ensures
            b == self@.server_file_transfer_enabled,
    {
        self.server_file_transfer_enabled
    }

    /// Whether the peer lets the session use the clipboard.
    pub fn server_clipboard_enabled(&self) -> (b: bool)
        ensures
            b == self@.server_clipboard_enabled,
    {
        self.server_clipboard_enabled
    }
}

} // verus!
