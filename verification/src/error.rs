use vstd::prelude::*;
use vstd::string::StringExecFns;
use crate::types::SessionID;

verus! {

/// The three kinds of failure that callers tell apart.
#[derive(Clone, Copy, Debug, PartialEq, Eq, Structural)]
pub enum ErrorKind {
    /// No session, attachment or channel matches.
    NotFound,
    /// What is asked for collides with what is there.
    Conflict,
    /// The capability asked for is not available here.
    UnsupportedCapability,
}

/// The words for an attachment id that a session of another kind of connection holds.
pub const SAME_SESSION_ID_OTHER_CONN_TYPE: &'static str =
    "same session id is found with different conn type?";

/// The words for an attachment id that a session holds already.
pub const SAME_SESSION_ID: &'static str = "same session id is found";

/// Why a session could not be added or started.
#[derive(Debug, PartialEq, Eq)]
pub enum SessionError {
    /// The attachment id is in use by a session of another kind of connection.
    SameSessionIdDifferentConnType,
    /// The attachment id is in use.
    SameSessionId,
    /// No session holds the attachment.
    NoSession { peer_id: String, session_id: SessionID },
}

/// The mathematical value of a [`SessionError`].
pub enum SessionErrorView {
    SameSessionIdDifferentConnType,
    SameSessionId,
    NoSession { peer_id: Seq<char>, session_id: SessionID },
}

impl View for SessionError {
    type V = SessionErrorView;

    open spec fn view(&self) -> SessionErrorView {
        match self {
            SessionError::SameSessionIdDifferentConnType => SessionErrorView::SameSessionIdDifferentConnType,
            SessionError::SameSessionId => SessionErrorView::SameSessionId,
            SessionError::NoSession { peer_id, session_id } => SessionErrorView::NoSession {
                peer_id: peer_id@,
                session_id: *session_id,
            },
        }
    }
}

impl SessionErrorView {
    /// The kind of the failure.
    pub open spec fn kind(self) -> ErrorKind {
        match self {
            SessionErrorView::NoSession { .. } => ErrorKind::NotFound,
            _ => ErrorKind::Conflict,
        }
    }

    /// The words of the failure. `session_id` is the text of the attachment's id, which
    /// is named where no session holds the attachment.
    pub open spec fn message(self, session_id: Seq<char>) -> Seq<char> {
        match self {
            SessionErrorView::SameSessionIdDifferentConnType => SAME_SESSION_ID_OTHER_CONN_TYPE@,
            SessionErrorView::SameSessionId => SAME_SESSION_ID@,
            SessionErrorView::NoSession { peer_id, .. } => "No session with peer id "@ + peer_id
                + ", session id: "@ + session_id,
        }
    }
}

impl SessionError {
    /// The words of the failure. `session_id` is the text of the attachment's id, which
    /// is named where no session holds the attachment.
    pub fn message(&self, session_id: &str) -> (m: String)
        ensures
            m@ == self@.message(session_id@),
    {
        match self {
            SessionError::SameSessionIdDifferentConnType => SAME_SESSION_ID_OTHER_CONN_TYPE.to_owned(),
            SessionError::SameSessionId => SAME_SESSION_ID.to_owned(),
            SessionError::NoSession { peer_id, .. } => String::from_str(
                "No session with peer id ",
            ).concat(peer_id.as_str()).concat(", session id: ").concat(session_id),
        }
    }

    /// The kind of the failure.
    pub fn kind(&self) -> (k: ErrorKind)
        ensures
            k == self@.kind(),
    {
        match self {
            SessionError::NoSession { .. } => ErrorKind::NotFound,
            _ => ErrorKind::Conflict,
        }
    }
}

} // verus!
