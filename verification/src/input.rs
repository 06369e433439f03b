use serde_json::Value;
use std::collections::HashMap;
use vstd::prelude::*;
use crate::text::str_eq;
use crate::sessions::{get_session_by_session_id, Sessions};
use crate::types::SessionID;

verus! {

/// What is read of a pointer message: which modifier keys it names, its kind, and what
/// its value says of a touch.
#[derive(Debug)]
pub struct PointerFields {
    /// Whether the message has the members `alt`, `ctrl`, `shift`, `command`.
    pub alt: bool,
    pub ctrl: bool,
    pub shift: bool,
    pub command: bool,
    /// The member `k`, where it is a string.
    pub k: Option<String>,
    /// The member `t` of the member `v`, where it is a string.
    pub t: Option<String>,
    /// The member `v` of the member `v`, where it is an integer.
    pub scale: Option<i64>,
    /// The members `x` and `y` of the member `v` of the member `v`, where they are
    /// integers.
    pub x: Option<i64>,
    pub y: Option<i64>,
}

/// The mathematical value of a [`PointerFields`].
pub struct PointerFieldsView {
    pub alt: bool,
    pub ctrl: bool,
    pub shift: bool,
    pub command: bool,
    pub k: Option<Seq<char>>,
    pub t: Option<Seq<char>>,
    pub scale: Option<i64>,
    pub x: Option<i64>,
    pub y: Option<i64>,
}

/// The view of a string that may be absent.
pub open spec fn opt_view(o: Option<String>) -> Option<Seq<char>> {
    match o {
        Some(s) => Some(s@),
        None => None,
    }
}

impl View for PointerFields {
    type V = PointerFieldsView;

    open spec fn view(&self) -> PointerFieldsView {
        PointerFieldsView {
            alt: self.alt,
            ctrl: self.ctrl,
            shift: self.shift,
            command: self.command,
            k: opt_view(self.k),
            t: opt_view(self.t),
            scale: self.scale,
            x: self.x,
            y: self.y,
        }
    }
}

impl PointerFieldsView {
    /// The modifier keys that the message names.
    pub open spec fn keys(self) -> Modifiers {
        Modifiers { alt: self.alt, ctrl: self.ctrl, shift: self.shift, command: self.command }
    }
}

/// The view of pointer fields that may be absent.
pub open spec fn opt_fields_view(o: Option<PointerFields>) -> Option<PointerFieldsView> {
    match o {
        Some(f) => Some(f@),
        None => None,
    }
}

/// What is read of the pointer message `msg`; nothing where `msg` is not the JSON text
/// of an object.
pub uninterp spec fn parsed_pointer(msg: Seq<char>) -> Option<PointerFieldsView>;

/// Calls `serde_json::from_str` for a map from strings to `serde_json::Value`, and
/// reads of it which of the modifier keys it holds, its member `k` and, of its member
/// `v`, the members `t` and `v` and of that one `x` and `y`, with `Value::get`,
/// `Value::as_str` and `Value::as_i64`. What is not there, or is of another kind, is
/// read as absent.
///
/// Believed, not proved: what comes back depends on the text alone.
#[verifier::external_body]
fn parse_pointer(msg: &str) -> (r: Option<PointerFields>)
    ensures
        opt_fields_view(r) == parsed_pointer(msg@),
{
    let m: HashMap<String, Value> = serde_json::from_str(msg).ok()?;
    let v = m.get("v");
    let w = v.and_then(|v| v.get("v"));
    Some(PointerFields {
        alt: m.contains_key("alt"),
        ctrl: m.contains_key("ctrl"),
        shift: m.contains_key("shift"),
        command: m.contains_key("command"),
        k: m.get("k").and_then(Value::as_str).map(str::to_owned),
        t: v.and_then(|v| v.get("t")).and_then(Value::as_str).map(str::to_owned),
        scale: w.and_then(Value::as_i64),
        x: w.and_then(|v| v.get("x")).and_then(Value::as_i64),
        y: w.and_then(|v| v.get("y")).and_then(Value::as_i64),
    })
}

/// The modifier keys that go with a touch.
#[derive(Clone, Copy, Debug, PartialEq, Eq, Structural)]
pub struct Modifiers {
    pub alt: bool,
    pub ctrl: bool,
    pub shift: bool,
    pub command: bool,
}

/// What the transport is asked to send for a touch.
#[derive(Debug, PartialEq, Eq)]
pub enum TouchCommand {
    /// A pinch by `scale`.
    Scale { scale: i32, keys: Modifiers },
    /// A step of a pan; `event` says which.
    Pan { event: String, x: i32, y: i32, keys: Modifiers },
}

/// The mathematical value of a [`TouchCommand`].
pub enum TouchCommandView {
    Scale { scale: i32, keys: Modifiers },
    Pan { event: Seq<char>, x: i32, y: i32, keys: Modifiers },
}

impl View for TouchCommand {
    type V = TouchCommandView;

    open spec fn view(&self) -> TouchCommandView {
        match self {
            TouchCommand::Scale { scale, keys } => TouchCommandView::Scale {
                scale: *scale,
                keys: *keys,
            },
            TouchCommand::Pan { event, x, y, keys } => TouchCommandView::Pan {
                event: event@,
                x: *x,
                y: *y,
                keys: *keys,
            },
        }
    }
}

/// The view of a command that may be absent.
pub open spec fn opt_command_view(o: Option<TouchCommand>) -> Option<TouchCommandView> {
    match o {
        Some(c) => Some(c@),
        None => None,
    }
}

/// The pinch that a touch leads to, where its value is an integer.
pub open spec fn scale_command(f: PointerFieldsView) -> Option<TouchCommandView> {
    match f.scale {
        Some(scale) => Some(TouchCommandView::Scale { scale: scale as i32, keys: f.keys() }),
        None => None,
    }
}

/// The step of a pan that a touch leads to, where its value has integers `x` and `y`.
pub open spec fn pan_command(f: PointerFieldsView, event: Seq<char>) -> Option<TouchCommandView> {
    match (f.x, f.y) {
        (Some(x), Some(y)) => Some(
            TouchCommandView::Pan { event, x: x as i32, y: y as i32, keys: f.keys() },
        ),
        _ => None,
    }
}

/// The command that a touch leads to: a pinch where its kind is `scale`, else a step of
/// a pan; none where the touch has no kind.
pub open spec fn touch_command(f: PointerFieldsView) -> Option<TouchCommandView> {
    match f.t {
        None => None,
        Some(t) => if t == "scale"@ {
            scale_command(f)
        } else {
            pan_command(f, t)
        },
    }
}

/// The command that a pointer message leads to: that of its touch, where the message is
/// of the kind `touch`.
pub open spec fn pointer_command(f: PointerFieldsView) -> Option<TouchCommandView> {
    if f.k == Some("touch"@) {
        touch_command(f)
    } else {
        None
    }
}

impl PointerFields {
    /// The modifier keys that the message names.
    pub fn keys(&self) -> (k: Modifiers)
        ensures
            k == self@.keys(),
    {
        Modifiers { alt: self.alt, ctrl: self.ctrl, shift: self.shift, command: self.command }
    }
}

/// The pinch that a touch leads to, where its value is an integer.
pub fn session_send_touch_scale(f: &PointerFields) -> (r: Option<TouchCommand>)
    ensures
        opt_command_view(r) == scale_command(f@),
{
    match f.scale {
        Some(scale) => Some(
            TouchCommand::Scale { scale: #[verifier::truncate] (scale as i32), keys: f.keys() },
        ),
        None => None,
    }
}

/// The step of a pan that a touch leads to, where its value has integers `x` and `y`.
pub fn session_send_touch_pan(f: &PointerFields, pan_event: &str) -> (r: Option<TouchCommand>)
    ensures
        opt_command_view(r) == pan_command(f@, pan_event@),
{
    match (f.x, f.y) {
        (Some(x), Some(y)) => Some(
            TouchCommand::Pan {
                event: pan_event.to_owned(),
                x: #[verifier::truncate] (x as i32),
                y: #[verifier::truncate] (y as i32),
                keys: f.keys(),
            },
        ),
        _ => None,
    }
}

/// The command that a touch leads to.
pub fn session_send_touch_event(f: &PointerFields) -> (r: Option<TouchCommand>)
    ensures
        opt_command_view(r) == touch_command(f@),
{
    match &f.t {
        Some(t) => if str_eq(t.as_str(), "scale") {
            session_send_touch_scale(f)
        } else {
            session_send_touch_pan(f, t.as_str())
        },
        None => None,
    }
}

/// The command that what was read of a pointer message leads to.
pub fn pointer_fields_command(f: &PointerFields) -> (r: Option<TouchCommand>)
    ensures
        opt_command_view(r) == pointer_command(f@),
{
    let is_touch = match &f.k {
        Some(k) => str_eq(k.as_str(), "touch"),
        None => false,
    };
    if is_touch {
        session_send_touch_event(f)
    } else {
        None
    }
}

/// Reads the pointer message `msg` and decides what the transport of the first
/// connection that holds the attachment `session_id` is asked to send: nothing where
/// the message cannot be read or is no touch, or where no connection holds the
/// attachment.
pub fn session_send_pointer(sessions: &Sessions, session_id: SessionID, msg: String) -> (r:
    Option<TouchCommand>)
    requires
        sessions.wf(),
    ensures
        opt_command_view(r) == match parsed_pointer(msg@) {
            Some(f) => if sessions@.owner(session_id) is Some {
                pointer_command(f)
            } else {
                None
            },
            None => None,
        },
{
    match parse_pointer(msg.as_str()) {
        Some(f) => {
            if get_session_by_session_id(sessions, &session_id).is_some() {
                pointer_fields_command(&f)
            } else {
                None
            }
        },
        None => None,
    }
}

} // verus!
