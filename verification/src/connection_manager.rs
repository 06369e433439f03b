use vstd::prelude::*;
use crate::events::{event_text, pairs_view};
use crate::global::{cm_push_event, opt_delivery_view, GlobalEventStreams, GlobalView};
use crate::text::{bool_text, bool_to_text, i32_text, int_text};
use crate::types::{Delivery, DeliveryView};

verus! {

impl GlobalView {
    /// The delivery of the event `name` with the fields `fields` on the channel of the
    /// connection manager, if that channel is started.
    pub open spec fn cm_event(self, name: Seq<char>, fields: Seq<(Seq<char>, Seq<char>)>) -> Option<
        DeliveryView,
    > {
        self.push(self.cm_channel(), event_text(name, fields))
    }
}

fn one_field<'a>(key: &'a str, value: &'a str) -> (fields: Vec<(&'a str, &'a str)>)
    ensures
        pairs_view(fields@) == seq![(key@, value@)],
{
    let mut fields: Vec<(&'a str, &'a str)> = Vec::new();
    fields.push((key, value));
    assert(pairs_view(fields@) =~= seq![(key@, value@)]);
    fields
}

fn two_fields<'a>(k1: &'a str, v1: &'a str, k2: &'a str, v2: &'a str) -> (fields: Vec<
    (&'a str, &'a str),
>)
    ensures
        pairs_view(fields@) == seq![(k1@, v1@), (k2@, v2@)],
{
    let mut fields: Vec<(&'a str, &'a str)> = Vec::new();
    fields.push((k1, v1));
    fields.push((k2, v2));
    assert(pairs_view(fields@) =~= seq![(k1@, v1@), (k2@, v2@)]);
    fields
}

/// Tells the connection manager's page of a new client. `client_json` is the text of
/// what is known of the client.
pub fn add_connection(streams: &GlobalEventStreams, client_json: &str) -> (r: Option<Delivery>)
    requires
        streams.wf(),
    ensures
        opt_delivery_view(r) == streams@.cm_event(
            "add_connection"@,
            seq![("client"@, client_json@)],
        ),
{
    cm_push_event(streams, "add_connection", one_field("client", client_json))
}

/// Tells the connection manager's page that the client `id` is gone, and whether its
/// window is to be closed.
pub fn remove_connection(streams: &GlobalEventStreams, id: i32, close: bool) -> (r: Option<
    Delivery,
>)
    requires
        streams.wf(),
    ensures
        opt_delivery_view(r) == streams@.cm_event(
            "on_client_remove"@,
            seq![("id"@, int_text(id as int)), ("close"@, bool_text(close))],
        ),
{
    let id_text = i32_text(id);
    cm_push_event(
        streams,
        "on_client_remove",
        two_fields("id", id_text.as_str(), "close", bool_to_text(close)),
    )
}

/// Hands the connection manager's page a chat message of the client `id`.
pub fn new_message(streams: &GlobalEventStreams, id: i32, text: String) -> (r: Option<Delivery>)
    requires
        streams.wf(),
    ensures
        opt_delivery_view(r) == streams@.cm_event(
            "chat_server_mode"@,
            seq![("id"@, int_text(id as int)), ("text"@, text@)],
        ),
{
    let id_text = i32_text(id);
    cm_push_event(
        streams,
        "chat_server_mode",
        two_fields("id", id_text.as_str(), "text", text.as_str()),
    )
}

/// Tells the connection manager's page of the theme.
pub fn change_theme(streams: &GlobalEventStreams, dark: String) -> (r: Option<Delivery>)
    requires
        streams.wf(),
    ensures
        opt_delivery_view(r) == streams@.cm_event("theme"@, seq![("dark"@, dark@)]),
{
    cm_push_event(streams, "theme", one_field("dark", dark.as_str()))
}

/// Tells the connection manager's page that the language has changed.
pub fn change_language(streams: &GlobalEventStreams) -> (r: Option<Delivery>)
    requires
        streams.wf(),
    ensures
        opt_delivery_view(r) == streams@.cm_event("language"@, Seq::empty()),
{
    let fields: Vec<(&str, &str)> = Vec::new();
    assert(pairs_view(fields@) =~= Seq::empty());
    cm_push_event(streams, "language", fields)
}

/// Tells the connection manager's page whether to offer an elevation.
pub fn show_elevation(streams: &GlobalEventStreams, show: bool) -> (r: Option<Delivery>)
    requires
        streams.wf(),
    ensures
        opt_delivery_view(r) == streams@.cm_event(
            "show_elevation"@,
            seq![("show"@, bool_text(show))],
        ),
{
    cm_push_event(streams, "show_elevation", one_field("show", bool_to_text(show)))
}

/// Tells the connection manager's page of the state of a client's voice call.
/// `client_json` is the text of what is known of the client.
pub fn update_voice_call_state(streams: &GlobalEventStreams, client_json: &str) -> (r: Option<
    Delivery,
>)
    requires
        streams.wf(),
    ensures
        opt_delivery_view(r) == streams@.cm_event(
            "update_voice_call_state"@,
            seq![("client"@, client_json@)],
        ),
{
    cm_push_event(streams, "update_voice_call_state", one_field("client", client_json))
}

/// Hands the connection manager's page a line of the file transfer log.
pub fn file_transfer_log(streams: &GlobalEventStreams, action: &str, log: &str) -> (r: Option<
    Delivery,
>)
    requires
        streams.wf(),
    ensures
        opt_delivery_view(r) == streams@.cm_event("cm_file_transfer_log"@, seq![(action@, log@)]),
{
    cm_push_event(streams, "cm_file_transfer_log", one_field(action, log))
}

} // verus!
