use vstd::prelude::*;
use crate::events::{
    encode_bytes, encode_int_record, event_text, json_bytes_text, json_int_object_text,
    pairs_view, strings_view,
};
use crate::handler::{FlutterHandler, FlutterHandlerView};
use crate::ordered_map::OrderedMap;
use crate::peer::{
    displays_msg, flag, make_displays_msg, resolutions_msg, serialize_resolutions, DisplayInfo,
    PeerInfo, PeerInfoView, Resolution,
};
use crate::text::{
    bool_text, bool_to_text, i32_text, int_text, lemma_nat_text_injective, nat_text, u64_text,
    usize_text,
};
use crate::types::{deliveries_view, Delivery, DeliveryView, EventView};

verus! {

impl FlutterHandlerView {
    /// The deliveries of the event `name` with the fields `fields`: one for each
    /// attachment that has a sink.
    pub open spec fn event_notices(
        self,
        name: Seq<char>,
        fields: Seq<(Seq<char>, Seq<char>)>,
    ) -> Seq<DeliveryView> {
        self.notices(EventView::Event(event_text(name, fields)))
    }
}

/// The text, or the empty text where there is none.
pub open spec fn text_or_empty(o: Option<Seq<char>>) -> Seq<char> {
    match o {
        Some(t) => t,
        None => Seq::empty(),
    }
}

/// The decimal text of the number, or the empty text where there is none.
pub open spec fn int_or_empty(o: Option<i32>) -> Seq<char> {
    match o {
        Some(x) => int_text(x as int),
        None => Seq::empty(),
    }
}

/// The view of a string that may be absent.
pub open spec fn opt_string_view(o: Option<String>) -> Option<Seq<char>> {
    match o {
        Some(s) => Some(s@),
        None => None,
    }
}

fn push_field<'a>(fields: &mut Vec<(&'a str, &'a str)>, key: &'a str, value: &'a str)
    ensures
        pairs_view(final(fields)@) == pairs_view(old(fields)@).push((key@, value@)),
{
    fields.push((key, value));
    assert(pairs_view(fields@) =~= pairs_view(old(fields)@).push((key@, value@)));
}

fn no_fields<'a>() -> (fields: Vec<(&'a str, &'a str)>)
    ensures
        pairs_view(fields@) == Seq::<(Seq<char>, Seq<char>)>::empty(),
{
    let fields: Vec<(&'a str, &'a str)> = Vec::new();
    assert(pairs_view(fields@) =~= Seq::<(Seq<char>, Seq<char>)>::empty());
    fields
}

fn opt_string_or_empty(o: &Option<String>) -> (r: String)
    ensures
        r@ == text_or_empty(opt_string_view(*o)),
{
    match o {
        Some(s) => s.clone(),
        None => String::new(),
    }
}

fn opt_i32_or_empty(o: Option<i32>) -> (r: String)
    ensures
        r@ == int_or_empty(o),
{
    match o {
        Some(x) => i32_text(x),
        None => String::new(),
    }
}

/// The shape of the cursor, with its colors unpacked.
#[derive(Debug)]
pub struct CursorData {
    pub id: u64,
    pub hotx: i32,
    pub hoty: i32,
    pub width: i32,
    pub height: i32,
    pub colors: Vec<u8>,
}

/// Where the cursor is.
#[derive(Clone, Copy, Debug, PartialEq, Eq, Structural)]
pub struct CursorPosition {
    pub x: i32,
    pub y: i32,
}

/// How the connection fares.
pub struct QualityStatus {
    pub speed: Option<String>,
    /// Frames per second, by display.
    pub fps: OrderedMap<usize, i32>,
    pub delay: Option<i32>,
    pub target_bitrate: Option<i32>,
    pub codec_format: Option<String>,
    pub chroma: Option<String>,
}

/// The display that the peer shows now.
#[derive(Debug)]
pub struct SwitchDisplay {
    pub display: i32,
    pub x: i32,
    pub y: i32,
    pub width: i32,
    pub height: i32,
    pub cursor_embedded: bool,
    pub resolutions: Vec<Resolution>,
    pub original_resolution: Resolution,
}

/// The JSON text of the frames per second: an object with one member for each display.
pub open spec fn fps_text(keys: Seq<usize>, rates: Seq<i32>) -> Seq<char> {
    json_int_object_text(keys.map_values(|k: usize| nat_text(k as nat)), rates)
}

/// The JSON text of the frames per second.
pub fn make_fps_text(fps: &OrderedMap<usize, i32>) -> (text: String)
    requires
        fps.wf(),
    ensures
        text@ == fps_text(fps.keys(), fps.values()),
{
    let keys = fps.keys_vec();
    let values = fps.values_vec();
    let mut names: Vec<String> = Vec::new();
    let mut i: usize = 0;
    proof {
        fps.lemma_values_view();
        assert(keys@.map_values(|k: usize| k@) =~= keys@);
    }
    while i < keys.len()
        invariant
            i <= keys.len(),
            keys@ == fps.keys(),
            strings_view(names@) == keys@.take(i as int).map_values(|k: usize| nat_text(k as nat)),
        decreases keys.len() - i,
    {
        let ghost before = names@;
        let name = usize_text(keys[i]);
        names.push(name);
        assert(strings_view(names@) =~= strings_view(before).push(name@));
        assert(strings_view(names@) =~= keys@.take(i + 1).map_values(
            |k: usize| nat_text(k as nat),
        ));
        i += 1;
    }
    proof {
        crate::seq_util::lemma_take_all(keys@);
        fps.lemma_keys();
        let texts = strings_view(names@);
        assert forall|a: int, b: int| 0 <= a < texts.len() && 0 <= b < texts.len() && a != b implies texts[a]
            != texts[b] by {
            if texts[a] == texts[b] {
                lemma_nat_text_injective(keys@[a] as nat, keys@[b] as nat);
            }
        }
    }
    encode_int_record(&names, values)
}

impl FlutterHandler {
    /// Tells the UI of the shape of the cursor.
    pub fn set_cursor_data(&self, cd: CursorData) -> (out: Vec<Delivery>)
        requires
            self.wf(),
        ensures
            deliveries_view(out@) == self@.event_notices(
                "cursor_data"@,
                seq![
                    ("id"@, nat_text(cd.id as nat)),
                    ("hotx"@, int_text(cd.hotx as int)),
                    ("hoty"@, int_text(cd.hoty as int)),
                    ("width"@, int_text(cd.width as int)),
                    ("height"@, int_text(cd.height as int)),
                    ("colors"@, json_bytes_text(cd.colors@)),
                ],
            ),
    {
        let id = u64_text(cd.id);
        let hotx = i32_text(cd.hotx);
        let hoty = i32_text(cd.hoty);
        let width = i32_text(cd.width);
        let height = i32_text(cd.height);
        let colors = encode_bytes(&cd.colors);
        let mut fields = no_fields();
        push_field(&mut fields, "id", id.as_str());
        push_field(&mut fields, "hotx", hotx.as_str());
        push_field(&mut fields, "hoty", hoty.as_str());
        push_field(&mut fields, "width", width.as_str());
        push_field(&mut fields, "height", height.as_str());
        push_field(&mut fields, "colors", colors.as_str());
        assert(pairs_view(fields@) =~= seq![
            ("id"@, nat_text(cd.id as nat)),
            ("hotx"@, int_text(cd.hotx as int)),
            ("hoty"@, int_text(cd.hoty as int)),
            ("width"@, int_text(cd.width as int)),
            ("height"@, int_text(cd.height as int)),
            ("colors"@, json_bytes_text(cd.colors@)),
        ]);
        self.push_event("cursor_data", fields)
    }

    /// Tells the UI which cursor to show.
    pub fn set_cursor_id(&self, id: String) -> (out: Vec<Delivery>)
        requires
            self.wf(),
        ensures
            deliveries_view(out@) == self@.event_notices("cursor_id"@, seq![("id"@, id@)]),
    {
        let mut fields = no_fields();
        push_field(&mut fields, "id", id.as_str());
        assert(pairs_view(fields@) =~= seq![("id"@, id@)]);
        self.push_event("cursor_id", fields)
    }

    /// Tells the UI where the cursor is.
    pub fn set_cursor_position(&self, cp: CursorPosition) -> (out: Vec<Delivery>)
        requires
            self.wf(),
        ensures
            deliveries_view(out@) == self@.event_notices(
                "cursor_position"@,
                seq![("x"@, int_text(cp.x as int)), ("y"@, int_text(cp.y as int))],
            ),
    {
        let x = i32_text(cp.x);
        let y = i32_text(cp.y);
        let mut fields = no_fields();
        push_field(&mut fields, "x", x.as_str());
        push_field(&mut fields, "y", y.as_str());
        assert(pairs_view(fields@) =~= seq![
            ("x"@, int_text(cp.x as int)),
            ("y"@, int_text(cp.y as int)),
        ]);
        self.push_event("cursor_position", fields)
    }

    /// Tells the UI that the state of the privacy mode has changed.
    pub fn update_privacy_mode(&self) -> (out: Vec<Delivery>)
        requires
            self.wf(),
        ensures
            deliveries_view(out@) == self@.event_notices("update_privacy_mode"@, Seq::empty()),
    {
        self.push_event("update_privacy_mode", no_fields())
    }

    /// Tells the UI whether the permission `name` is granted.
    pub fn set_permission(&self, name: &str, value: bool) -> (out: Vec<Delivery>)
        requires
            self.wf(),
        ensures
            deliveries_view(out@) == self@.event_notices(
                "permission"@,
                seq![(name@, bool_text(value))],
            ),
    {
        let mut fields = no_fields();
        push_field(&mut fields, name, bool_to_text(value));
        assert(pairs_view(fields@) =~= seq![(name@, bool_text(value))]);
        self.push_event("permission", fields)
    }

    /// Tells the UI how the connection fares. What is not known is told as the empty
    /// text.
    pub fn update_quality_status(&self, status: QualityStatus) -> (out: Vec<Delivery>)
        requires
            self.wf(),
            status.fps.wf(),
        ensures
            deliveries_view(out@) == self@.event_notices(
                "update_quality_status"@,
                seq![
                    ("speed"@, text_or_empty(opt_string_view(status.speed))),
                    ("fps"@, fps_text(status.fps.keys(), status.fps.values())),
                    ("delay"@, int_or_empty(status.delay)),
                    ("target_bitrate"@, int_or_empty(status.target_bitrate)),
                    ("codec_format"@, text_or_empty(opt_string_view(status.codec_format))),
                    ("chroma"@, text_or_empty(opt_string_view(status.chroma))),
                ],
            ),
    {
        let speed = opt_string_or_empty(&status.speed);
        let fps = make_fps_text(&status.fps);
        let delay = opt_i32_or_empty(status.delay);
        let target_bitrate = opt_i32_or_empty(status.target_bitrate);
        let codec_format = opt_string_or_empty(&status.codec_format);
        let chroma = opt_string_or_empty(&status.chroma);
        let mut fields = no_fields();
        push_field(&mut fields, "speed", speed.as_str());
        push_field(&mut fields, "fps", fps.as_str());
        push_field(&mut fields, "delay", delay.as_str());
        push_field(&mut fields, "target_bitrate", target_bitrate.as_str());
        push_field(&mut fields, "codec_format", codec_format.as_str());
        push_field(&mut fields, "chroma", chroma.as_str());
        assert(pairs_view(fields@) =~= seq![
            ("speed"@, text_or_empty(opt_string_view(status.speed))),
            ("fps"@, fps_text(status.fps.keys(), status.fps.values())),
            ("delay"@, int_or_empty(status.delay)),
            ("target_bitrate"@, int_or_empty(status.target_bitrate)),
            ("codec_format"@, text_or_empty(opt_string_view(status.codec_format))),
            ("chroma"@, text_or_empty(opt_string_view(status.chroma))),
        ]);
        self.push_event("update_quality_status", fields)
    }

    /// Tells the UI that the connection is ready, and of what kind it is.
    pub fn set_connection_type(&self, is_secured: bool, direct: bool) -> (out: Vec<Delivery>)
        requires
            self.wf(),
        ensures
            deliveries_view(out@) == self@.event_notices(
                "connection_ready"@,
                seq![("secure"@, bool_text(is_secured)), ("direct"@, bool_text(direct))],
            ),
    {
        let mut fields = no_fields();
        push_field(&mut fields, "secure", bool_to_text(is_secured));
        push_field(&mut fields, "direct", bool_to_text(direct));
        assert(pairs_view(fields@) =~= seq![
            ("secure"@, bool_text(is_secured)),
            ("direct"@, bool_text(direct)),
        ]);
        self.push_event("connection_ready", fields)
    }

    /// Tells the UI the fingerprint of the peer.
    pub fn set_fingerprint(&self, fingerprint: String) -> (out: Vec<Delivery>)
        requires
            self.wf(),
        ensures
            deliveries_view(out@) == self@.event_notices(
                "fingerprint"@,
                seq![("fingerprint"@, fingerprint@)],
            ),
    {
        let mut fields = no_fields();
        push_field(&mut fields, "fingerprint", fingerprint.as_str());
        assert(pairs_view(fields@) =~= seq![("fingerprint"@, fingerprint@)]);
        self.push_event("fingerprint", fields)
    }

    /// Tells the UI that a file job failed.
    pub fn job_error(&self, id: i32, err: String, file_num: i32) -> (out: Vec<Delivery>)
        requires
            self.wf(),
        ensures
            deliveries_view(out@) == self@.event_notices(
                "job_error"@,
                seq![
                    ("id"@, int_text(id as int)),
                    ("err"@, err@),
                    ("file_num"@, int_text(file_num as int)),
                ],
            ),
    {
        let id_text = i32_text(id);
        let file_num_text = i32_text(file_num);
        let mut fields = no_fields();
        push_field(&mut fields, "id", id_text.as_str());
        push_field(&mut fields, "err", err.as_str());
        push_field(&mut fields, "file_num", file_num_text.as_str());
        assert(pairs_view(fields@) =~= seq![
            ("id"@, int_text(id as int)),
            ("err"@, err@),
            ("file_num"@, int_text(file_num as int)),
        ]);
        self.push_event("job_error", fields)
    }

    /// Tells the UI that a file job is done.
    pub fn job_done(&self, id: i32, file_num: i32) -> (out: Vec<Delivery>)
        requires
            self.wf(),
        ensures
            deliveries_view(out@) == self@.event_notices(
                "job_done"@,
                seq![("id"@, int_text(id as int)), ("file_num"@, int_text(file_num as int))],
            ),
    {
        let id_text = i32_text(id);
        let file_num_text = i32_text(file_num);
        let mut fields = no_fields();
        push_field(&mut fields, "id", id_text.as_str());
        push_field(&mut fields, "file_num", file_num_text.as_str());
        assert(pairs_view(fields@) =~= seq![
            ("id"@, int_text(id as int)),
            ("file_num"@, int_text(file_num as int)),
        ]);
        self.push_event("job_done", fields)
    }

    /// Hands the UI the file job that was interrupted last.
    pub fn load_last_job(&self, _cnt: i32, job_json: &str) -> (out: Vec<Delivery>)
        requires
            self.wf(),
        ensures
            deliveries_view(out@) == self@.event_notices(
                "load_last_job"@,
                seq![("value"@, job_json@)],
            ),
    {
        let mut fields = no_fields();
        push_field(&mut fields, "value", job_json);
        assert(pairs_view(fields@) =~= seq![("value"@, job_json@)]);
        self.push_event("load_last_job", fields)
    }

    /// Tells the UI of the entries of a folder: only how many and how large they are,
    /// where `only_count` is set, else the entries themselves. `listing` is the text of
    /// what is told.
    pub fn update_folder_files(&self, listing: &str, only_count: bool) -> (out: Vec<Delivery>)
        requires
            self.wf(),
        ensures
            deliveries_view(out@) == if only_count {
                self@.event_notices("update_folder_files"@, seq![("info"@, listing@)])
            } else {
                self@.event_notices(
                    "file_dir"@,
                    seq![("value"@, listing@), ("is_local"@, "false"@)],
                )
            },
    {
        let mut fields = no_fields();
        if only_count {
            push_field(&mut fields, "info", listing);
            assert(pairs_view(fields@) =~= seq![("info"@, listing@)]);
            self.push_event("update_folder_files", fields)
        } else {
            push_field(&mut fields, "value", listing);
            push_field(&mut fields, "is_local", "false");
            assert(pairs_view(fields@) =~= seq![("value"@, listing@), ("is_local"@, "false"@)]);
            self.push_event("file_dir", fields)
        }
    }

    /// Asks the UI whether a file may be overwritten.
    pub fn override_file_confirm(
        &self,
        id: i32,
        file_num: i32,
        to: String,
        is_upload: bool,
        is_identical: bool,
    ) -> (out: Vec<Delivery>)
        requires
            self.wf(),
        ensures
            deliveries_view(out@) == self@.event_notices(
                "override_file_confirm"@,
                seq![
                    ("id"@, int_text(id as int)),
                    ("file_num"@, int_text(file_num as int)),
                    ("read_path"@, to@),
                    ("is_upload"@, bool_text(is_upload)),
                    ("is_identical"@, bool_text(is_identical)),
                ],
            ),
    {
        let id_text = i32_text(id);
        let file_num_text = i32_text(file_num);
        let mut fields = no_fields();
        push_field(&mut fields, "id", id_text.as_str());
        push_field(&mut fields, "file_num", file_num_text.as_str());
        push_field(&mut fields, "read_path", to.as_str());
        push_field(&mut fields, "is_upload", bool_to_text(is_upload));
        push_field(&mut fields, "is_identical", bool_to_text(is_identical));
        assert(pairs_view(fields@) =~= seq![
            ("id"@, int_text(id as int)),
            ("file_num"@, int_text(file_num as int)),
            ("read_path"@, to@),
            ("is_upload"@, bool_text(is_upload)),
            ("is_identical"@, bool_text(is_identical)),
        ]);
        self.push_event("override_file_confirm", fields)
    }

    /// Tells the UI how far a file job has come. `speed` and `finished_size` are the
    /// texts of the two measures.
    pub fn job_progress(&self, id: i32, file_num: i32, speed: &str, finished_size: &str) -> (out:
        Vec<Delivery>)
        requires
            self.wf(),
        ensures
            deliveries_view(out@) == self@.event_notices(
                "job_progress"@,
                seq![
                    ("id"@, int_text(id as int)),
                    ("file_num"@, int_text(file_num as int)),
                    ("speed"@, speed@),
                    ("finished_size"@, finished_size@),
                ],
            ),
    {
        let id_text = i32_text(id);
        let file_num_text = i32_text(file_num);
        let mut fields = no_fields();
        push_field(&mut fields, "id", id_text.as_str());
        push_field(&mut fields, "file_num", file_num_text.as_str());
        push_field(&mut fields, "speed", speed);
        push_field(&mut fields, "finished_size", finished_size);
        assert(pairs_view(fields@) =~= seq![
            ("id"@, int_text(id as int)),
            ("file_num"@, int_text(file_num as int)),
            ("speed"@, speed@),
            ("finished_size"@, finished_size@),
        ]);
        self.push_event("job_progress", fields)
    }

    /// Tells the UI what the platform of the peer adds.
    pub fn set_platform_additions(&self, data: &str) -> (out: Vec<Delivery>)
        requires
            self.wf(),
        ensures
            deliveries_view(out@) == self@.event_notices(
                "sync_platform_additions"@,
                seq![("platform_additions"@, data@)],
            ),
    {
        let mut fields = no_fields();
        push_field(&mut fields, "platform_additions", data);
        assert(pairs_view(fields@) =~= seq![("platform_additions"@, data@)]);
        self.push_event("sync_platform_additions", fields)
    }

    /// Has the UI show a message box; `hasRetry` is `true` or empty.
    pub fn msgbox(&self, msgtype: &str, title: &str, text: &str, link: &str, retry: bool) -> (out:
        Vec<Delivery>)
        requires
            self.wf(),
        ensures
            deliveries_view(out@) == self@.event_notices(
                "msgbox"@,
                seq![
                    ("type"@, msgtype@),
                    ("title"@, title@),
                    ("text"@, text@),
                    ("link"@, link@),
                    ("hasRetry"@, if retry {
                        "true"@
                    } else {
                        ""@
                    }),
                ],
            ),
    {
        let has_retry = if retry {
            "true"
        } else {
            ""
        };
        let mut fields = no_fields();
        push_field(&mut fields, "type", msgtype);
        push_field(&mut fields, "title", title);
        push_field(&mut fields, "text", text);
        push_field(&mut fields, "link", link);
        push_field(&mut fields, "hasRetry", has_retry);
        assert(pairs_view(fields@) =~= seq![
            ("type"@, msgtype@),
            ("title"@, title@),
            ("text"@, text@),
            ("link"@, link@),
            ("hasRetry"@, if retry {
                "true"@
            } else {
                ""@
            }),
        ]);
        self.push_event("msgbox", fields)
    }

    /// Has the UI take a message box away.
    pub fn cancel_msgbox(&self, tag: &str) -> (out: Vec<Delivery>)
        requires
            self.wf(),
        ensures
            deliveries_view(out@) == self@.event_notices("cancel_msgbox"@, seq![("tag"@, tag@)]),
    {
        let mut fields = no_fields();
        push_field(&mut fields, "tag", tag);
        assert(pairs_view(fields@) =~= seq![("tag"@, tag@)]);
        self.push_event("cancel_msgbox", fields)
    }

    /// Hands the UI a chat message of the peer.
    pub fn new_message(&self, msg: String) -> (out: Vec<Delivery>)
        requires
            self.wf(),
        ensures
            deliveries_view(out@) == self@.event_notices(
                "chat_client_mode"@,
                seq![("text"@, msg@)],
            ),
    {
        let mut fields = no_fields();
        push_field(&mut fields, "text", msg.as_str());
        assert(pairs_view(fields@) =~= seq![("text"@, msg@)]);
        self.push_event("chat_client_mode", fields)
    }

    /// Tells the UI which display the peer shows now.
    pub fn switch_display(&self, display: &SwitchDisplay) -> (out: Vec<Delivery>)
        requires
            self.wf(),
        ensures
            deliveries_view(out@) == self@.event_notices(
                "switch_display"@,
                seq![
                    ("display"@, int_text(display.display as int)),
                    ("x"@, int_text(display.x as int)),
                    ("y"@, int_text(display.y as int)),
                    ("width"@, int_text(display.width as int)),
                    ("height"@, int_text(display.height as int)),
                    ("cursor_embedded"@, int_text(flag(display.cursor_embedded) as int)),
                    ("resolutions"@, resolutions_msg(display.resolutions@)),
                    ("original_width"@, int_text(display.original_resolution.width as int)),
                    ("original_height"@, int_text(display.original_resolution.height as int)),
                ],
            ),
    {
        let resolutions = serialize_resolutions(&display.resolutions);
        let d = i32_text(display.display);
        let x = i32_text(display.x);
        let y = i32_text(display.y);
        let width = i32_text(display.width);
        let height = i32_text(display.height);
        let cursor_embedded = i32_text(if display.cursor_embedded { 1 } else { 0 });
        let original_width = i32_text(display.original_resolution.width);
        let original_height = i32_text(display.original_resolution.height);
        let mut fields = no_fields();
        push_field(&mut fields, "display", d.as_str());
        push_field(&mut fields, "x", x.as_str());
        push_field(&mut fields, "y", y.as_str());
        push_field(&mut fields, "width", width.as_str());
        push_field(&mut fields, "height", height.as_str());
        push_field(&mut fields, "cursor_embedded", cursor_embedded.as_str());
        push_field(&mut fields, "resolutions", resolutions.as_str());
        push_field(&mut fields, "original_width", original_width.as_str());
        push_field(&mut fields, "original_height", original_height.as_str());
        assert(pairs_view(fields@) =~= seq![
            ("display"@, int_text(display.display as int)),
            ("x"@, int_text(display.x as int)),
            ("y"@, int_text(display.y as int)),
            ("width"@, int_text(display.width as int)),
            ("height"@, int_text(display.height as int)),
            ("cursor_embedded"@, int_text(flag(display.cursor_embedded) as int)),
            ("resolutions"@, resolutions_msg(display.resolutions@)),
            ("original_width"@, int_text(display.original_resolution.width as int)),
            ("original_height"@, int_text(display.original_resolution.height as int)),
        ]);
        self.push_event("switch_display", fields)
    }

    /// Tells the UI whether the peer's input is blocked.
    pub fn update_block_input_state(&self, on: bool) -> (out: Vec<Delivery>)
        requires
            self.wf(),
        ensures
            deliveries_view(out@) == self@.event_notices(
                "update_block_input_state"@,
                seq![("input_state"@, if on {
                    "on"@
                } else {
                    "off"@
                })],
            ),
    {
        let state = if on {
            "on"
        } else {
            "off"
        };
        let mut fields = no_fields();
        push_field(&mut fields, "input_state", state);
        assert(pairs_view(fields@) =~= seq![("input_state"@, if on {
            "on"@
        } else {
            "off"@
        })]);
        self.push_event("update_block_input_state", fields)
    }

    /// Hands the UI what the peer put on the clipboard.
    pub fn clipboard(&self, content: String) -> (out: Vec<Delivery>)
        requires
            self.wf(),
        ensures
            deliveries_view(out@) == self@.event_notices(
                "clipboard"@,
                seq![("content"@, content@)],
            ),
    {
        let mut fields = no_fields();
        push_field(&mut fields, "content", content.as_str());
        assert(pairs_view(fields@) =~= seq![("content"@, content@)]);
        self.push_event("clipboard", fields)
    }

    /// Tells the UI that the peer `peer_id` asks to switch sides back.
    pub fn switch_back(&self, peer_id: &str) -> (out: Vec<Delivery>)
        requires
            self.wf(),
        ensures
            deliveries_view(out@) == self@.event_notices(
                "switch_back"@,
                seq![("peer_id"@, peer_id@)],
            ),
    {
        let mut fields = no_fields();
        push_field(&mut fields, "peer_id", peer_id);
        assert(pairs_view(fields@) =~= seq![("peer_id"@, peer_id@)]);
        self.push_event("switch_back", fields)
    }

    /// Tells the UI whether the portable service runs at the peer.
    pub fn portable_service_running(&self, running: bool) -> (out: Vec<Delivery>)
        requires
            self.wf(),
        ensures
            deliveries_view(out@) == self@.event_notices(
                "portable_service_running"@,
                seq![("running"@, bool_text(running))],
            ),
    {
        let mut fields = no_fields();
        push_field(&mut fields, "running", bool_to_text(running));
        assert(pairs_view(fields@) =~= seq![("running"@, bool_text(running))]);
        self.push_event("portable_service_running", fields)
    }

    /// Tells the UI that a voice call has started.
    pub fn on_voice_call_started(&self) -> (out: Vec<Delivery>)
        requires
            self.wf(),
        ensures
            deliveries_view(out@) == self@.event_notices("on_voice_call_started"@, Seq::empty()),
    {
        self.push_event("on_voice_call_started", no_fields())
    }

    /// Tells the UI that a voice call was closed, and why.
    pub fn on_voice_call_closed(&self, reason: &str) -> (out: Vec<Delivery>)
        requires
            self.wf(),
        ensures
            deliveries_view(out@) == self@.event_notices(
                "on_voice_call_closed"@,
                seq![("reason"@, reason@)],
            ),
    {
        let mut fields = no_fields();
        push_field(&mut fields, "reason", reason);
        assert(pairs_view(fields@) =~= seq![("reason"@, reason@)]);
        self.push_event("on_voice_call_closed", fields)
    }

    /// Tells the UI that a voice call waits for the peer.
    pub fn on_voice_call_waiting(&self) -> (out: Vec<Delivery>)
        requires
            self.wf(),
        ensures
            deliveries_view(out@) == self@.event_notices("on_voice_call_waiting"@, Seq::empty()),
    {
        self.push_event("on_voice_call_waiting", no_fields())
    }

    /// Tells the UI that the peer asks for a voice call.
    pub fn on_voice_call_incoming(&self) -> (out: Vec<Delivery>)
        requires
            self.wf(),
        ensures
            deliveries_view(out@) == self@.event_notices("on_voice_call_incoming"@, Seq::empty()),
    {
        self.push_event("on_voice_call_incoming", no_fields())
    }
}

/// The member names of what the UI is told of the peer's capabilities.
pub open spec fn features_keys(pi: PeerInfoView, old_version: bool) -> Seq<Seq<char>> {
    if old_version || pi.features is Some {
        seq!["privacy_mode"@]
    } else {
        Seq::empty()
    }
}

/// What the UI is told of the peer's capabilities: for a peer of an old version that
/// it has no privacy mode, else what the peer says, if it says anything.
pub open spec fn features_values(pi: PeerInfoView, old_version: bool) -> Seq<i32> {
    if old_version {
        seq![0i32]
    } else {
        match pi.features {
            Some(f) => seq![flag(f.privacy_mode)],
            None => Seq::empty(),
        }
    }
}

/// The fields of the event that tells the UI of the peer.
pub open spec fn peer_info_fields(pi: PeerInfoView, old_version: bool) -> Seq<
    (Seq<char>, Seq<char>),
> {
    seq![
        ("username"@, pi.username),
        ("hostname"@, pi.hostname),
        ("platform"@, pi.platform),
        ("sas_enabled"@, bool_text(pi.sas_enabled)),
        ("displays"@, displays_msg(pi.displays)),
        ("version"@, pi.version),
        (
            "features"@,
            json_int_object_text(features_keys(pi, old_version), features_values(pi, old_version)),
        ),
        ("current_display"@, int_text(pi.current_display as int)),
        ("resolutions"@, resolutions_msg(pi.resolutions)),
        ("platform_additions"@, pi.platform_additions),
    ]
}

impl FlutterHandlerView {
    /// The handler after the peer has said `pi` of itself. With render targets every
    /// attachment is told whether the peer addresses displays one by one.
    pub open spec fn set_peer_info(self, pi: PeerInfoView, multi_ui_session: bool) -> FlutterHandlerView {
        let told = if self.texture_render {
            self.with_multi_display(multi_ui_session)
        } else {
            self
        };
        FlutterHandlerView { peer_info: pi, ..told }
    }
}

impl FlutterHandler {
    /// Takes what the peer says of itself, and tells the UI.
    ///
    /// `version_number` is the number of the peer's version, `privacy_version_number`
    /// that of the first version that reports its privacy mode: an older peer is taken
    /// to have none. `multi_ui_session` says whether the peer's version addresses
    /// displays one by one.
    pub fn set_peer_info(
        &mut self,
        pi: PeerInfo,
        version_number: i64,
        privacy_version_number: i64,
        multi_ui_session: bool,
    ) -> (out: Vec<Delivery>)
        requires
            old(self).wf(),
        ensures
            final(self).wf(),
            final(self)@ == old(self)@.set_peer_info(pi@, multi_ui_session),
            deliveries_view(out@) == old(self)@.event_notices(
                "peer_info"@,
                peer_info_fields(pi@, version_number < privacy_version_number),
            ),
    {
        let ghost old_version = version_number < privacy_version_number;
        let displays = make_displays_msg(&pi.displays);
        let mut feature_keys: Vec<String> = Vec::new();
        let mut feature_values: Vec<i32> = Vec::new();
        if version_number < privacy_version_number {
            feature_keys.push("privacy_mode".to_owned());
            feature_values.push(0);
        } else if let Some(f) = pi.features {
            feature_keys.push("privacy_mode".to_owned());
            feature_values.push(if f.privacy_mode { 1 } else { 0 });
        }
        assert(strings_view(feature_keys@) =~= features_keys(pi@, old_version));
        assert(feature_values@ =~= features_values(pi@, old_version));
        let features = encode_int_record(&feature_keys, &feature_values);
        let resolutions = serialize_resolutions(&pi.resolutions);
        let sas_enabled = bool_to_text(pi.sas_enabled);
        let current_display = i32_text(pi.current_display);
        let mut fields = no_fields();
        push_field(&mut fields, "username", pi.username.as_str());
        push_field(&mut fields, "hostname", pi.hostname.as_str());
        push_field(&mut fields, "platform", pi.platform.as_str());
        push_field(&mut fields, "sas_enabled", sas_enabled);
        push_field(&mut fields, "displays", displays.as_str());
        push_field(&mut fields, "version", pi.version.as_str());
        push_field(&mut fields, "features", features.as_str());
        push_field(&mut fields, "current_display", current_display.as_str());
        push_field(&mut fields, "resolutions", resolutions.as_str());
        push_field(&mut fields, "platform_additions", pi.platform_additions.as_str());
        assert(pairs_view(fields@) =~= peer_info_fields(pi@, old_version));
        let out = self.push_event("peer_info", fields);
        if self.is_texture_render() {
            self.set_support_multi_ui_session(multi_ui_session);
        }
        self.store_peer_info(pi);
        out
    }

    /// Takes the displays that the peer has now, and tells the UI.
    pub fn set_displays(&mut self, displays: Vec<DisplayInfo>) -> (out: Vec<Delivery>)
        requires
            old(self).wf(),
        ensures
            final(self).wf(),
            final(self)@ == (FlutterHandlerView {
                peer_info: PeerInfoView { displays: displays@, ..old(self)@.peer_info },
                ..old(self)@
            }),
            deliveries_view(out@) == old(self)@.event_notices(
                "sync_peer_info"@,
                seq![("displays"@, displays_msg(displays@))],
            ),
    {
        let msg = make_displays_msg(&displays);
        let mut fields = no_fields();
        push_field(&mut fields, "displays", msg.as_str());
        assert(pairs_view(fields@) =~= seq![("displays"@, displays_msg(displays@))]);
        let out = self.push_event("sync_peer_info", fields);
        self.store_displays(displays);
        out
    }
}

} // verus!
