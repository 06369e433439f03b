use remote_session::events::{flat_record, make_event};
use remote_session::handler::FlutterHandler;
use remote_session::ordered_map::OrderedMap;
use remote_session::peer::{
    make_displays_msg, serialize_resolutions, DisplayInfo, Features, PeerInfo, Resolution,
};
use remote_session::text::{bool_to_text, i32_text, i64_text, join, u64_text, usize_text};
use remote_session::types::{Delivery, EventToUI};
use remote_session::ui_events::{
    make_fps_text, CursorData, CursorPosition, QualityStatus, SwitchDisplay,
};

fn text_of(d: &Delivery) -> String {
    match &d.event {
        EventToUI::Event(t) => t.clone(),
        EventToUI::Rgba(_) => panic!("not an event"),
    }
}

fn json(text: &str) -> serde_json::Value {
    serde_json::from_str(text).unwrap()
}

fn attached() -> FlutterHandler {
    let mut h = FlutterHandler::new(true, true);
    h.insert_handler(1, false);
    h.start_stream(1, 10);
    h
}

fn only_event(out: Vec<Delivery>) -> serde_json::Value {
    assert_eq!(out.len(), 1);
    assert_eq!(out[0].sink, 10);
    json(&text_of(&out[0]))
}

#[test]
fn decimal_text_is_that_of_the_standard_library() {
    for x in [0i64, 1, 9, 10, 11, 99, 100, 12345, -1, -10, i64::MAX, i64::MIN, i64::MIN + 1] {
        assert_eq!(i64_text(x), x.to_string());
    }
    for x in [0u64, 7, 10, 1000, u64::MAX] {
        assert_eq!(u64_text(x), x.to_string());
    }
    for x in [0i32, -7, i32::MAX, i32::MIN] {
        assert_eq!(i32_text(x), x.to_string());
    }
    assert_eq!(usize_text(usize::MAX), usize::MAX.to_string());
    assert_eq!(bool_to_text(true), "true");
    assert_eq!(bool_to_text(false), "false");
}

#[test]
fn join_puts_the_separator_between() {
    assert_eq!(join(&vec![], ","), "");
    assert_eq!(join(&vec!["a".to_owned()], ","), "a");
    assert_eq!(join(&vec!["a".to_owned(), "".to_owned(), "c".to_owned()], ","), "a,,c");
    assert_eq!(join(&vec!["a".to_owned(), "b".to_owned()], ", "), "a, b");
}

#[test]
fn event_is_one_flat_record_with_its_name() {
    let text = make_event("msgbox", &vec![("type", "info"), ("text", "hi \"there\"")]);
    assert_eq!(text, "{\"type\":\"info\",\"text\":\"hi \\\"there\\\"\",\"name\":\"msgbox\"}");
    assert_eq!(make_event("ping", &vec![]), "{\"name\":\"ping\"}");
}

#[test]
fn later_field_and_the_name_win() {
    let text = make_event("n", &vec![("a", "1"), ("name", "x"), ("a", "2")]);
    let v = json(&text);
    assert_eq!(v["a"], "2");
    assert_eq!(v["name"], "n");
    assert_eq!(v.as_object().unwrap().len(), 2);
    let record = flat_record("n", &vec![("a", "1"), ("name", "x"), ("a", "2")]);
    assert_eq!(record.keys_vec(), &vec!["a".to_owned(), "name".to_owned()]);
    assert_eq!(record.values_vec(), &vec!["2".to_owned(), "n".to_owned()]);
}

#[test]
fn event_goes_to_every_sink_in_order() {
    let mut h = FlutterHandler::new(true, true);
    h.insert_handler(3, false);
    h.insert_handler(1, false);
    h.insert_handler(2, false);
    h.start_stream(3, 30);
    h.start_stream(2, 20);
    let out = h.push_event("e", vec![("k", "v")]);
    assert_eq!(out.len(), 2);
    assert_eq!(out[0].sink, 30);
    assert_eq!(out[1].sink, 20);
    assert_eq!(text_of(&out[0]), "{\"k\":\"v\",\"name\":\"e\"}");
    assert_eq!(out[0].event, out[1].event);
    assert_eq!(FlutterHandler::new(true, true).push_event("e", vec![]), vec![]);
}

#[test]
fn displays_are_told_as_an_array_of_records() {
    let displays = vec![
        DisplayInfo {
            x: 0,
            y: -5,
            width: 1920,
            height: 1080,
            cursor_embedded: true,
            original_resolution: None,
        },
        DisplayInfo {
            x: 1920,
            y: 0,
            width: 800,
            height: 600,
            cursor_embedded: false,
            original_resolution: Some(Resolution { width: 1600, height: 1200 }),
        },
    ];
    let v = json(&make_displays_msg(&displays));
    let a = v.as_array().unwrap();
    assert_eq!(a.len(), 2);
    assert_eq!(a[0]["x"], 0);
    assert_eq!(a[0]["y"], -5);
    assert_eq!(a[0]["width"], 1920);
    assert_eq!(a[0]["height"], 1080);
    assert_eq!(a[0]["cursor_embedded"], 1);
    assert_eq!(a[0].as_object().unwrap().len(), 5);
    assert_eq!(a[1]["cursor_embedded"], 0);
    assert_eq!(a[1]["original_width"], 1600);
    assert_eq!(a[1]["original_height"], 1200);
    assert_eq!(a[1].as_object().unwrap().len(), 7);
    assert_eq!(make_displays_msg(&vec![]), "[]");
}

#[test]
fn resolutions_are_told_width_first() {
    let text = serialize_resolutions(&vec![
        Resolution { width: 1, height: 2 },
        Resolution { width: 30, height: 40 },
    ]);
    assert_eq!(text, "[{\"width\":1,\"height\":2},{\"width\":30,\"height\":40}]");
    assert_eq!(serialize_resolutions(&vec![]), "[]");
}

#[test]
fn frames_per_second_are_told_by_display() {
    let mut fps: OrderedMap<usize, i32> = OrderedMap::new();
    fps.insert(0, 30);
    fps.insert(12, 25);
    assert_eq!(make_fps_text(&fps), "{\"0\":30,\"12\":25}");
    assert_eq!(make_fps_text(&OrderedMap::new()), "{}");
}

#[test]
fn cursor_events_carry_their_numbers() {
    let h = attached();
    let v = only_event(h.set_cursor_data(CursorData {
        id: 77,
        hotx: 1,
        hoty: -2,
        width: 32,
        height: 16,
        colors: vec![0, 255, 7],
    }));
    assert_eq!(v["name"], "cursor_data");
    assert_eq!(v["id"], "77");
    assert_eq!(v["hotx"], "1");
    assert_eq!(v["hoty"], "-2");
    assert_eq!(v["width"], "32");
    assert_eq!(v["height"], "16");
    assert_eq!(v["colors"], "[0,255,7]");
    let v = only_event(h.set_cursor_data(CursorData {
        id: 0,
        hotx: 0,
        hoty: 0,
        width: 0,
        height: 0,
        colors: vec![],
    }));
    assert_eq!(v["colors"], "[]");
    let v = only_event(h.set_cursor_data(CursorData {
        id: 0,
        hotx: 0,
        hoty: 0,
        width: 0,
        height: 0,
        colors: vec![9],
    }));
    assert_eq!(v["colors"], "[9]");
    let v = only_event(h.set_cursor_id("9".to_owned()));
    assert_eq!(v["name"], "cursor_id");
    assert_eq!(v["id"], "9");
    let v = only_event(h.set_cursor_position(CursorPosition { x: -3, y: 4 }));
    assert_eq!(v["name"], "cursor_position");
    assert_eq!(v["x"], "-3");
    assert_eq!(v["y"], "4");
}

#[test]
fn quality_status_tells_what_is_known() {
    let h = attached();
    let mut fps: OrderedMap<usize, i32> = OrderedMap::new();
    fps.insert(1, 60);
    let v = only_event(h.update_quality_status(QualityStatus {
        speed: Some("1kB/s".to_owned()),
        fps,
        delay: Some(12),
        target_bitrate: None,
        codec_format: Some("VP9".to_owned()),
        chroma: None,
    }));
    assert_eq!(v["name"], "update_quality_status");
    assert_eq!(v["speed"], "1kB/s");
    assert_eq!(v["fps"], "{\"1\":60}");
    assert_eq!(v["delay"], "12");
    assert_eq!(v["target_bitrate"], "");
    assert_eq!(v["codec_format"], "VP9");
    assert_eq!(v["chroma"], "");
}

#[test]
fn peer_info_is_stored_and_told() {
    let mut h = attached();
    h.insert_handler(2, false);
    let pi = PeerInfo {
        username: "u".to_owned(),
        hostname: "h".to_owned(),
        platform: "Linux".to_owned(),
        sas_enabled: true,
        displays: vec![],
        version: "1.2.3".to_owned(),
        features: Some(Features { privacy_mode: true }),
        current_display: 1,
        resolutions: vec![Resolution { width: 3, height: 4 }],
        platform_additions: "{}".to_owned(),
    };
    let v = only_event(h.set_peer_info(pi, 1002030, 1002000, true));
    assert_eq!(v["name"], "peer_info");
    assert_eq!(v["username"], "u");
    assert_eq!(v["hostname"], "h");
    assert_eq!(v["platform"], "Linux");
    assert_eq!(v["sas_enabled"], "true");
    assert_eq!(v["displays"], "[]");
    assert_eq!(v["version"], "1.2.3");
    assert_eq!(v["features"], "{\"privacy_mode\":1}");
    assert_eq!(v["current_display"], "1");
    assert_eq!(v["resolutions"], "[{\"width\":3,\"height\":4}]");
    assert_eq!(v["platform_additions"], "{}");
    assert_eq!(h.peer_info().version, "1.2.3");
    assert!(h.is_support_multi_ui_session());
}

#[test]
fn old_peer_is_told_to_have_no_privacy_mode() {
    let mut h = attached();
    let mut pi = PeerInfo::new();
    pi.features = Some(Features { privacy_mode: true });
    let v = only_event(h.set_peer_info(pi, 1001009, 1002000, false));
    assert_eq!(v["features"], "{\"privacy_mode\":0}");
    assert!(!h.is_support_multi_ui_session());
    let v = only_event(h.set_peer_info(PeerInfo::new(), 1002000, 1002000, false));
    assert_eq!(v["features"], "{}");
    let mut b = FlutterHandler::new(false, false);
    b.set_peer_info(PeerInfo::new(), 1002040, 1002000, true);
    assert!(!b.is_support_multi_ui_session());
}

#[test]
fn new_displays_are_stored_and_told() {
    let mut h = attached();
    let d = DisplayInfo {
        x: 1,
        y: 2,
        width: 3,
        height: 4,
        cursor_embedded: false,
        original_resolution: None,
    };
    let v = only_event(h.set_displays(vec![d]));
    assert_eq!(v["name"], "sync_peer_info");
    assert_eq!(
        v["displays"],
        "[{\"x\":1,\"y\":2,\"width\":3,\"height\":4,\"cursor_embedded\":0}]"
    );
    assert_eq!(h.peer_info().displays, vec![d]);
}

#[test]
fn switch_display_tells_the_new_display() {
    let h = attached();
    let v = only_event(h.switch_display(&SwitchDisplay {
        display: 2,
        x: 10,
        y: 20,
        width: 30,
        height: 40,
        cursor_embedded: true,
        resolutions: vec![],
        original_resolution: Resolution { width: 50, height: 60 },
    }));
    assert_eq!(v["name"], "switch_display");
    assert_eq!(v["display"], "2");
    assert_eq!(v["x"], "10");
    assert_eq!(v["y"], "20");
    assert_eq!(v["width"], "30");
    assert_eq!(v["height"], "40");
    assert_eq!(v["cursor_embedded"], "1");
    assert_eq!(v["resolutions"], "[]");
    assert_eq!(v["original_width"], "50");
    assert_eq!(v["original_height"], "60");
}

#[test]
fn small_events_have_their_names_and_fields() {
    let h = attached();
    let v = only_event(h.update_privacy_mode());
    assert_eq!(v["name"], "update_privacy_mode");
    assert_eq!(v.as_object().unwrap().len(), 1);
    let v = only_event(h.set_permission("keyboard", false));
    assert_eq!(v["name"], "permission");
    assert_eq!(v["keyboard"], "false");
    let v = only_event(h.set_connection_type(true, false));
    assert_eq!(v["name"], "connection_ready");
    assert_eq!(v["secure"], "true");
    assert_eq!(v["direct"], "false");
    let v = only_event(h.set_fingerprint("ab".to_owned()));
    assert_eq!(v["fingerprint"], "ab");
    let v = only_event(h.set_platform_additions("{\"a\":1}"));
    assert_eq!(v["name"], "sync_platform_additions");
    assert_eq!(v["platform_additions"], "{\"a\":1}");
    let v = only_event(h.msgbox("t", "title", "text", "link", true));
    assert_eq!(v["type"], "t");
    assert_eq!(v["title"], "title");
    assert_eq!(v["text"], "text");
    assert_eq!(v["link"], "link");
    assert_eq!(v["hasRetry"], "true");
    assert_eq!(only_event(h.msgbox("t", "", "", "", false))["hasRetry"], "");
    assert_eq!(only_event(h.cancel_msgbox("x"))["tag"], "x");
    let v = only_event(h.new_message("hi".to_owned()));
    assert_eq!(v["name"], "chat_client_mode");
    assert_eq!(v["text"], "hi");
    assert_eq!(only_event(h.update_block_input_state(true))["input_state"], "on");
    assert_eq!(only_event(h.update_block_input_state(false))["input_state"], "off");
    assert_eq!(only_event(h.clipboard("c".to_owned()))["content"], "c");
    assert_eq!(only_event(h.switch_back("p"))["peer_id"], "p");
    assert_eq!(only_event(h.portable_service_running(true))["running"], "true");
    assert_eq!(only_event(h.on_voice_call_started())["name"], "on_voice_call_started");
    let v = only_event(h.on_voice_call_closed("bye"));
    assert_eq!(v["name"], "on_voice_call_closed");
    assert_eq!(v["reason"], "bye");
    assert_eq!(only_event(h.on_voice_call_waiting())["name"], "on_voice_call_waiting");
    assert_eq!(only_event(h.on_voice_call_incoming())["name"], "on_voice_call_incoming");
}

#[test]
fn file_job_events_have_their_names_and_fields() {
    let h = attached();
    let v = only_event(h.job_error(3, "denied".to_owned(), 4));
    assert_eq!(v["name"], "job_error");
    assert_eq!(v["id"], "3");
    assert_eq!(v["err"], "denied");
    assert_eq!(v["file_num"], "4");
    let v = only_event(h.job_done(-3, 0));
    assert_eq!(v["name"], "job_done");
    assert_eq!(v["id"], "-3");
    assert_eq!(v["file_num"], "0");
    let v = only_event(h.load_last_job(1, "{}"));
    assert_eq!(v["name"], "load_last_job");
    assert_eq!(v["value"], "{}");
    let v = only_event(h.update_folder_files("{\"n\":1}", true));
    assert_eq!(v["name"], "update_folder_files");
    assert_eq!(v["info"], "{\"n\":1}");
    let v = only_event(h.update_folder_files("[]", false));
    assert_eq!(v["name"], "file_dir");
    assert_eq!(v["value"], "[]");
    assert_eq!(v["is_local"], "false");
    let v = only_event(h.override_file_confirm(1, 2, "/p".to_owned(), true, false));
    assert_eq!(v["name"], "override_file_confirm");
    assert_eq!(v["id"], "1");
    assert_eq!(v["file_num"], "2");
    assert_eq!(v["read_path"], "/p");
    assert_eq!(v["is_upload"], "true");
    assert_eq!(v["is_identical"], "false");
    let v = only_event(h.job_progress(1, 2, "1.5", "300"));
    assert_eq!(v["name"], "job_progress");
    assert_eq!(v["speed"], "1.5");
    assert_eq!(v["finished_size"], "300");
}
