use remote_session::connection_manager::{
    add_connection, change_language, change_theme, file_transfer_log, new_message,
    remove_connection, show_elevation, update_voice_call_state,
};
use remote_session::global::{
    cm_push_event, first_app_type, get_global_event_channels, handle_query_onlines,
    push_global_event, start_global_event_stream, stop_global_event_stream, GlobalEventStreams,
    APP_TYPE_DESKTOP_CM, APP_TYPE_MAIN,
};
use remote_session::types::{Delivery, EventToUI};

fn event(sink: u64, text: &str) -> Option<Delivery> {
    Some(Delivery { sink, event: EventToUI::Event(text.to_owned()) })
}

fn cm() -> GlobalEventStreams {
    let mut g = GlobalEventStreams::new(false);
    start_global_event_stream(&mut g, 4, "cm".to_owned());
    g
}

#[test]
fn first_app_type_is_the_text_before_the_comma() {
    assert_eq!(first_app_type("main"), "main");
    assert_eq!(first_app_type("main,0"), "main");
    assert_eq!(first_app_type(",x"), "");
    assert_eq!(first_app_type(""), "");
    assert_eq!(first_app_type("a,b,c"), "a");
    assert_eq!(first_app_type("\u{e9}t\u{e9},1"), "\u{e9}t\u{e9}");
}

#[test]
fn push_without_a_channel_delivers_nothing() {
    let g = GlobalEventStreams::new(false);
    assert_eq!(push_global_event(&g, "main", "x".to_owned()), None);
    assert_eq!(get_global_event_channels(&g), Vec::<String>::new());
}

#[test]
fn started_channel_gets_the_event() {
    let mut g = GlobalEventStreams::new(false);
    assert_eq!(start_global_event_stream(&mut g, 1, "main".to_owned()), None);
    assert_eq!(push_global_event(&g, "main", "x".to_owned()), event(1, "x"));
    assert_eq!(push_global_event(&g, "cm", "x".to_owned()), None);
    assert_eq!(get_global_event_channels(&g), vec!["main".to_owned()]);
}

#[test]
fn second_stream_of_a_type_goes_under_the_whole_name() {
    let mut g = GlobalEventStreams::new(false);
    assert_eq!(start_global_event_stream(&mut g, 1, "main,1".to_owned()), None);
    assert_eq!(get_global_event_channels(&g), vec!["main".to_owned()]);
    assert_eq!(start_global_event_stream(&mut g, 2, "main,2".to_owned()), None);
    assert_eq!(
        get_global_event_channels(&g),
        vec!["main".to_owned(), "main,2".to_owned()]
    );
    assert_eq!(start_global_event_stream(&mut g, 3, "main,2".to_owned()), Some(2));
    assert_eq!(start_global_event_stream(&mut g, 4, "main".to_owned()), Some(1));
    assert_eq!(push_global_event(&g, "main", "e".to_owned()), event(4, "e"));
    assert_eq!(push_global_event(&g, "main,2", "e".to_owned()), event(3, "e"));
}

#[test]
fn stopped_channel_gets_nothing() {
    let mut g = GlobalEventStreams::new(false);
    start_global_event_stream(&mut g, 1, "main".to_owned());
    start_global_event_stream(&mut g, 2, "cm".to_owned());
    assert_eq!(stop_global_event_stream(&mut g, "main".to_owned()), Some(1));
    assert_eq!(stop_global_event_stream(&mut g, "main".to_owned()), None);
    assert_eq!(push_global_event(&g, "main", "x".to_owned()), None);
    assert_eq!(get_global_event_channels(&g), vec!["cm".to_owned()]);
}

#[test]
fn connection_manager_has_its_channel_on_a_desktop() {
    assert_eq!(APP_TYPE_MAIN, "main");
    assert_eq!(APP_TYPE_DESKTOP_CM, "cm");
    let mut desktop = GlobalEventStreams::new(false);
    assert_eq!(desktop.app_type_cm(), "cm");
    start_global_event_stream(&mut desktop, 1, "main".to_owned());
    assert_eq!(cm_push_event(&desktop, "e", vec![]), None);
    start_global_event_stream(&mut desktop, 2, "cm".to_owned());
    assert_eq!(cm_push_event(&desktop, "e", vec![]), event(2, "{\"name\":\"e\"}"));
    let mut mobile = GlobalEventStreams::new(true);
    assert_eq!(mobile.app_type_cm(), "main");
    start_global_event_stream(&mut mobile, 3, "main".to_owned());
    assert_eq!(cm_push_event(&mobile, "e", vec![]), event(3, "{\"name\":\"e\"}"));
}

#[test]
fn online_states_are_told_on_the_main_channel() {
    let mut g = GlobalEventStreams::new(false);
    let on = vec!["a".to_owned(), "b".to_owned()];
    assert_eq!(handle_query_onlines(&g, on.clone(), vec![]), None);
    start_global_event_stream(&mut g, 1, "main".to_owned());
    assert_eq!(
        handle_query_onlines(&g, on, vec!["c".to_owned()]),
        event(
            1,
            "{\"onlines\":\"a,b\",\"offlines\":\"c\",\"name\":\"callback_query_onlines\"}"
        )
    );
}

#[test]
fn connection_manager_events_have_their_names_and_fields() {
    let g = cm();
    assert_eq!(
        add_connection(&g, "{\"id\":1}"),
        event(4, "{\"client\":\"{\\\"id\\\":1}\",\"name\":\"add_connection\"}")
    );
    assert_eq!(
        remove_connection(&g, 7, true),
        event(4, "{\"id\":\"7\",\"close\":\"true\",\"name\":\"on_client_remove\"}")
    );
    assert_eq!(
        new_message(&g, -1, "hi".to_owned()),
        event(4, "{\"id\":\"-1\",\"text\":\"hi\",\"name\":\"chat_server_mode\"}")
    );
    assert_eq!(
        change_theme(&g, "Y".to_owned()),
        event(4, "{\"dark\":\"Y\",\"name\":\"theme\"}")
    );
    assert_eq!(change_language(&g), event(4, "{\"name\":\"language\"}"));
    assert_eq!(
        show_elevation(&g, false),
        event(4, "{\"show\":\"false\",\"name\":\"show_elevation\"}")
    );
    assert_eq!(
        update_voice_call_state(&g, "{}"),
        event(4, "{\"client\":\"{}\",\"name\":\"update_voice_call_state\"}")
    );
    assert_eq!(
        file_transfer_log(&g, "send", "a.txt"),
        event(4, "{\"send\":\"a.txt\",\"name\":\"cm_file_transfer_log\"}")
    );
    assert_eq!(change_language(&GlobalEventStreams::new(false)), None);
}
