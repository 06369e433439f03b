use remote_session::error::{
    ErrorKind, SessionError, SAME_SESSION_ID, SAME_SESSION_ID_OTHER_CONN_TYPE,
};
use remote_session::session::{PeerKey, Session};
use remote_session::sessions::{
    get_cur_peer_id, get_cur_session, get_cur_session_id, get_peer_id_by_session_id,
    get_session_by_peer_id, get_session_by_session_id, get_session_count,
    get_session_mut_by_peer_id, get_sessions,
    insert_peer_session_id, insert_session, other_sessions_running, push_session_event,
    remove_session_by_session_id, send_text_clipboard_msg, session_add, session_add_existed,
    session_get_rgba,
    session_get_rgba_size, session_next_rgba, session_on_waiting_for_image_dialog_show,
    session_register_texture, session_set_size, session_start_, session_switch_display,
    set_cur_session_id, update_text_clipboard_required, SessionCommand, Sessions,
};
use remote_session::handler::ImageRgb;
use remote_session::types::{ConnType, Delivery, EventToUI};

fn key(peer: &str, conn_type: ConnType) -> PeerKey {
    PeerKey { peer_id: peer.to_owned(), conn_type }
}

fn add(s: &mut Sessions, session_id: u128, peer: &str) -> Result<PeerKey, SessionError> {
    session_add(s, &session_id, peer, false, false, false, "", false, "pw".to_owned())
}

fn close(sink: u64) -> Delivery {
    Delivery { sink, event: EventToUI::Event("close".to_owned()) }
}

#[test]
fn session_lives_while_it_has_attachments() {
    let mut s = Sessions::new(true, true);
    assert_eq!(get_session_count(&s, "p".to_owned(), ConnType::DEFAULT_CONN), 0);
    assert!(get_session_by_peer_id(&s, "p".to_owned(), ConnType::DEFAULT_CONN).is_none());
    assert_eq!(add(&mut s, 1, "p"), Ok(key("p", ConnType::DEFAULT_CONN)));
    assert_eq!(get_session_count(&s, "p".to_owned(), ConnType::DEFAULT_CONN), 1);
    assert!(insert_peer_session_id(&mut s, "p".to_owned(), ConnType::DEFAULT_CONN, 2));
    assert!(insert_peer_session_id(&mut s, "p".to_owned(), ConnType::DEFAULT_CONN, 3));
    assert_eq!(get_session_count(&s, "p".to_owned(), ConnType::DEFAULT_CONN), 3);
    for (id, left) in [(2u128, 2usize), (1, 1)] {
        let r = remove_session_by_session_id(&mut s, &id);
        assert!(r.session.is_none());
        assert_eq!(get_session_count(&s, "p".to_owned(), ConnType::DEFAULT_CONN), left);
        assert!(get_session_by_peer_id(&s, "p".to_owned(), ConnType::DEFAULT_CONN).is_some());
        assert!(other_sessions_running(&s, "p".to_owned(), ConnType::DEFAULT_CONN));
    }
    let r = remove_session_by_session_id(&mut s, &3);
    assert_eq!(r.session.unwrap().get_id(), "p");
    assert_eq!(r.capture, None);
    assert_eq!(s.len(), 0);
    assert!(get_session_by_peer_id(&s, "p".to_owned(), ConnType::DEFAULT_CONN).is_none());
    assert!(!other_sessions_running(&s, "p".to_owned(), ConnType::DEFAULT_CONN));
    assert!(!insert_peer_session_id(&mut s, "p".to_owned(), ConnType::DEFAULT_CONN, 4));
    assert_eq!(s.len(), 0);
}

#[test]
fn detaching_an_unknown_attachment_changes_nothing() {
    let mut s = Sessions::new(true, true);
    add(&mut s, 1, "p").unwrap();
    let r = remove_session_by_session_id(&mut s, &9);
    assert!(r.session.is_none());
    assert_eq!(r.capture, None);
    assert_eq!(get_session_count(&s, "p".to_owned(), ConnType::DEFAULT_CONN), 1);
}

#[test]
fn attach_needs_a_registered_connection_of_that_kind() {
    let mut s = Sessions::new(true, true);
    add(&mut s, 1, "p").unwrap();
    assert!(!insert_peer_session_id(&mut s, "q".to_owned(), ConnType::DEFAULT_CONN, 2));
    assert!(!insert_peer_session_id(&mut s, "p".to_owned(), ConnType::FILE_TRANSFER, 2));
    assert_eq!(get_session_count(&s, "p".to_owned(), ConnType::DEFAULT_CONN), 1);
}

#[test]
fn kind_of_connection_follows_the_flags() {
    let mut s = Sessions::new(false, false);
    let mut ask = |id: u128, ft: bool, pf: bool, rdp: bool| {
        session_add(&mut s, &id, "p", ft, pf, rdp, "", false, String::new()).unwrap().conn_type
    };
    assert_eq!(ask(1, false, false, false), ConnType::DEFAULT_CONN);
    assert_eq!(ask(2, true, false, false), ConnType::FILE_TRANSFER);
    assert_eq!(ask(3, true, true, true), ConnType::FILE_TRANSFER);
    assert_eq!(ask(4, false, true, false), ConnType::PORT_FORWARD);
    assert_eq!(ask(5, false, true, true), ConnType::RDP);
    assert_eq!(ask(6, false, false, true), ConnType::DEFAULT_CONN);
    assert_eq!(s.len(), 4);
    assert_eq!(get_session_count(&s, "p".to_owned(), ConnType::DEFAULT_CONN), 2);
}

#[test]
fn attachment_id_in_use_is_a_conflict() {
    let mut s = Sessions::new(true, true);
    add(&mut s, 1, "p").unwrap();
    let same = add(&mut s, 1, "q").unwrap_err();
    assert_eq!(same, SessionError::SameSessionId);
    assert_eq!(same.kind(), ErrorKind::Conflict);
    let other =
        session_add(&mut s, &1, "p", true, false, false, "", false, String::new()).unwrap_err();
    assert_eq!(other, SessionError::SameSessionIdDifferentConnType);
    assert_eq!(other.kind(), ErrorKind::Conflict);
    assert_eq!(s.len(), 1);
    assert_eq!(get_session_count(&s, "p".to_owned(), ConnType::DEFAULT_CONN), 1);
}

#[test]
fn second_add_for_a_peer_joins_its_session() {
    let mut s = Sessions::new(true, true);
    add(&mut s, 1, "p").unwrap();
    add(&mut s, 2, "p").unwrap();
    assert_eq!(s.len(), 1);
    assert_eq!(get_session_count(&s, "p".to_owned(), ConnType::DEFAULT_CONN), 2);
}

#[test]
fn start_of_an_unknown_attachment_names_peer_and_session() {
    let mut s = Sessions::new(true, true);
    add(&mut s, 1, "p").unwrap();
    let e = session_start_(&mut s, &2, "peer-7", 50).unwrap_err();
    assert_eq!(e, SessionError::NoSession { peer_id: "peer-7".to_owned(), session_id: 2 });
    assert_eq!(e.kind(), ErrorKind::NotFound);
}

#[test]
fn first_start_starts_the_transport_loop() {
    let mut s = Sessions::new(true, true);
    add(&mut s, 1, "p").unwrap();
    let r = session_start_(&mut s, &1, "p", 50).unwrap();
    assert_eq!(r.closed, None);
    assert_eq!(r.spawn_round, Some(1));
    let session = get_session_by_session_id(&s, &1).unwrap();
    assert_eq!(session.round(), 1);
    assert!(session.is_current_round(1));
    assert!(!session.is_current_round(0));
}

#[test]
fn restart_closes_the_old_sink_and_starts_no_loop() {
    let mut s = Sessions::new(true, true);
    add(&mut s, 1, "p").unwrap();
    session_start_(&mut s, &1, "p", 50).unwrap();
    let r = session_start_(&mut s, &1, "p", 51).unwrap();
    assert_eq!(r.closed, Some(close(50)));
    assert_eq!(r.spawn_round, None);
    let r = session_start_(&mut s, &1, "p", 52).unwrap();
    assert_eq!(r.closed, Some(close(51)));
    assert_eq!(get_session_by_session_id(&s, &1).unwrap().round(), 1);
}

#[test]
fn second_window_starts_no_loop() {
    let mut s = Sessions::new(true, true);
    add(&mut s, 1, "p").unwrap();
    session_start_(&mut s, &1, "p", 50).unwrap();
    insert_peer_session_id(&mut s, "p".to_owned(), ConnType::DEFAULT_CONN, 2);
    let r = session_start_(&mut s, &2, "p", 60).unwrap();
    assert_eq!(r.closed, None);
    assert_eq!(r.spawn_round, None);
}

#[test]
fn lookups_find_the_first_owner() {
    let mut s = Sessions::new(true, true);
    add(&mut s, 1, "p").unwrap();
    session_add(&mut s, &2, "q", true, false, false, "uuid", true, "x".to_owned()).unwrap();
    assert_eq!(get_session_by_session_id(&s, &2).unwrap().get_id(), "q");
    assert_eq!(get_session_by_session_id(&s, &2).unwrap().conn_type(), ConnType::FILE_TRANSFER);
    assert!(get_session_by_session_id(&s, &3).is_none());
    assert_eq!(get_peer_id_by_session_id(&s, &2, ConnType::FILE_TRANSFER), Some("q".to_owned()));
    assert_eq!(get_peer_id_by_session_id(&s, &2, ConnType::DEFAULT_CONN), None);
    assert_eq!(
        get_sessions(&s),
        vec![key("p", ConnType::DEFAULT_CONN), key("q", ConnType::FILE_TRANSFER)]
    );
}

#[test]
fn current_session_is_remembered() {
    let mut s = Sessions::new(true, true);
    assert_eq!(get_cur_session_id(&s), 0);
    assert_eq!(get_cur_peer_id(&s), "");
    assert!(get_cur_session(&s).is_none());
    add(&mut s, 5, "p").unwrap();
    set_cur_session_id(&mut s, 5);
    assert_eq!(get_cur_session_id(&s), 5);
    assert_eq!(get_cur_peer_id(&s), "p");
    assert_eq!(get_cur_session(&s).unwrap().get_id(), "p");
}

#[test]
fn detach_captures_only_the_displays_still_viewed() {
    let mut s = Sessions::new(true, true);
    add(&mut s, 1, "p").unwrap();
    insert_peer_session_id(&mut s, "p".to_owned(), ConnType::DEFAULT_CONN, 2);
    insert_peer_session_id(&mut s, "p".to_owned(), ConnType::DEFAULT_CONN, 3);
    session_register_texture(&mut s, 1, 0, 0x10);
    session_register_texture(&mut s, 2, 1, 0x20);
    session_register_texture(&mut s, 3, 2, 0x30);
    session_register_texture(&mut s, 3, 1, 0x31);
    let r = remove_session_by_session_id(&mut s, &3);
    assert!(r.session.is_none());
    assert_eq!(r.capture, Some(vec![0, 1]));
    let r = remove_session_by_session_id(&mut s, &1);
    assert_eq!(r.capture, Some(vec![1]));
}

#[test]
fn detach_without_viewed_displays_asks_for_no_capture() {
    let mut s = Sessions::new(true, true);
    add(&mut s, 1, "p").unwrap();
    insert_peer_session_id(&mut s, "p".to_owned(), ConnType::DEFAULT_CONN, 2);
    session_register_texture(&mut s, 1, 0, 0x10);
    let r = remove_session_by_session_id(&mut s, &1);
    assert_eq!(r.capture, None);
    let mut b = Sessions::new(false, false);
    add(&mut b, 1, "p").unwrap();
    insert_peer_session_id(&mut b, "p".to_owned(), ConnType::DEFAULT_CONN, 2);
    assert_eq!(remove_session_by_session_id(&mut b, &1).capture, None);
}

#[test]
fn switch_display_decides_the_commands() {
    let mut s = Sessions::new(true, true);
    add(&mut s, 1, "p").unwrap();
    insert_peer_session_id(&mut s, "p".to_owned(), ConnType::DEFAULT_CONN, 2);
    session_register_texture(&mut s, 1, 0, 0x10);
    session_register_texture(&mut s, 2, 3, 0x20);
    assert_eq!(session_switch_display(&s, true, 9, vec![1]), vec![]);
    assert_eq!(
        session_switch_display(&s, false, 1, vec![1]),
        vec![SessionCommand::SwitchDisplay(1), SessionCommand::CaptureDisplays(vec![1])]
    );
    assert_eq!(
        session_switch_display(&s, true, 1, vec![1]),
        vec![SessionCommand::SwitchDisplay(1), SessionCommand::CaptureDisplays(vec![1, 3])]
    );
    assert_eq!(
        session_switch_display(&s, true, 1, vec![0, 1]),
        vec![SessionCommand::CaptureDisplays(vec![0, 1])]
    );
    assert_eq!(
        session_switch_display(&s, true, 1, vec![]),
        vec![SessionCommand::CaptureDisplays(vec![])]
    );
    let mut b = Sessions::new(false, false);
    add(&mut b, 1, "p").unwrap();
    assert_eq!(
        session_switch_display(&b, true, 1, vec![2]),
        vec![SessionCommand::SwitchDisplay(2)]
    );
}

#[test]
fn size_and_target_reach_the_attachment() {
    let mut s = Sessions::new(true, true);
    add(&mut s, 1, "p").unwrap();
    assert!(!session_register_texture(&mut s, 1, 0, 0x10));
    assert!(session_register_texture(&mut s, 1, 0, 0x11));
    assert!(!session_register_texture(&mut s, 7, 0, 0x11));
    session_set_size(&mut s, 1, 0, 3, 3);
    session_set_size(&mut s, 7, 0, 3, 3);
    session_on_waiting_for_image_dialog_show(&mut s, 1);
    session_on_waiting_for_image_dialog_show(&mut s, 7);
    assert_eq!(get_session_count(&s, "p".to_owned(), ConnType::DEFAULT_CONN), 1);
    let mut b = Sessions::new(false, false);
    add(&mut b, 1, "p").unwrap();
    assert!(!session_register_texture(&mut b, 1, 0, 0x10));
    assert!(!session_register_texture(&mut b, 1, 0, 0x11));
}

#[test]
fn buffers_are_read_through_the_registry() {
    let mut s = Sessions::new(false, false);
    add(&mut s, 1, "p").unwrap();
    assert_eq!(session_get_rgba_size(&s, 1, 0), 0);
    assert_eq!(session_get_rgba(&s, 1, 0), None);
    let mut img = ImageRgb { raw: vec![1, 2, 3, 4], w: 1, h: 1, stride: 4 };
    let session =
        get_session_mut_by_peer_id(&mut s, "p".to_owned(), ConnType::DEFAULT_CONN).unwrap();
    assert!(session.ui_handler_mut().on_rgba(0, &mut img).retained);
    assert!(get_session_mut_by_peer_id(&mut s, "q".to_owned(), ConnType::DEFAULT_CONN).is_none());
    assert_eq!(session_get_rgba_size(&s, 1, 0), 4);
    assert_eq!(session_get_rgba(&s, 1, 0), Some(&vec![1u8, 2, 3, 4]));
    assert_eq!(session_get_rgba(&s, 2, 0), None);
    session_next_rgba(&mut s, 1, 0);
    assert_eq!(session_get_rgba(&s, 1, 0), None);
    assert_eq!(session_get_rgba_size(&s, 1, 0), 4);
    assert_eq!(session_get_rgba_size(&s, 2, 0), 0);
}

#[test]
fn session_event_reaches_the_sinks_of_its_connection() {
    let mut s = Sessions::new(true, true);
    add(&mut s, 1, "p").unwrap();
    add(&mut s, 2, "q").unwrap();
    session_start_(&mut s, &1, "p", 50).unwrap();
    session_start_(&mut s, &2, "q", 60).unwrap();
    let out = push_session_event(&s, &2, "hello", vec![("a", "b")]);
    assert_eq!(out.len(), 1);
    assert_eq!(out[0].sink, 60);
    assert_eq!(push_session_event(&s, &3, "hello", vec![]), vec![]);
}

#[test]
fn clipboard_goes_to_the_sessions_that_take_part() {
    let mut s = Sessions::new(true, true);
    assert!(!update_text_clipboard_required(&s));
    add(&mut s, 1, "p").unwrap();
    add(&mut s, 2, "q").unwrap();
    assert!(update_text_clipboard_required(&s));
    assert_eq!(
        send_text_clipboard_msg(&s),
        vec![key("p", ConnType::DEFAULT_CONN), key("q", ConnType::DEFAULT_CONN)]
    );
    let q = get_session_mut_by_peer_id(&mut s, "q".to_owned(), ConnType::DEFAULT_CONN).unwrap();
    q.set_server_clipboard_enabled(false);
    q.set_server_keyboard_enabled(false);
    q.set_server_file_transfer_enabled(false);
    assert_eq!(send_text_clipboard_msg(&s), vec![key("p", ConnType::DEFAULT_CONN)]);
    remove_session_by_session_id(&mut s, &1);
    assert!(!update_text_clipboard_required(&s));
    assert_eq!(send_text_clipboard_msg(&s), vec![]);
}

#[test]
fn insert_session_keeps_the_registered_session() {
    let mut s = Sessions::new(true, true);
    add(&mut s, 1, "p").unwrap();
    session_start_(&mut s, &1, "p", 50).unwrap();
    let other = Session::new("p", ConnType::DEFAULT_CONN, "", false, String::new(), true, true);
    insert_session(&mut s, 2, ConnType::DEFAULT_CONN, other);
    assert_eq!(s.len(), 1);
    assert_eq!(get_session_count(&s, "p".to_owned(), ConnType::DEFAULT_CONN), 2);
    assert_eq!(get_session_by_session_id(&s, &2).unwrap().round(), 1);
}

#[test]
fn existing_default_connection_takes_one_more_attachment() {
    let mut s = Sessions::new(true, true);
    add(&mut s, 1, "p").unwrap();
    assert_eq!(session_add_existed(&mut s, "p".to_owned(), 2), Ok(()));
    assert_eq!(get_session_count(&s, "p".to_owned(), ConnType::DEFAULT_CONN), 2);
    let e = session_add_existed(&mut s, "q".to_owned(), 3).unwrap_err();
    assert_eq!(e, SessionError::NoSession { peer_id: "q".to_owned(), session_id: 3 });
    assert_eq!(e.kind(), ErrorKind::NotFound);
    assert_eq!(s.len(), 1);
    assert!(get_session_by_session_id(&s, &3).is_none());
    assert_eq!(get_session_count(&s, "p".to_owned(), ConnType::DEFAULT_CONN), 2);
}

#[test]
fn default_connection_only_takes_the_attachment() {
    let mut s = Sessions::new(true, true);
    session_add(&mut s, &1, "p", true, false, false, "", false, String::new()).unwrap();
    assert!(session_add_existed(&mut s, "p".to_owned(), 2).is_err());
    assert_eq!(get_session_count(&s, "p".to_owned(), ConnType::FILE_TRANSFER), 1);
}

#[test]
fn session_errors_have_their_words() {
    assert_eq!(
        SessionError::SameSessionIdDifferentConnType.message("x"),
        "same session id is found with different conn type?"
    );
    assert_eq!(SessionError::SameSessionId.message("x"), "same session id is found");
    assert_eq!(
        SessionError::NoSession { peer_id: "peer-7".to_owned(), session_id: 2 }.message("abc"),
        "No session with peer id peer-7, session id: abc"
    );
    assert_eq!(SAME_SESSION_ID, "same session id is found");
    assert_eq!(
        SAME_SESSION_ID_OTHER_CONN_TYPE,
        "same session id is found with different conn type?"
    );
}

#[test]
fn added_session_is_made_of_the_request() {
    let mut s = Sessions::new(false, false);
    session_add(&mut s, &1, "p", false, true, true, "uuid", true, "pw".to_owned()).unwrap();
    add(&mut s, 2, "q").unwrap();
    let p = get_session_by_session_id(&s, &1).unwrap();
    assert_eq!(p.get_id(), "p");
    assert_eq!(p.conn_type(), ConnType::RDP);
    assert_eq!(p.password(), "pw");
    assert_eq!(p.switch_uuid(), Some("uuid"));
    assert!(p.force_relay());
    assert!(p.server_keyboard_enabled());
    assert!(p.server_file_transfer_enabled());
    assert!(p.server_clipboard_enabled());
    assert_eq!(p.round(), 0);
    assert!(!p.ui_handler().is_texture_render());
    assert_eq!(p.ui_handler().handler_count(), 1);
    assert!(p.ui_handler().has_handler(1));
    let q = get_session_by_session_id(&s, &2).unwrap();
    assert_eq!(q.switch_uuid(), None);
    assert!(!q.force_relay());
}

#[test]
fn new_target_arms_the_attachment_through_the_registry() {
    let mut s = Sessions::new(true, true);
    add(&mut s, 1, "p").unwrap();
    session_start_(&mut s, &1, "p", 50).unwrap();
    let mut img = ImageRgb { raw: vec![0; 4], w: 1, h: 1, stride: 4 };
    let frame = |s: &mut Sessions, img: &mut ImageRgb| {
        get_session_mut_by_peer_id(s, "p".to_owned(), ConnType::DEFAULT_CONN)
            .unwrap()
            .ui_handler_mut()
            .on_rgba(0, img)
            .events
            .len()
    };
    assert_eq!(frame(&mut s, &mut img), 1);
    assert_eq!(frame(&mut s, &mut img), 0);
    session_register_texture(&mut s, 1, 0, 0x10);
    assert_eq!(frame(&mut s, &mut img), 1);
    assert_eq!(frame(&mut s, &mut img), 0);
    session_register_texture(&mut s, 9, 0, 0x10);
    session_register_texture(&mut s, 1, 0, 0);
    assert_eq!(frame(&mut s, &mut img), 0);
}
