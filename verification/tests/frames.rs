use remote_session::handler::{FlutterHandler, ImageRgb, SessionHook};
use remote_session::renderer::{FrameOutcome, FrameShape, TextureWrite};
use remote_session::types::{Delivery, EventToUI};

fn image(raw: Vec<u8>, w: usize, h: usize) -> ImageRgb {
    ImageRgb { raw, w, h, stride: w * 4 }
}

fn rgba(sink: u64, display: usize) -> Delivery {
    Delivery { sink, event: EventToUI::Rgba(display) }
}

#[test]
fn owned_buffer_keeps_the_first_of_n_frames() {
    let mut h = FlutterHandler::new(false, false);
    h.insert_handler(1, false);
    h.start_stream(1, 70);
    let mut retained = 0;
    for i in 0..5u8 {
        let mut img = image(vec![i; 4], 1, 1);
        let d = h.on_rgba(0, &mut img);
        if d.retained {
            retained += 1;
            assert_eq!(d.events, vec![rgba(70, 0)]);
            assert_eq!(img.raw, Vec::<u8>::new());
        } else {
            assert_eq!(d.events, vec![]);
            assert_eq!(img.raw, vec![i; 4]);
        }
        assert!(d.outcomes.is_empty());
    }
    assert_eq!(retained, 1);
    assert_eq!(h.get_rgba(0), Some(&vec![0u8; 4]));
    assert_eq!(h.rgba_size(0), 4);
}

#[test]
fn owned_buffer_takes_the_next_frame_after_an_advance() {
    let mut h = FlutterHandler::new(false, false);
    h.insert_handler(1, false);
    let mut first = image(vec![1, 2, 3, 4], 1, 1);
    assert!(h.on_rgba(0, &mut first).retained);
    let mut second = image(vec![5, 6, 7, 8], 1, 1);
    assert!(!h.on_rgba(0, &mut second).retained);
    h.next_rgba(0);
    assert_eq!(h.get_rgba(0), None);
    let mut third = image(vec![9, 9, 9, 9], 1, 1);
    let d = h.on_rgba(0, &mut third);
    assert!(d.retained);
    assert_eq!(third.raw, vec![1, 2, 3, 4]);
    assert_eq!(h.get_rgba(0), Some(&vec![9u8, 9, 9, 9]));
}

#[test]
fn owned_buffer_has_one_slot_for_each_display() {
    let mut h = FlutterHandler::new(false, false);
    let mut a = image(vec![1], 1, 1);
    let mut b = image(vec![2, 2], 1, 1);
    assert!(h.on_rgba(0, &mut a).retained);
    assert!(h.on_rgba(1, &mut b).retained);
    assert_eq!(h.get_rgba(0), Some(&vec![1u8]));
    assert_eq!(h.get_rgba(1), Some(&vec![2u8, 2]));
    assert_eq!(h.get_rgba(2), None);
    assert_eq!(h.rgba_size(2), 0);
    h.next_rgba(2);
    assert_eq!(h.get_rgba(0), Some(&vec![1u8]));
}

#[test]
fn owned_buffer_notifies_every_attachment_with_a_sink() {
    let mut h = FlutterHandler::new(false, false);
    h.insert_handler(1, false);
    h.insert_handler(2, false);
    h.insert_handler(3, false);
    h.start_stream(1, 10);
    h.start_stream(3, 30);
    let mut img = image(vec![0; 4], 1, 1);
    let d = h.on_rgba(7, &mut img);
    assert_eq!(d.events, vec![rgba(10, 7), rgba(30, 7)]);
    h.next_rgba(7);
    let mut img = image(vec![0; 4], 1, 1);
    assert_eq!(h.on_rgba(7, &mut img).events, vec![rgba(10, 7), rgba(30, 7)]);
}

#[test]
fn render_target_is_notified_once_for_k_frames() {
    let mut h = FlutterHandler::new(true, true);
    h.insert_handler(1, true);
    h.start_stream(1, 5);
    h.register_texture(1, 0, 0x100);
    h.set_size(1, 0, 2, 2);
    let mut events = Vec::new();
    for _ in 0..6 {
        let mut img = image(vec![0; 16], 2, 2);
        let d = h.on_rgba(0, &mut img);
        assert_eq!(
            d.outcomes,
            vec![FrameOutcome::Write(TextureWrite {
                texture_rgba_ptr: 0x100,
                frame: FrameShape { len: 16, w: 2, h: 2, stride: 8 },
            })]
        );
        assert!(!d.retained);
        assert_eq!(img.raw, vec![0; 16]);
        events.extend(d.events);
    }
    assert_eq!(events, vec![rgba(5, 0)]);
}

#[test]
fn resize_arms_one_more_notice() {
    let mut h = FlutterHandler::new(true, true);
    h.insert_handler(1, true);
    h.start_stream(1, 5);
    let mut img = image(vec![0; 16], 2, 2);
    assert_eq!(h.on_rgba(0, &mut img).events, vec![rgba(5, 0)]);
    assert_eq!(h.on_rgba(0, &mut img).events, vec![]);
    assert!(h.set_size(1, 0, 4, 4));
    assert_eq!(h.on_rgba(1, &mut img).events, vec![rgba(5, 1)]);
    assert_eq!(h.on_rgba(1, &mut img).events, vec![]);
    assert!(h.on_waiting_for_image_dialog_show(1));
    assert_eq!(h.on_rgba(0, &mut img).events, vec![rgba(5, 0)]);
    assert_eq!(h.on_rgba(0, &mut img).events, vec![]);
}

#[test]
fn new_target_arms_one_more_notice() {
    let mut h = FlutterHandler::new(true, true);
    h.insert_handler(1, true);
    h.start_stream(1, 5);
    let mut img = image(vec![0; 4], 1, 1);
    assert_eq!(h.on_rgba(0, &mut img).events, vec![rgba(5, 0)]);
    assert_eq!(h.on_rgba(0, &mut img).events, vec![]);
    assert_eq!(h.register_texture(1, 0, 0x10), Some(false));
    assert_eq!(h.on_rgba(0, &mut img).events, vec![rgba(5, 0)]);
    assert_eq!(h.on_rgba(0, &mut img).events, vec![]);
    assert_eq!(h.register_texture(1, 0, 0x11), Some(true));
    assert_eq!(h.on_rgba(0, &mut img).events, vec![rgba(5, 0)]);
    assert_eq!(h.on_rgba(0, &mut img).events, vec![]);
    assert_eq!(h.register_texture(1, 0, 0), Some(false));
    assert_eq!(h.on_rgba(0, &mut img).events, vec![]);
}

#[test]
fn reattach_arms_one_more_notice() {
    let mut h = FlutterHandler::new(true, true);
    h.insert_handler(1, true);
    h.start_stream(1, 5);
    let mut img = image(vec![0; 4], 1, 1);
    assert_eq!(h.on_rgba(0, &mut img).events, vec![rgba(5, 0)]);
    assert!(h.remove_handler(1));
    h.insert_handler(1, true);
    h.start_stream(1, 6);
    assert_eq!(h.on_rgba(0, &mut img).events, vec![rgba(6, 0)]);
    assert_eq!(h.on_rgba(0, &mut img).events, vec![]);
}

#[test]
fn attachment_without_a_sink_stays_armed() {
    let mut h = FlutterHandler::new(true, true);
    h.insert_handler(1, true);
    let mut img = image(vec![0; 4], 1, 1);
    assert_eq!(h.on_rgba(0, &mut img).events, vec![]);
    h.start_stream(1, 9);
    assert_eq!(h.on_rgba(0, &mut img).events, vec![rgba(9, 0)]);
}

#[test]
fn every_attachment_gets_its_own_outcome() {
    let mut h = FlutterHandler::new(true, true);
    h.insert_handler(1, true);
    h.insert_handler(2, true);
    h.register_texture(2, 0, 0x20);
    h.set_size(2, 0, 1, 1);
    let mut img = image(vec![0; 4], 1, 1);
    let d = h.on_rgba(0, &mut img);
    assert_eq!(
        d.outcomes,
        vec![
            FrameOutcome::NoTarget,
            FrameOutcome::Write(TextureWrite {
                texture_rgba_ptr: 0x20,
                frame: FrameShape { len: 4, w: 1, h: 1, stride: 4 },
            }),
        ]
    );
}

#[test]
fn unknown_attachment_changes_nothing() {
    let mut h = FlutterHandler::new(true, true);
    assert!(!h.set_size(1, 0, 1, 1));
    assert_eq!(h.register_texture(1, 0, 5), None);
    assert!(!h.on_waiting_for_image_dialog_show(1));
    assert!(h.start_stream(1, 5).is_none());
    assert!(!h.remove_handler(1));
    assert_eq!(h.handler_count(), 0);
}

#[test]
fn start_stream_owes_the_old_sink_a_close() {
    let mut h = FlutterHandler::new(true, true);
    h.insert_handler(1, false);
    let first = h.start_stream(1, 5).unwrap();
    assert!(!first.was_connected);
    assert_eq!(first.closed, None);
    let second = h.start_stream(1, 6).unwrap();
    assert!(second.was_connected);
    assert_eq!(
        second.closed,
        Some(Delivery { sink: 5, event: EventToUI::Event("close".to_owned()) })
    );
    assert_eq!(
        h.close_event_stream(1),
        Some(Delivery { sink: 6, event: EventToUI::Event("close".to_owned()) })
    );
    assert_eq!(h.close_event_stream(2), None);
}

#[test]
fn remaining_displays_leave_out_one_attachment() {
    let mut h = FlutterHandler::new(true, true);
    h.insert_handler(1, true);
    h.insert_handler(2, true);
    h.insert_handler(3, true);
    h.register_texture(1, 0, 5);
    h.register_texture(2, 1, 6);
    h.register_texture(3, 1, 7);
    h.register_texture(3, 2, 8);
    assert_eq!(h.remaining_displays(None, 1), vec![1, 2]);
    assert_eq!(h.remaining_displays(None, 3), vec![0, 1]);
    assert_eq!(h.remaining_displays(Some(2), 3), vec![2, 0, 1]);
    assert_eq!(h.remaining_displays(Some(9), 9), vec![9, 0, 1, 2]);
}

#[test]
fn hooks_are_named_once() {
    let mut h = FlutterHandler::new(false, false);
    assert!(h.add_session_hook("a".to_owned(), SessionHook::OnSessionRgba));
    assert!(h.add_session_hook("b".to_owned(), SessionHook::OnSessionRgba));
    assert!(!h.add_session_hook("a".to_owned(), SessionHook::OnSessionRgba));
    assert_eq!(h.session_hook_keys(), vec!["a".to_owned(), "b".to_owned()]);
    assert_eq!(h.session_hook(&"a".to_owned()), Some(SessionHook::OnSessionRgba));
    assert_eq!(h.session_hook(&"c".to_owned()), None);
    assert!(h.remove_session_hook(&"a".to_owned()));
    assert_eq!(h.session_hook(&"a".to_owned()), None);
    assert!(!h.remove_session_hook(&"a".to_owned()));
    assert_eq!(h.session_hook_keys(), vec!["b".to_owned()]);
}
