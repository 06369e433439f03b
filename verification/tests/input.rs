use remote_session::files::{make_fd_flutter, FdEntry, FileEntry};
use remote_session::input::{
    pointer_fields_command, session_send_pointer, session_send_touch_event, Modifiers,
    PointerFields, TouchCommand,
};
use remote_session::ordered_map::OrderedMap;
use remote_session::sessions::{session_add, Sessions};

fn sessions() -> Sessions {
    let mut s = Sessions::new(true, true);
    session_add(&mut s, &1, "p", false, false, false, "", false, String::new()).unwrap();
    s
}

fn keys(alt: bool, ctrl: bool, shift: bool, command: bool) -> Modifiers {
    Modifiers { alt, ctrl, shift, command }
}

#[test]
fn scale_touch_is_read_from_the_message() {
    let s = sessions();
    let msg = "{\"k\":\"touch\",\"v\":{\"t\":\"scale\",\"v\":-120},\"alt\":\"\"}";
    assert_eq!(
        session_send_pointer(&s, 1, msg.to_owned()),
        Some(TouchCommand::Scale { scale: -120, keys: keys(true, false, false, false) })
    );
}

#[test]
fn pan_touch_is_read_from_the_message() {
    let s = sessions();
    let msg =
        "{\"k\":\"touch\",\"v\":{\"t\":\"pan_update\",\"v\":{\"x\":3,\"y\":-4}},\"ctrl\":1,\"command\":null}";
    assert_eq!(
        session_send_pointer(&s, 1, msg.to_owned()),
        Some(TouchCommand::Pan {
            event: "pan_update".to_owned(),
            x: 3,
            y: -4,
            keys: keys(false, true, false, true),
        })
    );
}

#[test]
fn message_that_is_no_touch_asks_for_nothing() {
    let s = sessions();
    for msg in [
        "",
        "not json",
        "[1,2]",
        "{}",
        "{\"k\":\"touch\"}",
        "{\"k\":\"mouse\",\"v\":{\"t\":\"scale\",\"v\":1}}",
        "{\"k\":5,\"v\":{\"t\":\"scale\",\"v\":1}}",
        "{\"k\":\"touch\",\"v\":{\"v\":1}}",
        "{\"k\":\"touch\",\"v\":{\"t\":\"scale\",\"v\":\"1\"}}",
        "{\"k\":\"touch\",\"v\":{\"t\":\"scale\",\"v\":1.5}}",
        "{\"k\":\"touch\",\"v\":{\"t\":\"pan_start\",\"v\":{\"x\":1}}}",
        "{\"k\":\"touch\",\"v\":{\"t\":\"pan_start\",\"v\":7}}",
        "{\"k\":\"touch\",\"v\":{\"t\":\"pan_start\"}}",
    ] {
        assert_eq!(session_send_pointer(&s, 1, msg.to_owned()), None);
    }
}

#[test]
fn touch_for_an_unknown_attachment_asks_for_nothing() {
    let s = sessions();
    let msg = "{\"k\":\"touch\",\"v\":{\"t\":\"scale\",\"v\":1}}";
    assert_eq!(session_send_pointer(&s, 2, msg.to_owned()), None);
}

#[test]
fn large_numbers_are_cut_to_32_bits() {
    let f = PointerFields {
        alt: false,
        ctrl: false,
        shift: true,
        command: false,
        k: None,
        t: Some("scale".to_owned()),
        scale: Some(0x1_0000_0005),
        x: None,
        y: None,
    };
    assert_eq!(
        session_send_touch_event(&f),
        Some(TouchCommand::Scale { scale: 5, keys: keys(false, false, true, false) })
    );
    assert_eq!(pointer_fields_command(&f), None);
    let pan = PointerFields {
        alt: false,
        ctrl: false,
        shift: false,
        command: false,
        k: Some("touch".to_owned()),
        t: Some("pan_end".to_owned()),
        scale: None,
        x: Some(-1),
        y: Some(0xffff_ffff),
    };
    assert_eq!(
        pointer_fields_command(&pan),
        Some(TouchCommand::Pan {
            event: "pan_end".to_owned(),
            x: -1,
            y: -1,
            keys: keys(false, false, false, false),
        })
    );
}

#[test]
fn folder_is_told_with_its_entries_or_its_count() {
    let entries = vec![
        FileEntry { entry_type: 0, name: "a".to_owned(), size: 10, modified_time: 100 },
        FileEntry { entry_type: 4, name: "b".to_owned(), size: 32, modified_time: 200 },
    ];
    let fd = make_fd_flutter(9, &entries, false);
    assert_eq!(fd.id, 9);
    assert_eq!(fd.total_size, 42);
    assert_eq!(fd.num_entries, None);
    assert_eq!(
        fd.entries,
        Some(vec![
            FdEntry { name: "a".to_owned(), entry_type: 1, time: 100, size: 10 },
            FdEntry { name: "b".to_owned(), entry_type: 4, time: 200, size: 32 },
        ])
    );
    let count = make_fd_flutter(9, &entries, true);
    assert_eq!(count.total_size, 42);
    assert_eq!(count.num_entries, Some(2));
    assert_eq!(count.entries, None);
    let none = make_fd_flutter(1, &vec![], false);
    assert_eq!(none.total_size, 0);
    assert_eq!(none.entries, Some(vec![]));
}

#[test]
fn total_size_wraps_as_a_64_bit_counter() {
    let entries = vec![
        FileEntry { entry_type: 1, name: String::new(), size: u64::MAX, modified_time: 0 },
        FileEntry { entry_type: 1, name: String::new(), size: 3, modified_time: 0 },
    ];
    assert_eq!(make_fd_flutter(0, &entries, true).total_size, 2);
}

#[test]
fn ordered_map_keeps_the_order_of_first_insertion() {
    let mut m: OrderedMap<u128, String> = OrderedMap::new();
    assert!(m.is_empty());
    assert_eq!(m.insert(3, "c".to_owned()), None);
    assert_eq!(m.insert(1, "a".to_owned()), None);
    assert_eq!(m.insert(3, "C".to_owned()), Some("c".to_owned()));
    assert_eq!(m.len(), 2);
    assert_eq!(m.keys_vec(), &vec![3, 1]);
    assert_eq!(m.values_vec(), &vec!["C".to_owned(), "a".to_owned()]);
    assert_eq!(m.position(&1), Some(1));
    assert_eq!(m.position(&2), None);
    assert!(m.contains_key(&3));
    assert_eq!(m.get(&1), Some(&"a".to_owned()));
    assert_eq!(m.get(&2), None);
    assert_eq!(m.key_at(0), &3);
    assert_eq!(m.value_at(0), "C");
    m.value_at_mut(1).push('!');
    assert_eq!(m.get(&1), Some(&"a!".to_owned()));
    assert_eq!(m.remove(&2), None);
    assert_eq!(m.remove(&3), Some("C".to_owned()));
    assert_eq!(m.keys_vec(), &vec![1]);
    assert_eq!(m.remove_at(0), (1, "a!".to_owned()));
    assert!(m.is_empty());
}
