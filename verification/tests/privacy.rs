use remote_session::error::ErrorKind;
use remote_session::privacy_mode::{
    check_on_conn_id, check_privacy_mode_err, clear, default_privacy_mode_impl, get_cur_impl_key,
    get_privacy_mode_conn_id,
    get_supported_impl, get_supported_privacy_mode_impl, init, is_current_privacy_mode_impl,
    is_in_privacy_mode, is_privacy_mode_supported, switch, turn_off_privacy, turn_on_refused,
    turn_on_privacy, PlatformAction, PlatformSupport, PrivacyError, PrivacyMode,
    PrivacyModeService, PrivacyModeState, INVALID_PRIVACY_MODE_CONN_ID, NO_DISPLAYS, OCCUPIED,
    PRIVACY_MODE_IMPL_WIN_EXCLUDE_FROM_CAPTURE, PRIVACY_MODE_IMPL_WIN_MAG,
    PRIVACY_MODE_IMPL_WIN_VIRTUAL_DISPLAY, TURN_OFF_OTHER_ID,
};

use remote_session::text::str_eq;

const MAG: &str = PRIVACY_MODE_IMPL_WIN_MAG;
const EXCLUDE: &str = PRIVACY_MODE_IMPL_WIN_EXCLUDE_FROM_CAPTURE;
const VIRTUAL: &str = PRIVACY_MODE_IMPL_WIN_VIRTUAL_DISPLAY;

fn platform(exclude: bool, magnifier: bool, driver: bool, installed: bool) -> PlatformSupport {
    PlatformSupport {
        windows: true,
        exclude_from_capture: exclude,
        magnifier,
        virtual_display_driver: driver,
        virtual_display_installed: installed,
    }
}

fn nothing() -> PlatformSupport {
    PlatformSupport {
        windows: false,
        exclude_from_capture: true,
        magnifier: true,
        virtual_display_driver: true,
        virtual_display_installed: true,
    }
}

fn service() -> PrivacyModeService {
    let mut s = PrivacyModeService::new(platform(false, true, true, true), String::new());
    s.take_actions();
    s
}

fn construct(key: &str) -> PlatformAction {
    PlatformAction::Construct { impl_key: key.to_owned() }
}

fn turn_on(key: &str, conn_id: i32) -> PlatformAction {
    PlatformAction::TurnOn { impl_key: key.to_owned(), conn_id }
}

#[test]
fn words_of_the_failures() {
    assert_eq!(INVALID_PRIVACY_MODE_CONN_ID, 0);
    assert_eq!(NO_DISPLAYS, "No displays");
    assert_eq!(PrivacyError::Occupied.message(), OCCUPIED);
    assert_eq!(PrivacyError::Occupied.message(), "Privacy occupied by another one");
    assert_eq!(PrivacyError::TurnOffOtherId.message(), TURN_OFF_OTHER_ID);
    assert_eq!(
        PrivacyError::Unsupported("x".to_owned()).message(),
        "Unsupported privacy mode: x"
    );
    assert_eq!(PrivacyError::Occupied.kind(), ErrorKind::Conflict);
    assert_eq!(PrivacyError::TurnOffOtherId.kind(), ErrorKind::Conflict);
    assert_eq!(
        PrivacyError::Unsupported(String::new()).kind(),
        ErrorKind::UnsupportedCapability
    );
    assert!(str_eq("a", "a"));
    assert!(!str_eq("a", "b"));
}

#[test]
fn implementation_answers_who_holds_it() {
    let p = PrivacyMode::new("k");
    assert_eq!(p.get_impl_key(), "k");
    assert_eq!(p.pre_conn_id(), 0);
    assert_eq!(p.check_on_conn_id(5), Ok(false));
    assert_eq!(p.check_on_conn_id(0), Ok(true));
    assert_eq!(p.check_off_conn_id(5), Ok(()));
}

#[test]
fn supported_implementations_follow_the_platform() {
    let list = |p: PlatformSupport| {
        get_supported_privacy_mode_impl(&PrivacyModeService::new(p, String::new()))
    };
    assert_eq!(list(nothing()), vec![]);
    assert_eq!(list(platform(false, false, false, false)), vec![]);
    assert_eq!(list(platform(true, true, false, false)), vec![(EXCLUDE, "privacy_mode_impl_mag_tip")]);
    assert_eq!(list(platform(false, true, true, false)), vec![(MAG, "privacy_mode_impl_mag_tip")]);
    assert_eq!(
        list(platform(false, true, true, true)),
        vec![
            (MAG, "privacy_mode_impl_mag_tip"),
            (VIRTUAL, "privacy_mode_impl_virtual_display_tip")
        ]
    );
    assert_eq!(
        list(platform(false, false, true, true)),
        vec![(VIRTUAL, "privacy_mode_impl_virtual_display_tip")]
    );
    assert_eq!(list(platform(false, false, false, true)), vec![]);
}

#[test]
fn default_implementation_decides_the_support() {
    let supported = |p: PlatformSupport| {
        is_privacy_mode_supported(&PrivacyModeService::new(p, String::new()))
    };
    assert!(!supported(nothing()));
    assert_eq!(default_privacy_mode_impl(&nothing()), "");
    assert_eq!(default_privacy_mode_impl(&platform(true, true, true, true)), EXCLUDE);
    assert_eq!(default_privacy_mode_impl(&platform(false, true, true, true)), MAG);
    assert_eq!(default_privacy_mode_impl(&platform(false, false, true, true)), VIRTUAL);
    assert_eq!(default_privacy_mode_impl(&platform(false, false, true, false)), "");
    assert!(!supported(platform(false, false, false, false)));
    assert!(!supported(platform(false, false, true, false)));
    assert!(supported(platform(true, false, false, false)));
    assert!(supported(platform(false, true, false, false)));
    assert!(supported(platform(false, false, true, true)));
}

#[test]
fn service_starts_with_the_configured_or_the_default_implementation() {
    let mut s = PrivacyModeService::new(platform(false, true, true, true), VIRTUAL.to_owned());
    assert_eq!(get_cur_impl_key(&s), Some(VIRTUAL.to_owned()));
    assert_eq!(s.take_actions(), vec![construct(VIRTUAL)]);
    assert_eq!(s.take_actions(), vec![]);
    let s = PrivacyModeService::new(platform(false, true, true, true), "other".to_owned());
    assert_eq!(get_cur_impl_key(&s), Some(MAG.to_owned()));
    let s = PrivacyModeService::new(platform(true, true, false, false), MAG.to_owned());
    assert_eq!(get_cur_impl_key(&s), Some(EXCLUDE.to_owned()));
    let mut s = PrivacyModeService::new(nothing(), MAG.to_owned());
    assert_eq!(get_cur_impl_key(&s), None);
    assert_eq!(get_privacy_mode_conn_id(&s), None);
    assert!(!is_in_privacy_mode(&s));
    assert_eq!(init(&mut s), None);
    assert_eq!(clear(&mut s), None);
    assert_eq!(check_on_conn_id(&s, 1), None);
    assert_eq!(turn_off_privacy(&mut s, 1, None), None);
    assert_eq!(turn_on_privacy(&mut s, MAG, 1), None);
    assert_eq!(s.take_actions(), vec![]);
}

#[test]
fn request_falls_back_to_what_can_be_offered() {
    let mut s = PrivacyModeService::new(platform(false, true, true, true), VIRTUAL.to_owned());
    assert_eq!(get_supported_impl(&s, MAG), MAG);
    assert_eq!(get_supported_impl(&s, "x"), VIRTUAL);
    assert_eq!(get_supported_impl(&s, EXCLUDE), VIRTUAL);
    s.set_option_impl_key("y".to_owned());
    assert_eq!(get_supported_impl(&s, "x"), MAG);
    let n = PrivacyModeService::new(platform(false, false, false, false), String::new());
    assert_eq!(get_supported_impl(&n, "x"), "");
}

#[test]
fn second_connection_is_refused_while_the_first_holds() {
    let mut s = service();
    assert_eq!(turn_on_privacy(&mut s, MAG, 1), Some(Ok(false)));
    assert_eq!(get_privacy_mode_conn_id(&s), Some(1));
    assert!(is_in_privacy_mode(&s));
    assert_eq!(s.take_actions(), vec![turn_on(MAG, 1)]);
    assert_eq!(turn_on_privacy(&mut s, MAG, 2), Some(Err(PrivacyError::Occupied)));
    assert_eq!(turn_on_privacy(&mut s, VIRTUAL, 2), Some(Err(PrivacyError::Occupied)));
    assert_eq!(check_on_conn_id(&s, 2), Some(Err(PrivacyError::Occupied)));
    assert_eq!(check_on_conn_id(&s, 1), Some(Ok(true)));
    assert_eq!(get_privacy_mode_conn_id(&s), Some(1));
    assert_eq!(get_cur_impl_key(&s), Some(MAG.to_owned()));
    assert_eq!(s.take_actions(), vec![]);
}

#[test]
fn release_by_a_connection_that_never_held_changes_nothing() {
    let mut s = service();
    assert_eq!(turn_off_privacy(&mut s, 2, Some(PrivacyModeState::OffByPeer)), Some(Ok(())));
    assert_eq!(s.take_actions(), vec![]);
    turn_on_privacy(&mut s, MAG, 1);
    s.take_actions();
    assert_eq!(
        turn_off_privacy(&mut s, 2, Some(PrivacyModeState::OffByPeer)),
        Some(Err(PrivacyError::TurnOffOtherId))
    );
    assert_eq!(get_privacy_mode_conn_id(&s), Some(1));
    assert_eq!(s.take_actions(), vec![]);
}

#[test]
fn same_connection_swaps_the_implementation() {
    let mut s = service();
    assert_eq!(turn_on_privacy(&mut s, MAG, 1), Some(Ok(false)));
    s.take_actions();
    assert_eq!(turn_on_privacy(&mut s, VIRTUAL, 1), Some(Ok(false)));
    assert_eq!(get_privacy_mode_conn_id(&s), Some(1));
    assert_eq!(get_cur_impl_key(&s), Some(VIRTUAL.to_owned()));
    assert!(is_current_privacy_mode_impl(&s, VIRTUAL));
    assert!(!is_current_privacy_mode_impl(&s, MAG));
    assert_eq!(
        s.take_actions(),
        vec![
            PlatformAction::Clear { impl_key: MAG.to_owned() },
            construct(VIRTUAL),
            turn_on(VIRTUAL, 1),
        ]
    );
}

#[test]
fn asking_again_for_what_one_holds_is_answered_with_true() {
    let mut s = service();
    assert_eq!(turn_on_privacy(&mut s, MAG, 1), Some(Ok(false)));
    s.take_actions();
    assert_eq!(turn_on_privacy(&mut s, MAG, 1), Some(Ok(true)));
    assert_eq!(turn_on_privacy(&mut s, "unknown", 1), Some(Ok(true)));
    assert_eq!(s.take_actions(), vec![]);
}

#[test]
fn unowned_service_installs_what_is_asked_for() {
    let mut s = service();
    assert_eq!(turn_on_privacy(&mut s, VIRTUAL, 3), Some(Ok(false)));
    assert_eq!(
        s.take_actions(),
        vec![
            PlatformAction::Clear { impl_key: MAG.to_owned() },
            construct(VIRTUAL),
            turn_on(VIRTUAL, 3),
        ]
    );
}

#[test]
fn implementation_that_cannot_be_made_is_unsupported() {
    let mut t = PrivacyModeService::new(platform(false, false, false, true), String::new());
    assert_eq!(get_cur_impl_key(&t), None);
    assert_eq!(turn_on_privacy(&mut t, "x", 1), None);
    let mut u = PrivacyModeService::new(platform(false, false, true, false), String::new());
    assert_eq!(get_cur_impl_key(&u), None);
    assert_eq!(turn_on_privacy(&mut u, VIRTUAL, 1), None);
    u.set_option_impl_key(VIRTUAL.to_owned());
    assert_eq!(turn_on_privacy(&mut u, "x", 1), None);
    switch(&mut u, VIRTUAL);
    assert_eq!(get_cur_impl_key(&u), Some(VIRTUAL.to_owned()));
    let e = turn_on_privacy(&mut u, "x", 1).unwrap().unwrap_err();
    assert_eq!(e, PrivacyError::Unsupported(String::new()));
    assert_eq!(e.kind(), ErrorKind::UnsupportedCapability);
    assert_eq!(get_privacy_mode_conn_id(&u), Some(0));
}

#[test]
fn owner_releases_with_a_reason() {
    let mut s = service();
    turn_on_privacy(&mut s, MAG, 1);
    s.take_actions();
    assert_eq!(turn_off_privacy(&mut s, 1, Some(PrivacyModeState::OffSucceeded)), Some(Ok(())));
    assert_eq!(get_privacy_mode_conn_id(&s), Some(0));
    assert!(!is_in_privacy_mode(&s));
    assert_eq!(
        s.take_actions(),
        vec![PlatformAction::TurnOff {
            impl_key: MAG.to_owned(),
            conn_id: 1,
            state: Some(PrivacyModeState::OffSucceeded),
        }]
    );
    assert_eq!(turn_on_privacy(&mut s, MAG, 2), Some(Ok(false)));
}

#[test]
fn nobody_may_release_for_anybody() {
    let mut s = service();
    turn_on_privacy(&mut s, MAG, 1);
    s.take_actions();
    assert_eq!(
        turn_off_privacy(&mut s, INVALID_PRIVACY_MODE_CONN_ID, Some(PrivacyModeState::OffUnknown)),
        Some(Ok(()))
    );
    assert_eq!(get_privacy_mode_conn_id(&s), Some(0));
    assert_eq!(
        s.take_actions(),
        vec![PlatformAction::TurnOff {
            impl_key: MAG.to_owned(),
            conn_id: 1,
            state: Some(PrivacyModeState::OffUnknown),
        }]
    );
}

#[test]
fn switch_replaces_the_implementation_and_keeps_the_owner() {
    let mut s = service();
    turn_on_privacy(&mut s, MAG, 1);
    s.take_actions();
    switch(&mut s, MAG);
    assert_eq!(s.take_actions(), vec![]);
    switch(&mut s, EXCLUDE);
    assert_eq!(get_cur_impl_key(&s), Some(MAG.to_owned()));
    assert_eq!(s.take_actions(), vec![]);
    switch(&mut s, VIRTUAL);
    assert_eq!(get_cur_impl_key(&s), Some(VIRTUAL.to_owned()));
    assert_eq!(get_privacy_mode_conn_id(&s), Some(1));
    assert_eq!(
        s.take_actions(),
        vec![PlatformAction::Clear { impl_key: MAG.to_owned() }, construct(VIRTUAL)]
    );
    switch(&mut s, VIRTUAL);
    assert_eq!(s.take_actions(), vec![]);
}

#[test]
fn switch_without_an_implementation_only_makes_one() {
    let mut s = PrivacyModeService::new(platform(false, false, true, false), String::new());
    assert_eq!(get_cur_impl_key(&s), None);
    switch(&mut s, MAG);
    assert_eq!(get_cur_impl_key(&s), Some(MAG.to_owned()));
    assert_eq!(get_privacy_mode_conn_id(&s), Some(0));
    assert_eq!(s.take_actions(), vec![construct(MAG)]);
    switch(&mut s, EXCLUDE);
    assert_eq!(get_cur_impl_key(&s), Some(MAG.to_owned()));
    assert_eq!(s.take_actions(), vec![]);
}

#[test]
fn clear_forces_the_privacy_mode_off() {
    let mut s = service();
    assert_eq!(init(&mut s), Some(Ok(())));
    turn_on_privacy(&mut s, MAG, 1);
    s.take_actions();
    assert_eq!(clear(&mut s), Some(()));
    assert_eq!(get_privacy_mode_conn_id(&s), Some(0));
    assert_eq!(get_cur_impl_key(&s), Some(MAG.to_owned()));
    assert_eq!(s.take_actions(), vec![PlatformAction::Clear { impl_key: MAG.to_owned() }]);
    assert_eq!(init(&mut s), Some(Ok(())));
    assert_eq!(s.take_actions(), vec![PlatformAction::Init { impl_key: MAG.to_owned() }]);
}

#[test]
fn only_the_magnifier_reports_the_probe_of_a_capturer() {
    let s = service();
    assert_eq!(check_privacy_mode_err(&s, 1, 0, 1000, "no capturer"), "no capturer");
    assert_eq!(check_privacy_mode_err(&s, 1, 0, 1000, ""), "");
    let v = PrivacyModeService::new(platform(false, false, true, true), String::new());
    assert_eq!(check_privacy_mode_err(&v, 1, 0, 1000, "no capturer"), "");
    let n = PrivacyModeService::new(nothing(), String::new());
    assert_eq!(check_privacy_mode_err(&n, 1, 0, 1000, "no capturer"), "");
}

#[test]
fn refusal_of_the_platform_frees_the_privacy_mode() {
    let mut s = service();
    turn_on_privacy(&mut s, MAG, 1);
    s.take_actions();
    turn_on_refused(&mut s, 2);
    assert_eq!(get_privacy_mode_conn_id(&s), Some(1));
    turn_on_refused(&mut s, 1);
    assert_eq!(get_privacy_mode_conn_id(&s), Some(0));
    assert_eq!(get_cur_impl_key(&s), Some(MAG.to_owned()));
    assert_eq!(s.take_actions(), vec![]);
    assert_eq!(turn_on_privacy(&mut s, MAG, 2), Some(Ok(false)));
}
