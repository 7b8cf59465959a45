use toast_registrar::deregister;
use toast_registrar::register;
use toast_registrar::registration::ToastError;
use toast_registrar::system::SystemState;

const CLSID: &str = "11111111-2222-3333-4444-555555555555";
const EXE: &str = "C:\\apps\\demo\\demo.exe";
const APPDATA: &str = "C:\\Users\\someone\\AppData\\Roaming";

fn fresh_state() -> SystemState {
    SystemState::new(EXE.to_string(), APPDATA.to_string())
}

#[test]
fn register_returns_shortcut_path_named_by_app_name() {
    let mut state = fresh_state();
    let path = register(&mut state, "a.b.c", CLSID, Some("Demo")).unwrap();
    assert!(path.ends_with("Demo.lnk"));
    assert_eq!(
        path,
        "C:\\Users\\someone\\AppData\\Roaming\\Microsoft\\Windows\\Start Menu\\Programs\\Demo.lnk"
    );
}

#[test]
fn register_creates_clsid_record_with_appid_value() {
    let mut state = fresh_state();
    register(&mut state, "a.b.c", CLSID, Some("Demo")).unwrap();
    let key = toast_registrar::naming::clsid_key_path(CLSID);
    assert_eq!(
        key,
        "Software\\Classes\\CLSID\\{11111111-2222-3333-4444-555555555555}"
    );
    let record = state.com_classes.get(&key).expect("activation-server record");
    assert_eq!(record.app_id, CLSID);
}

#[test]
fn register_writes_exact_local_server_command() {
    let mut state = fresh_state();
    register(&mut state, "a.b.c", CLSID, Some("Demo")).unwrap();
    let key = toast_registrar::naming::clsid_key_path(CLSID);
    let record = state.com_classes.get(&key).unwrap();
    assert_eq!(
        record.local_server,
        "\"C:\\apps\\demo\\demo.exe\" -ToastActivated"
    );
}

#[test]
fn register_writes_empty_dll_surrogate() {
    let mut state = fresh_state();
    register(&mut state, "a.b.c", CLSID, Some("Demo")).unwrap();
    let key = toast_registrar::naming::appid_key_path(CLSID);
    assert_eq!(
        key,
        "Software\\Classes\\AppID\\{11111111-2222-3333-4444-555555555555}"
    );
    let surrogate = state.app_ids.get(&key).expect("application-identifier record");
    assert_eq!(surrogate.as_str(), "");
}

#[test]
fn shortcut_properties_read_back_as_written() {
    let mut state = fresh_state();
    let path = register(&mut state, "a.b.c", CLSID, Some("Demo")).unwrap();
    let record = state.shortcuts.get(&path).expect("shortcut record");
    assert_eq!(record.target_path, EXE);
    assert_eq!(record.aumid, "a.b.c");
    assert_eq!(
        record.activator_clsid,
        "{11111111-2222-3333-4444-555555555555}"
    );
}

#[test]
fn register_defaults_app_name_to_aumid() {
    let mut state = fresh_state();
    let path = register(&mut state, "com.example.app", CLSID, None).unwrap();
    assert!(path.ends_with("com.example.app.lnk"));
    let key = toast_registrar::naming::clsid_key_path(CLSID);
    assert_eq!(state.com_classes.get(&key).unwrap().app_id, CLSID);
}

#[test]
fn register_twice_overwrites_and_returns_same_path() {
    let mut state = fresh_state();
    let first = register(&mut state, "a.b.c", CLSID, Some("Demo")).unwrap();
    let second = register(&mut state, "a.b.c", CLSID, Some("Demo")).unwrap();
    assert_eq!(first, second);
    let key = toast_registrar::naming::clsid_key_path(CLSID);
    assert_eq!(state.com_classes.get(&key).unwrap().app_id, CLSID);
}

#[test]
fn register_then_deregister_leaves_both_records_absent() {
    let mut state = fresh_state();
    let path = register(&mut state, "a.b.c", CLSID, Some("Demo")).unwrap();
    deregister(&mut state, "a.b.c", CLSID, Some("Demo")).unwrap();
    let key = toast_registrar::naming::clsid_key_path(CLSID);
    assert!(!state.com_classes.contains(&key));
    assert!(!state.shortcuts.contains(&path));
}

#[test]
fn deregister_twice_fails_the_second_time() {
    let mut state = fresh_state();
    register(&mut state, "a.b.c", CLSID, Some("Demo")).unwrap();
    deregister(&mut state, "a.b.c", CLSID, Some("Demo")).unwrap();
    let err = deregister(&mut state, "a.b.c", CLSID, Some("Demo")).unwrap_err();
    match err {
        ToastError::NotFound(path) => {
            assert_eq!(
                path,
                "Software\\Classes\\CLSID\\{11111111-2222-3333-4444-555555555555}"
            );
        }
        other => panic!("expected NotFound, got {:?}", other),
    }
}

#[test]
fn deregister_of_never_registered_identity_fails_without_mutation() {
    let mut state = fresh_state();
    let err = deregister(&mut state, "a.b.c", CLSID, Some("Demo")).unwrap_err();
    assert!(matches!(err, ToastError::NotFound(_)));
    let key = toast_registrar::naming::clsid_key_path(CLSID);
    let appid_key = toast_registrar::naming::appid_key_path(CLSID);
    assert!(!state.com_classes.contains(&key));
    assert!(!state.app_ids.contains(&appid_key));
}

#[test]
fn deregister_with_wrong_app_name_removes_registry_but_reports_shortcut() {
    let mut state = fresh_state();
    register(&mut state, "a.b.c", CLSID, Some("Demo")).unwrap();
    let err = deregister(&mut state, "a.b.c", CLSID, Some("Other")).unwrap_err();
    match err {
        ToastError::NotFound(path) => assert!(path.ends_with("Other.lnk")),
        other => panic!("expected NotFound, got {:?}", other),
    }
    // The registry record was already deleted: no rollback after the first phase.
    let key = toast_registrar::naming::clsid_key_path(CLSID);
    assert!(!state.com_classes.contains(&key));
}

#[test]
fn deregistration_keeps_the_appid_record() {
    let mut state = fresh_state();
    register(&mut state, "a.b.c", CLSID, Some("Demo")).unwrap();
    deregister(&mut state, "a.b.c", CLSID, Some("Demo")).unwrap();
    let appid_key = toast_registrar::naming::appid_key_path(CLSID);
    assert!(state.app_ids.contains(&appid_key));
}

#[test]
fn runtime_context_is_released_after_each_call() {
    let mut state = fresh_state();
    assert!(!state.runtime_active);
    register(&mut state, "a.b.c", CLSID, Some("Demo")).unwrap();
    assert!(!state.runtime_active);
    deregister(&mut state, "a.b.c", CLSID, Some("Demo")).unwrap();
    assert!(!state.runtime_active);
    deregister(&mut state, "a.b.c", CLSID, Some("Demo")).unwrap_err();
    assert!(!state.runtime_active);
}

#[test]
fn two_identities_sharing_a_clsid_overwrite_the_registry_record() {
    let mut state = fresh_state();
    register(&mut state, "first.app", CLSID, Some("First")).unwrap();
    register(&mut state, "second.app", CLSID, Some("Second")).unwrap();
    let key = toast_registrar::naming::clsid_key_path(CLSID);
    assert_eq!(state.com_classes.get(&key).unwrap().app_id, CLSID);
    let first = toast_registrar::naming::shortcut_path(APPDATA, "First");
    let second = toast_registrar::naming::shortcut_path(APPDATA, "Second");
    assert!(state.shortcuts.contains(&first));
    assert!(state.shortcuts.contains(&second));
}

#[test]
fn two_identities_sharing_an_app_name_overwrite_the_shortcut() {
    let mut state = fresh_state();
    let other_clsid = "99999999-8888-7777-6666-555555555555";
    let path_a = register(&mut state, "first.app", CLSID, Some("Demo")).unwrap();
    let path_b = register(&mut state, "second.app", other_clsid, Some("Demo")).unwrap();
    assert_eq!(path_a, path_b);
    let record = state.shortcuts.get(&path_b).unwrap();
    assert_eq!(record.aumid, "second.app");
    assert_eq!(
        record.activator_clsid,
        "{99999999-8888-7777-6666-555555555555}"
    );
}

#[test]
fn error_messages_name_the_attempted_path() {
    assert_eq!(
        ToastError::NotFound("p".to_string()).message(),
        "record not found: p"
    );
    assert_eq!(
        ToastError::Platform("q".to_string()).message(),
        "platform object protocol failed: q"
    );
    assert_eq!(
        ToastError::Registry("r".to_string()).message(),
        "registry operation failed: r"
    );
    assert_eq!(
        ToastError::Io("s".to_string()).message(),
        "filesystem operation failed: s"
    );
}
