use toast_registrar::naming::appid_key_path;
use toast_registrar::naming::braced;
use toast_registrar::naming::clsid_key_path;
use toast_registrar::naming::effective_app_name;
use toast_registrar::naming::local_server_command;
use toast_registrar::naming::shortcut_path;

#[test]
fn braced_wraps_the_clsid() {
    assert_eq!(braced("abc"), "{abc}");
    assert_eq!(
        braced("afe12481-6e51-42a1-bc43-d8487fe49af8"),
        "{afe12481-6e51-42a1-bc43-d8487fe49af8}"
    );
}

#[test]
fn registry_paths_are_per_user_class_paths() {
    assert_eq!(clsid_key_path("g"), "Software\\Classes\\CLSID\\{g}");
    assert_eq!(appid_key_path("g"), "Software\\Classes\\AppID\\{g}");
}

#[test]
fn local_server_command_quotes_the_executable() {
    assert_eq!(
        local_server_command("C:\\Program Files\\App\\app.exe"),
        "\"C:\\Program Files\\App\\app.exe\" -ToastActivated"
    );
}

#[test]
fn shortcut_path_joins_roaming_dir_subpath_and_extension() {
    assert_eq!(
        shortcut_path("C:\\Users\\u\\AppData\\Roaming", "Cool App"),
        "C:\\Users\\u\\AppData\\Roaming\\Microsoft\\Windows\\Start Menu\\Programs\\Cool App.lnk"
    );
}

#[test]
fn effective_app_name_prefers_the_given_name() {
    assert_eq!(effective_app_name("a.b.c", Some("Demo")), "Demo");
    assert_eq!(effective_app_name("a.b.c", None), "a.b.c");
}
