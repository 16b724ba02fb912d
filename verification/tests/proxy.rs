use cardamom_loader::proxy::{
    dinput_load_error, dll_name, override_name, real_dll_path, Proxied, ERROR_CAPTION,
    LOADED_ENV_VAR,
};

#[test]
fn override_names() {
    assert_eq!(override_name(Proxied::Dinput8), "dinput8_c.dll");
    assert_eq!(override_name(Proxied::Dsound), "dsound_c.dll");
}

#[test]
fn system_dll_paths() {
    assert_eq!(
        real_dll_path(Proxied::Dinput8, "C:\\Windows\\SysWOW64"),
        "C:\\Windows\\SysWOW64\\dinput8.dll"
    );
    assert_eq!(
        real_dll_path(Proxied::Dsound, "C:\\Windows\\SysWOW64"),
        "C:\\Windows\\SysWOW64\\dsound.dll"
    );
    assert_eq!(real_dll_path(Proxied::Dinput8, ""), "\\dinput8.dll");
}

#[test]
fn dll_names() {
    assert_eq!(dll_name(Proxied::Dinput8), "dinput8.dll");
    assert_eq!(dll_name(Proxied::Dsound), "dsound.dll");
}

#[test]
fn load_error_message() {
    assert_eq!(
        dinput_load_error(Proxied::Dinput8, "LoadLibraryW for path x failed: not found"),
        "Failed to load real dinput8.dll from system dir: LoadLibraryW for path x failed: not found"
    );
    assert_eq!(
        dinput_load_error(Proxied::Dsound, "boom"),
        "Failed to load real dsound.dll from system dir: boom"
    );
}

#[test]
fn names() {
    assert_eq!(ERROR_CAPTION, "Cardamom Loader error");
    assert_eq!(LOADED_ENV_VAR, "CARDAMOM_LOADED");
}
