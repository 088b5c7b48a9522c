use terminal_sessions::startup::ensure_linux_runtime;

#[test]
fn linux_is_accepted() {
    assert_eq!(ensure_linux_runtime("linux"), Ok(()));
}

#[test]
fn other_platforms_are_named_in_the_refusal() {
    assert_eq!(
        ensure_linux_runtime("macos"),
        Err(String::from("OpenSpace currently supports Linux only. Detected platform: macos."))
    );
    assert_eq!(
        ensure_linux_runtime("Linux"),
        Err(String::from("OpenSpace currently supports Linux only. Detected platform: Linux."))
    );
    assert_eq!(
        ensure_linux_runtime(""),
        Err(String::from("OpenSpace currently supports Linux only. Detected platform: ."))
    );
}
