use ohmybox::bootstrap::{plugins, startup_exit, Plugin, StartupExit, FAILURE_CODE};

#[test]
fn plugins_with_os_info() {
    assert_eq!(plugins(true), vec![Plugin::OsInfo]);
}

#[test]
fn plugins_without_os_info() {
    assert_eq!(plugins(false), Vec::<Plugin>::new());
}

#[test]
fn successful_run_exits_cleanly() {
    assert_eq!(startup_exit(&Ok(())), StartupExit { code: 0, diagnostic: None });
}

#[test]
fn failed_run_exits_with_diagnostic() {
    let r = startup_exit(&Err("no display".to_string()));
    assert_ne!(r.code, 0);
    assert_eq!(r.code, FAILURE_CODE);
    assert_eq!(
        r.diagnostic,
        Some("error while running OhMyBox application: no display".to_string())
    );
}

#[test]
fn failed_run_with_empty_error_still_diagnoses() {
    let r = startup_exit(&Err(String::new()));
    assert_eq!(r.code, 1);
    assert_eq!(r.diagnostic, Some("error while running OhMyBox application: ".to_string()));
}
