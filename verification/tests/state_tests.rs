use rv_core::cli::Args;
use rv_core::downloader::{UvDownloadConfig, UvMirror};
use rv_core::i18n::get_i18n_script;
use rv_core::status::{status_to_str, BackendStatus, ShutdownCoordinator, StatusBoard};
use rv_core::ui_state::{GuideController, MainWindowState, SplashState, ToastState};

#[test]
fn tray_args_recognize_every_flag_form() {
    let parsed = Args::parse(&vec!["/backend".into(), "-v".into()]);
    assert!(parsed.backend_only);
    assert!(parsed.verbose);
    assert!(!parsed.no_tray);

    let parsed = Args::parse(&vec!["--no-tray".into(), "ignored".into()]);
    assert!(parsed.no_tray);
    assert!(!parsed.backend_only);

    assert!(Args::wants_help(&vec!["/?".into()]));
    assert!(Args::wants_help(&vec!["x".into(), "--help".into()]));
    assert!(!Args::wants_help(&vec!["/backend".into()]));
}

#[test]
fn backend_status_renders_for_the_frontend() {
    assert_eq!(status_to_str(BackendStatus::Starting), "STARTING");
    assert_eq!(status_to_str(BackendStatus::Running), "RUNNING");
    assert_eq!(status_to_str(BackendStatus::Error), "ERROR");
}

#[test]
fn status_board_keeps_errors_only_in_error_state() {
    let mut board = StatusBoard::new();
    assert_eq!(board.get_backend_status_value(), BackendStatus::Starting);
    assert!(board.error.is_none());

    board.set_backend_status(BackendStatus::Error, Some("spawn failed".to_string()));
    assert_eq!(board.get_backend_status_value(), BackendStatus::Error);
    assert_eq!(board.error.as_deref(), Some("spawn failed"));

    board.set_backend_status(BackendStatus::Running, Some("stale".to_string()));
    assert_eq!(board.get_backend_status_value(), BackendStatus::Running);
    assert!(board.error.is_none());
}

#[test]
fn quit_request_is_sticky() {
    let mut quit = ShutdownCoordinator::new();
    assert!(!quit.is_quit_requested());
    quit.request_quit();
    assert!(quit.is_quit_requested());
    quit.request_quit();
    assert!(quit.is_quit_requested());
}

#[test]
fn first_hide_is_reported_once() {
    let mut state = MainWindowState::new();
    assert!(state.mark_hidden());
    assert!(!state.mark_hidden());
    assert!(!state.mark_hidden());
}

#[test]
fn guide_cancel_fires_once() {
    let mut guide = GuideController::new();
    assert!(!guide.is_cancelled());
    assert!(guide.cancel_auto_close());
    assert!(guide.is_cancelled());
    assert!(!guide.cancel_auto_close());
}

#[test]
fn toast_generations_increase() {
    let mut toast = ToastState::new();
    assert_eq!(toast.current(), 0);
    assert_eq!(toast.next_generation(), 1);
    assert_eq!(toast.next_generation(), 2);
    assert_eq!(toast.current(), 2);
}

#[test]
fn splash_state_holds_selection() {
    let mut splash = SplashState::new();
    assert!(splash.get_config().is_none());
    assert!(splash.get_bin_dir().is_none());

    splash.set_bin_dir("/data/redViewer/bin".to_string());
    assert_eq!(splash.get_bin_dir().as_deref(), Some("/data/redViewer/bin"));

    let config = UvDownloadConfig {
        mirrors: vec![UvMirror { name: "m".to_string(), url: "u".to_string() }],
        max_retries: 3,
        connect_timeout_secs: 5,
        read_timeout_secs: 30,
    };
    splash.set_config(config);
    let got = splash.get_config().unwrap();
    assert_eq!(got.mirrors.len(), 1);
    assert_eq!(got.mirrors[0].name, "m");
    assert_eq!(got.mirrors[0].url, "u");
    assert_eq!(got.max_retries, 3);
    // The bin dir selection is untouched by the config selection.
    assert_eq!(splash.get_bin_dir().as_deref(), Some("/data/redViewer/bin"));
}

#[test]
fn i18n_script_picks_by_locale_prefix() {
    let zh = r#"{"tray_open":"打开"}"#;
    let en = r#"{"tray_open":"Open"}"#;
    assert_eq!(
        get_i18n_script("zh-CN", zh, en),
        format!("window.__TRANSLATIONS__ = {};", zh)
    );
    assert_eq!(
        get_i18n_script("zh", zh, en),
        format!("window.__TRANSLATIONS__ = {};", zh)
    );
    assert_eq!(
        get_i18n_script("en-US", zh, en),
        format!("window.__TRANSLATIONS__ = {};", en)
    );
    assert_eq!(
        get_i18n_script("fr-FR", zh, en),
        format!("window.__TRANSLATIONS__ = {};", en)
    );
}
