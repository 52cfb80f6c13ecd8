use rv_core::downloader::{
    resolve_asset_name, resolve_download_url, parse_uv_config, uv_config_from_content,
    progress_after_chunk, AttemptOutcome, DownloadError, DownloadRun, TargetArch, TargetOs,
    UvDownloadConfig, UvMirror,
};

#[test]
fn test_resolve_asset_name() {
    let name = resolve_asset_name(TargetOs::Linux, TargetArch::X64);
    assert!(name.contains("uv"));
    assert!(name.ends_with(".tar.gz"));
}

#[test]
fn test_resolve_download_url() {
    let mirror = UvMirror {
        name: "test".to_string(),
        url: "https://example.com/uv/".to_string(),
    };
    let url = resolve_download_url(&mirror, "uv-x86_64-apple-darwin.tar.gz");
    assert_eq!(url, "https://example.com/uv/uv-x86_64-apple-darwin.tar.gz");
}

#[test]
fn test_download_config_default() {
    let config = UvDownloadConfig::default();
    assert_eq!(config.mirrors.len(), 1);
    assert_eq!(config.mirrors[0].name, "github");
    assert_eq!(config.max_retries, 3);
}

#[test]
fn test_parse_uv_config_cn() {
    let toml_content = r#"
python-install-mirror = "https://mirror.nju.edu.cn/github-release/astral-sh/python-build-standalone"

[[index]]
url = "https://repo.huaweicloud.com/repository/pypi/simple"
default = true

[uv]
mirrors = [
  { name = "ustc", url = "https://mirrors.ustc.edu.cn/github-release/astral-sh/uv/LatestRelease/" },
  { name = "github", url = "https://github.com/astral-sh/uv/releases/latest/download/" }
]
"#;
    let config = parse_uv_config(toml_content).unwrap();
    assert_eq!(config.mirrors.len(), 2);
    assert_eq!(config.mirrors[0].name, "ustc");
    assert_eq!(config.mirrors[1].name, "github");
}

#[test]
fn test_parse_uv_config_global() {
    let toml_content = r#"
[[index]]
url = "https://pypi.org/simple"
default = true

[uv]
mirrors = [
  { name = "github", url = "https://github.com/astral-sh/uv/releases/latest/download/" }
]
"#;
    let config = parse_uv_config(toml_content).unwrap();
    assert_eq!(config.mirrors.len(), 1);
    assert_eq!(config.mirrors[0].name, "github");
}

#[test]
fn parse_uv_config_rejects_malformed_document() {
    assert!(matches!(
        parse_uv_config("this is not toml ["),
        Err(DownloadError::InvalidConfig)
    ));
    assert!(matches!(
        parse_uv_config("[other]\nkey = 1\n"),
        Err(DownloadError::InvalidConfig)
    ));
}

#[test]
fn uv_config_falls_back_to_default() {
    let cfg = uv_config_from_content(None);
    assert_eq!(cfg.mirrors.len(), 1);
    assert_eq!(cfg.mirrors[0].name, "github");

    let cfg = uv_config_from_content(Some("broken ["));
    assert_eq!(cfg.mirrors.len(), 1);
    assert_eq!(cfg.mirrors[0].name, "github");

    let cfg = uv_config_from_content(Some("[uv]\nmirrors = [ { name = \"m\", url = \"u\" } ]\n"));
    assert_eq!(cfg.mirrors.len(), 1);
    assert_eq!(cfg.mirrors[0].name, "m");
    assert_eq!(cfg.mirrors[0].url, "u");
}

#[test]
fn failover_uses_last_mirror_when_first_fail() {
    let mut run = DownloadRun::begin(3, true);
    assert!(run.outcome.is_none());
    run.start_fetch(); // a temporary file is being written
    run.record_attempt(AttemptOutcome::FetchFailed("connect refused".to_string()));
    assert!(run.outcome.is_none());
    assert!(!run.temp_present);
    run.start_fetch();
    run.record_attempt(AttemptOutcome::ExtractFailed("corrupt archive".to_string()));
    assert!(run.outcome.is_none());
    run.start_fetch();
    run.record_attempt(AttemptOutcome::Installed);
    assert!(matches!(run.outcome, Some(Ok(2))));
    assert!(!run.temp_present);
}

#[test]
fn all_mirrors_failing_reports_last_error() {
    let mut run = DownloadRun::begin(2, true);
    run.record_attempt(AttemptOutcome::FetchFailed("first error".to_string()));
    run.record_attempt(AttemptOutcome::FetchFailed("second error".to_string()));
    match run.outcome {
        Some(Err(DownloadError::AllMirrorsFailed(Some(msg)))) => {
            assert_eq!(msg, "second error");
        }
        other => panic!("unexpected outcome: {:?}", other),
    }
    assert!(!run.temp_present);
}

#[test]
fn lock_contention_fails_before_any_attempt() {
    let run = DownloadRun::begin(3, false);
    assert!(matches!(
        run.outcome,
        Some(Err(DownloadError::DownloadInProgress))
    ));
    assert_eq!(run.next_idx, 0);
    assert!(!run.temp_present);
}

#[test]
fn empty_mirror_list_fails_without_message() {
    let run = DownloadRun::begin(0, true);
    assert!(matches!(
        run.outcome,
        Some(Err(DownloadError::AllMirrorsFailed(None)))
    ));
}

#[test]
fn progress_accounting_adds_chunks() {
    let (total, event) = progress_after_chunk(10, 32, Some(100), "github");
    assert_eq!(total, 42);
    assert_eq!(event.current, 42);
    assert_eq!(event.total, Some(100));
    assert_eq!(event.mirror_name, "github");

    let (total, event) = progress_after_chunk(0, 7, None, "m");
    assert_eq!(total, 7);
    assert_eq!(event.total, None);
}

#[test]
fn asset_names_cover_supported_platforms() {
    assert_eq!(
        resolve_asset_name(TargetOs::MacOs, TargetArch::Arm64),
        "uv-aarch64-apple-darwin.tar.gz"
    );
    assert_eq!(
        resolve_asset_name(TargetOs::MacOs, TargetArch::X64),
        "uv-x86_64-apple-darwin.tar.gz"
    );
    assert_eq!(
        resolve_asset_name(TargetOs::Linux, TargetArch::X64),
        "uv-x86_64-unknown-linux-gnu.tar.gz"
    );
    assert_eq!(
        resolve_asset_name(TargetOs::Linux, TargetArch::Arm64),
        "uv-aarch64-unknown-linux-gnu.tar.gz"
    );
    assert_eq!(
        resolve_asset_name(TargetOs::Windows, TargetArch::X64),
        "uv-unknown-unknown.tar.gz"
    );
}

#[test]
fn download_url_trims_every_trailing_slash() {
    let mirror = UvMirror {
        name: "m".to_string(),
        url: "https://example.com/uv///".to_string(),
    };
    assert_eq!(resolve_download_url(&mirror, "a.tar.gz"), "https://example.com/uv/a.tar.gz");

    let bare = UvMirror {
        name: "m".to_string(),
        url: "https://example.com".to_string(),
    };
    assert_eq!(resolve_download_url(&bare, "a.tar.gz"), "https://example.com/a.tar.gz");
}
