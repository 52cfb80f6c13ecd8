use rv_core::installer::{
    default_config_content, parse_pyenv_config, uv_python_install_args, uv_sync_args,
    validate_pyenv_profile, Args, InstallerError, PyEnvConfig, PyPIConfig, PythonConfig,
};

#[test]
fn load_pyenv_config_rejects_path_traversal() {
    let err = validate_pyenv_profile("../evil.toml").unwrap_err();
    assert!(err.message().contains("path separators"));

    let err = validate_pyenv_profile("unknown.toml").unwrap_err();
    assert!(err.message().contains("Unknown PyEnv profile"));
}

#[test]
fn profile_validation_covers_every_rule() {
    assert!(validate_pyenv_profile("cn.toml").is_ok());
    assert!(validate_pyenv_profile("global.toml").is_ok());
    assert!(validate_pyenv_profile("custom.toml").is_ok());
    assert!(matches!(
        validate_pyenv_profile("a/b.toml"),
        Err(InstallerError::InvalidProfileName(_))
    ));
    assert!(matches!(
        validate_pyenv_profile("a\\b.toml"),
        Err(InstallerError::InvalidProfileName(_))
    ));
    assert!(matches!(
        validate_pyenv_profile("cn"),
        Err(InstallerError::InvalidProfileExtension(_))
    ));
    let err = validate_pyenv_profile("cn").unwrap_err();
    assert!(err.message().contains("must end with .toml"));
}

#[test]
fn installer_args_parse_flags_and_profile() {
    let args: Vec<String> =
        vec!["/i".into(), "/pyenv".into(), "cn.toml".into(), "/v".into()];
    let parsed = Args::parse(&args);
    assert!(parsed.install);
    assert!(parsed.verbose);
    assert!(!parsed.update);
    assert!(!parsed.help);
    assert_eq!(parsed.pyenv.as_deref(), Some("cn.toml"));

    let parsed = Args::parse(&vec!["--update".into(), "-h".into()]);
    assert!(parsed.update);
    assert!(parsed.help);
    assert!(!parsed.install);
}

#[test]
fn profile_flag_consumes_the_next_argument() {
    // The value after the profile flag is never itself read as a flag.
    let parsed = Args::parse(&vec!["/pyenv".into(), "/i".into()]);
    assert_eq!(parsed.pyenv.as_deref(), Some("/i"));
    assert!(!parsed.install);

    // A trailing profile flag without a value is ignored.
    let parsed = Args::parse(&vec!["/pyenv".into()]);
    assert!(parsed.pyenv.is_none());
}

#[test]
fn pyenv_profile_parsing_extracts_mirror_fields() {
    let doc = r#"
[pypi]
index_url = "https://repo.huaweicloud.com/repository/pypi/simple"
extra_index_urls = ["https://pypi.org/simple", "https://example.com/simple"]

[python]
download_mirror = "https://mirror.example.com/pbs"
"#;
    let cfg = parse_pyenv_config(doc).unwrap();
    let pypi = cfg.pypi.as_ref().unwrap();
    assert_eq!(
        pypi.index_url.as_deref(),
        Some("https://repo.huaweicloud.com/repository/pypi/simple")
    );
    assert_eq!(
        pypi.extra_index_urls.as_ref().unwrap(),
        &vec![
            "https://pypi.org/simple".to_string(),
            "https://example.com/simple".to_string()
        ]
    );
    assert_eq!(
        cfg.python.as_ref().unwrap().install_mirror.as_deref(),
        Some("https://mirror.example.com/pbs")
    );
    assert!(parse_pyenv_config("broken [").is_none());
}

#[test]
fn interpreter_install_command_applies_mirror() {
    assert_eq!(uv_python_install_args(None), vec!["python", "install", "3.12"]);
    let cfg = PyEnvConfig {
        pypi: None,
        python: Some(PythonConfig { install_mirror: Some("https://m".to_string()) }),
    };
    assert_eq!(
        uv_python_install_args(Some(&cfg)),
        vec!["python", "install", "3.12", "--mirror", "https://m"]
    );
}

#[test]
fn sync_command_applies_every_index_url() {
    assert_eq!(uv_sync_args(None), vec!["sync"]);
    let cfg = PyEnvConfig {
        pypi: Some(PyPIConfig {
            index_url: Some("https://idx".to_string()),
            extra_index_urls: Some(vec!["https://e1".to_string(), "https://e2".to_string()]),
        }),
        python: None,
    };
    assert_eq!(
        uv_sync_args(Some(&cfg)),
        vec![
            "sync",
            "--index-url",
            "https://idx",
            "--extra-index-url",
            "https://e1",
            "--extra-index-url",
            "https://e2"
        ]
    );
}

#[test]
fn default_config_file_names_the_expected_keys() {
    let content = default_config_content();
    assert!(content.starts_with("# redViewer Configuration"));
    assert!(content.contains("path: \"\""));
    assert!(content.contains("# storage_backend: local"));
}
