//! Application paths and persisted settings.
//!
//! Filesystem locations are modeled as strings with `/` separators and
//! computed by pure functions from the platform's base directories; the
//! unverified edge supplies those base directories (and converts to native
//! paths) but performs no path arithmetic of its own.

use vstd::prelude::*;

use crate::downloader::TargetOs;
use crate::text::str_concat;

verus! {

/// Application paths for config, logs, and runtime data.
#[derive(Debug, Clone)]
pub struct AppPaths {
    pub config_dir: String,
    pub config_file: String,
    pub log_dir: String,
    pub runtime_dir: String,
    pub app_settings_file: String,
}

/// Paths related to the runtime binary and the backend project.
#[derive(Debug, Clone)]
pub struct UvPaths {
    /// Path to the runtime executable.
    pub uv: String,
    /// Path to the directory containing the backend project manifest.
    pub pyproject_dir: String,
}

/// Application settings persisted across runs.
#[derive(Debug, Clone)]
pub struct AppConfig {
    pub last_pyenv: Option<String>,
    pub installed_once: bool,
}

impl Default for AppConfig {
    fn default() -> (r: Self)
        ensures
            r.last_pyenv is None,
            !r.installed_once,
    {
        AppConfig { last_pyenv: None, installed_once: false }
    }
}

/// `base` and `seg` joined with a single separator.
pub open spec fn spec_join(base: Seq<char>, seg: Seq<char>) -> Seq<char> {
    base + seq!['/'] + seg
}

/// Join one path segment onto a base path.
pub fn path_join(base: &str, seg: &str) -> (r: String)
    ensures
        r@ == spec_join(base@, seg@),
{
    let with_sep = str_concat(base, "/");
    let r = str_concat(with_sep.as_str(), seg);
    proof {
        reveal_strlit("/");
        assert("/"@ =~= seq!['/']);
        assert(r@ =~= spec_join(base@, seg@));
    }
    r
}

/// Resolve application paths from the platform's base directories.
///
/// All data lives under `<data_local_dir>/redViewer`; on Linux the config
/// directory follows the XDG config base instead, and on macOS logs live
/// under the user's `Library/Logs`.
pub fn resolve_paths(os: TargetOs, data_local_dir: &str, config_base_dir: &str, home_dir: &str)
    -> (r: AppPaths)
    ensures
        ({
            let data_root = spec_join(data_local_dir@, "redViewer"@);
            &&& r.config_dir@ == (if os == TargetOs::Linux {
                spec_join(config_base_dir@, "redViewer"@)
            } else {
                spec_join(data_root, "config"@)
            })
            &&& r.log_dir@ == (if os == TargetOs::MacOs {
                spec_join(spec_join(home_dir@, "Library/Logs"@), "redViewer"@)
            } else {
                spec_join(data_root, "logs"@)
            })
            &&& r.runtime_dir@ == spec_join(data_root, "runtime"@)
            &&& r.config_file@ == spec_join(r.config_dir@, "conf.yml"@)
            &&& r.app_settings_file@ == spec_join(r.config_dir@, "app-settings.json"@)
        }),
{
    let data_root = path_join(data_local_dir, "redViewer");
    let config_dir = if os == TargetOs::Linux {
        path_join(config_base_dir, "redViewer")
    } else {
        path_join(data_root.as_str(), "config")
    };
    let log_dir = if os == TargetOs::MacOs {
        let lib_logs = path_join(home_dir, "Library/Logs");
        path_join(lib_logs.as_str(), "redViewer")
    } else {
        path_join(data_root.as_str(), "logs")
    };
    let runtime_dir = path_join(data_root.as_str(), "runtime");
    let config_file = path_join(config_dir.as_str(), "conf.yml");
    let app_settings_file = path_join(config_dir.as_str(), "app-settings.json");
    AppPaths { config_dir, config_file, log_dir, runtime_dir, app_settings_file }
}

/// Resolve the runtime executable path: next to the application executable
/// on Windows, under the local data directory on macOS and Linux (where it
/// is installed by the downloader).
pub fn resolve_uv(os: TargetOs, data_local_dir: &str, exe_dir: &str) -> (r: String)
    ensures
        os == TargetOs::Windows ==> r@ == spec_join(exe_dir@, "uv.exe"@),
        os != TargetOs::Windows ==> r@ == spec_join(
            spec_join(spec_join(data_local_dir@, "redViewer"@), "bin"@),
            "uv"@,
        ),
{
    if os == TargetOs::Windows {
        path_join(exe_dir, "uv.exe")
    } else {
        let data_root = path_join(data_local_dir, "redViewer");
        let bin = path_join(data_root.as_str(), "bin");
        path_join(bin.as_str(), "uv")
    }
}

/// Resolve the backend source directory bundled in the installation
/// folder.
pub fn resolve_install_src_dir(exe_dir: &str) -> (r: String)
    ensures
        r@ == spec_join(spec_join(exe_dir@, "res"@), "src"@),
{
    let res = path_join(exe_dir, "res");
    path_join(res.as_str(), "src")
}

/// Resolve the runtime executable and backend project directory for
/// backend execution: the project sits in the installation folder on
/// Windows and under the local data directory elsewhere.
pub fn resolve_uv_paths(os: TargetOs, data_local_dir: &str, exe_dir: &str) -> (r: UvPaths)
    ensures
        os == TargetOs::Windows ==> r.uv@ == spec_join(exe_dir@, "uv.exe"@),
        os != TargetOs::Windows ==> r.uv@ == spec_join(
            spec_join(spec_join(data_local_dir@, "redViewer"@), "bin"@),
            "uv"@,
        ),
        os == TargetOs::Windows ==> r.pyproject_dir@ == spec_join(
            spec_join(exe_dir@, "res"@),
            "src"@,
        ),
        os != TargetOs::Windows ==> r.pyproject_dir@ == spec_join(
            spec_join(data_local_dir@, "redViewer"@),
            "backend"@,
        ),
{
    let uv = resolve_uv(os, data_local_dir, exe_dir);
    let pyproject_dir = if os == TargetOs::Windows {
        resolve_install_src_dir(exe_dir)
    } else {
        let data_root = path_join(data_local_dir, "redViewer");
        path_join(data_root.as_str(), "backend")
    };
    UvPaths { uv, pyproject_dir }
}

} // verus!
