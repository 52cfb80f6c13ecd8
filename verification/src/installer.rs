//! Installation decisions: installer flags, mirror-profile validation and
//! parsing, and the exact command lines handed to the runtime for managed
//! interpreter installation and dependency synchronization.
//!
//! The installer's file staging and process execution stay in the
//! unverified shell; everything it decides is here.

use vstd::prelude::*;

use crate::text::{eq_str, contains_char, contains_sub, ends_with_str, spec_contains_sub,
    spec_ends_with, str_concat};

verus! {

/// Installer flags.
#[derive(Debug, Clone)]
pub struct Args {
    /// Install the managed interpreter and dependencies.
    pub install: bool,
    /// Mirror profile selection.
    pub pyenv: Option<String>,
    /// Update backend code only.
    pub update: bool,
    /// Verbose logging.
    pub verbose: bool,
    /// Show the help text.
    pub help: bool,
}

/// The state every parse starts from.
pub open spec fn spec_args_none() -> Args {
    Args { install: false, pyenv: None, update: false, verbose: false, help: false }
}

pub open spec fn spec_install_flag(s: Seq<char>) -> bool {
    s == "/i"@ || s == "-i"@ || s == "--install"@
}

pub open spec fn spec_update_flag(s: Seq<char>) -> bool {
    s == "/update"@ || s == "--update"@
}

pub open spec fn spec_verbose_flag(s: Seq<char>) -> bool {
    s == "/v"@ || s == "-v"@ || s == "--verbose"@
}

pub open spec fn spec_help_flag(s: Seq<char>) -> bool {
    s == "/h"@ || s == "/?"@ || s == "-h"@ || s == "--help"@
}

pub open spec fn spec_pyenv_flag(s: Seq<char>) -> bool {
    s == "/pyenv"@ || s == "--pyenv"@
}

/// What parsing the remaining arguments does to the flags gathered so
/// far.  A profile flag consumes the following argument as its value, so
/// that value is never itself read as a flag.
pub open spec fn spec_parse_args(acc: Args, rest: Seq<String>) -> Args
    decreases rest.len(),
{
    if rest.len() == 0 {
        acc
    } else {
        let s = rest[0]@;
        if spec_install_flag(s) {
            spec_parse_args(Args { install: true, ..acc }, rest.drop_first())
        } else if spec_update_flag(s) {
            spec_parse_args(Args { update: true, ..acc }, rest.drop_first())
        } else if spec_verbose_flag(s) {
            spec_parse_args(Args { verbose: true, ..acc }, rest.drop_first())
        } else if spec_help_flag(s) {
            spec_parse_args(Args { help: true, ..acc }, rest.drop_first())
        } else if spec_pyenv_flag(s) {
            if rest.len() >= 2 {
                spec_parse_args(
                    Args { pyenv: Some(rest[1]), ..acc },
                    rest.drop_first().drop_first(),
                )
            } else {
                spec_parse_args(acc, rest.drop_first())
            }
        } else {
            spec_parse_args(acc, rest.drop_first())
        }
    }
}

impl Args {
    /// Parse installer flags from normalized argument strings.
    pub fn parse(args: &Vec<String>) -> (r: Args)
        ensures
            r == spec_parse_args(spec_args_none(), args@),
    {
        let mut out = Args { install: false, pyenv: None, update: false, verbose: false, help: false };
        let mut i: usize = 0;
        proof {
            assert(args@.skip(0) =~= args@);
        }
        while i < args.len()
            invariant
                0 <= i <= args@.len(),
                spec_parse_args(out, args@.skip(i as int)) == spec_parse_args(
                    spec_args_none(),
                    args@,
                ),
            decreases args@.len() - i,
        {
            let ghost rest = args@.skip(i as int);
            proof {
                assert(rest[0] == args@[i as int]);
                assert(rest.drop_first() =~= args@.skip(i as int + 1));
            }
            let s = args[i].as_str();
            if eq_str(s, "/i") || eq_str(s, "-i") || eq_str(s, "--install") {
                out.install = true;
                i += 1;
            } else if eq_str(s, "/update") || eq_str(s, "--update") {
                out.update = true;
                i += 1;
            } else if eq_str(s, "/v") || eq_str(s, "-v") || eq_str(s, "--verbose") {
                out.verbose = true;
                i += 1;
            } else if eq_str(s, "/h") || eq_str(s, "/?") || eq_str(s, "-h") || eq_str(s, "--help") {
                out.help = true;
                i += 1;
            } else if eq_str(s, "/pyenv") || eq_str(s, "--pyenv") {
                if i + 1 < args.len() {
                    proof {
                        assert(rest[1] == args@[i as int + 1]);
                        assert(rest.drop_first().drop_first() =~= args@.skip(i as int + 2));
                    }
                    out.pyenv = Some(args[i + 1].clone());
                    i += 2;
                } else {
                    i += 1;
                }
            } else {
                i += 1;
            }
        }
        proof {
            assert(args@.skip(args@.len() as int) =~= Seq::<String>::empty());
        }
        out
    }
}

/// Errors surfaced by profile handling.
#[derive(Debug, Clone)]
pub enum InstallerError {
    /// The profile name holds a path separator or `..`.
    InvalidProfileName(String),
    /// The profile name does not end in the expected extension.
    InvalidProfileExtension(String),
    /// The profile name is not on the allow list.
    UnknownProfile(String),
}

impl InstallerError {
    /// The human-readable message for this error.
    pub fn message(&self) -> (r: String)
        ensures
            self matches InstallerError::InvalidProfileName(p) ==> r@ ==
                "Invalid PyEnv profile name '"@ + p@
                + "': path separators and '..' are not allowed"@,
            self matches InstallerError::InvalidProfileExtension(p) ==> r@ ==
                "Invalid PyEnv profile name '"@ + p@ + "': must end with .toml"@,
            self matches InstallerError::UnknownProfile(p) ==> r@ == "Unknown PyEnv profile '"@
                + p@ + "'. Allowed profiles: cn.toml, global.toml, custom.toml"@,
    {
        match self {
            InstallerError::InvalidProfileName(p) => {
                let head = str_concat("Invalid PyEnv profile name '", p.as_str());
                let r = str_concat(head.as_str(), "': path separators and '..' are not allowed");
                proof {
                    assert(r@ =~= "Invalid PyEnv profile name '"@ + p@
                        + "': path separators and '..' are not allowed"@);
                }
                r
            },
            InstallerError::InvalidProfileExtension(p) => {
                let head = str_concat("Invalid PyEnv profile name '", p.as_str());
                let r = str_concat(head.as_str(), "': must end with .toml");
                proof {
                    assert(r@ =~= "Invalid PyEnv profile name '"@ + p@
                        + "': must end with .toml"@);
                }
                r
            },
            InstallerError::UnknownProfile(p) => {
                let head = str_concat("Unknown PyEnv profile '", p.as_str());
                let r = str_concat(
                    head.as_str(),
                    "'. Allowed profiles: cn.toml, global.toml, custom.toml",
                );
                proof {
                    assert(r@ =~= "Unknown PyEnv profile '"@ + p@
                        + "'. Allowed profiles: cn.toml, global.toml, custom.toml"@);
                }
                r
            },
        }
    }
}

/// A profile name is rejected outright when it could traverse paths.
pub open spec fn spec_profile_name_invalid(p: Seq<char>) -> bool {
    p.contains('/') || p.contains('\\') || spec_contains_sub(p, ".."@)
}

/// The allow list of profile names.
pub open spec fn spec_allowed_profile(p: Seq<char>) -> bool {
    p == "cn.toml"@ || p == "global.toml"@ || p == "custom.toml"@
}

/// Validate a mirror-profile name before any file is touched: names with
/// path separators or `..` are rejected first, then the extension is
/// checked, then the allow list.
pub fn validate_pyenv_profile(profile: &str) -> (r: Result<(), InstallerError>)
    ensures
        (r is Ok) == (!spec_profile_name_invalid(profile@) && spec_allowed_profile(profile@)),
        spec_profile_name_invalid(profile@) ==> (r matches Err(
            InstallerError::InvalidProfileName(p),
        ) && p@ == profile@),
        !spec_profile_name_invalid(profile@) && !spec_ends_with(profile@, ".toml"@) ==> (
        r matches Err(InstallerError::InvalidProfileExtension(p)) && p@ == profile@),
        !spec_profile_name_invalid(profile@) && spec_ends_with(profile@, ".toml"@)
            && !spec_allowed_profile(profile@) ==> (r matches Err(InstallerError::UnknownProfile(p))
            && p@ == profile@),
{
    proof {
        reveal_strlit("cn.toml");
        reveal_strlit("global.toml");
        reveal_strlit("custom.toml");
        reveal_strlit(".toml");
    }
    if contains_char(profile, '/') || contains_char(profile, '\\') || contains_sub(profile, "..") {
        return Err(InstallerError::InvalidProfileName(profile.to_owned()));
    }
    if !ends_with_str(profile, ".toml") {
        proof {
            assert(spec_ends_with("cn.toml"@, ".toml"@)) by {
                assert("cn.toml"@.subrange(2, 7) =~= ".toml"@);
            }
            assert(spec_ends_with("global.toml"@, ".toml"@)) by {
                assert("global.toml"@.subrange(6, 11) =~= ".toml"@);
            }
            assert(spec_ends_with("custom.toml"@, ".toml"@)) by {
                assert("custom.toml"@.subrange(6, 11) =~= ".toml"@);
            }
        }
        return Err(InstallerError::InvalidProfileExtension(profile.to_owned()));
    }
    if !(eq_str(profile, "cn.toml") || eq_str(profile, "global.toml") || eq_str(
        profile,
        "custom.toml",
    )) {
        return Err(InstallerError::UnknownProfile(profile.to_owned()));
    }
    proof {
        assert(spec_allowed_profile(profile@));
    }
    Ok(())
}

/// Package index settings of a mirror profile.
#[derive(Debug, Clone)]
pub struct PyPIConfig {
    pub index_url: Option<String>,
    pub extra_index_urls: Option<Vec<String>>,
}

/// Interpreter download settings of a mirror profile.
#[derive(Debug, Clone)]
pub struct PythonConfig {
    pub install_mirror: Option<String>,
}

/// A mirror profile: package index settings and interpreter download
/// settings, each optional.
#[derive(Debug, Clone)]
pub struct PyEnvConfig {
    pub pypi: Option<PyPIConfig>,
    pub python: Option<PythonConfig>,
}

/// The character-level contents of a string list.
pub open spec fn strings_view(v: Seq<String>) -> Seq<Seq<char>> {
    v.map_values(|s: String| s@)
}

/// The profile fields a document denotes — the package index URL, the
/// extra index URLs, and the interpreter mirror (under its primary or its
/// alias key) — or `None` when the document does not parse or a field has
/// the wrong shape.
pub uninterp spec fn toml_pyenv_of(s: Seq<char>) -> Option<
    (Option<Seq<char>>, Option<Seq<Seq<char>>>, Option<Seq<char>>),
>;

/// The character-level contents of extracted profile fields.
pub open spec fn pyenv_fields_view(t: (Option<String>, Option<Vec<String>>, Option<String>))
    -> (Option<Seq<char>>, Option<Seq<Seq<char>>>, Option<Seq<char>>) {
    (
        match t.0 {
            Some(s) => Some(s@),
            None => None,
        },
        match t.1 {
            Some(v) => Some(strings_view(v@)),
            None => None,
        },
        match t.2 {
            Some(s) => Some(s@),
            None => None,
        },
    )
}

/// Relies on `toml::from_str` and `toml::Value`'s `get` / `as_array` /
/// `as_str` accessors: the index URL under `pypi.index_url`, the list
/// under `pypi.extra_index_urls`, and the mirror under
/// `python.install_mirror` (or its alias `python.download_mirror`) are a
/// function of the document text alone.  A document that does not parse
/// yields `None`; a field of the wrong shape is treated as absent.
#[verifier::external_body]
fn toml_pyenv_fields(s: &str) -> (r: Option<(Option<String>, Option<Vec<String>>, Option<String>)>)
    ensures
        (r is Some) == (toml_pyenv_of(s@) is Some),
        r matches Some(t) ==> Some(pyenv_fields_view(t)) == toml_pyenv_of(s@),
{
    let v: toml::Value = toml::from_str(s).ok()?;
    let pypi = v.get("pypi");
    let index_url = pypi.and_then(|p| p.get("index_url")).and_then(|x| x.as_str()).map(str::to_owned);
    let extra = pypi.and_then(|p| p.get("extra_index_urls")).and_then(|x| x.as_array())
        .and_then(|a| a.iter().map(|e| e.as_str().map(str::to_owned)).collect::<Option<_>>());
    let mirror = v.get("python").and_then(|p| p.get("install_mirror").or_else(|| p.get("download_mirror")));
    Some((index_url, extra, mirror.and_then(|x| x.as_str()).map(str::to_owned)))
}

/// The fields a parsed profile carries, flattened.
pub open spec fn spec_pyenv_fields(c: PyEnvConfig) -> (
    Option<Seq<char>>,
    Option<Seq<Seq<char>>>,
    Option<Seq<char>>,
) {
    (
        match c.pypi {
            Some(p) => match p.index_url {
                Some(u) => Some(u@),
                None => None,
            },
            None => None,
        },
        match c.pypi {
            Some(p) => match p.extra_index_urls {
                Some(v) => Some(strings_view(v@)),
                None => None,
            },
            None => None,
        },
        match c.python {
            Some(p) => match p.install_mirror {
                Some(m) => Some(m@),
                None => None,
            },
            None => None,
        },
    )
}

/// Parse a mirror profile document.  The package index section is present
/// exactly when the document sets one of its fields, and likewise for the
/// interpreter section.
pub fn parse_pyenv_config(s: &str) -> (r: Option<PyEnvConfig>)
    ensures
        (r is Some) == (toml_pyenv_of(s@) is Some),
        r matches Some(c) ==> Some(spec_pyenv_fields(c)) == toml_pyenv_of(s@),
{
    let (index_url, extra, mirror) = match toml_pyenv_fields(s) {
        Some(t) => t,
        None => {
            return None;
        },
    };
    let pypi = if index_url.is_some() || extra.is_some() {
        Some(PyPIConfig { index_url, extra_index_urls: extra })
    } else {
        None
    };
    let python = match mirror {
        Some(m) => Some(PythonConfig { install_mirror: Some(m) }),
        None => None,
    };
    Some(PyEnvConfig { pypi, python })
}

/// The command line that installs the managed interpreter: a fixed
/// install command, plus the profile's interpreter mirror when one is
/// set.
pub open spec fn spec_python_install_args(c: Option<PyEnvConfig>) -> Seq<Seq<char>> {
    let base = seq!["python"@, "install"@, "3.12"@];
    match c {
        Some(cfg) => match cfg.python {
            Some(py) => match py.install_mirror {
                Some(m) => base + seq!["--mirror"@, m@],
                None => base,
            },
            None => base,
        },
        None => base,
    }
}

/// Build the interpreter-install command line for a profile.
pub fn uv_python_install_args(pyenv: Option<&PyEnvConfig>) -> (r: Vec<String>)
    ensures
        match pyenv {
            Some(c) => strings_view(r@) == spec_python_install_args(Some(*c)),
            None => strings_view(r@) == spec_python_install_args(None),
        },
{
    let mut out: Vec<String> = Vec::new();
    out.push("python".to_owned());
    out.push("install".to_owned());
    out.push("3.12".to_owned());
    if let Some(c) = pyenv {
        if let Some(py) = &c.python {
            if let Some(m) = &py.install_mirror {
                out.push("--mirror".to_owned());
                out.push(m.clone());
            }
        }
    }
    proof {
        assert(strings_view(out@) =~= (match pyenv {
            Some(c) => spec_python_install_args(Some(*c)),
            None => spec_python_install_args(None),
        }));
    }
    out
}

/// The extra-index arguments for a list of URLs, one flag per URL.
pub open spec fn spec_extra_index_args(urls: Seq<Seq<char>>) -> Seq<Seq<char>>
    decreases urls.len(),
{
    if urls.len() == 0 {
        Seq::empty()
    } else {
        seq!["--extra-index-url"@, urls[0]] + spec_extra_index_args(urls.drop_first())
    }
}

proof fn lemma_extra_index_args_push(urls: Seq<Seq<char>>, x: Seq<char>)
    ensures
        spec_extra_index_args(urls.push(x)) == spec_extra_index_args(urls) + seq![
            "--extra-index-url"@,
            x,
        ],
    decreases urls.len(),
{
    if urls.len() == 0 {
        assert(urls.push(x).drop_first() =~= urls);
        assert(spec_extra_index_args(urls.push(x)) =~= spec_extra_index_args(urls) + seq![
            "--extra-index-url"@,
            x,
        ]);
    } else {
        assert(urls.push(x).drop_first() =~= urls.drop_first().push(x));
        lemma_extra_index_args_push(urls.drop_first(), x);
        assert(spec_extra_index_args(urls.push(x)) =~= spec_extra_index_args(urls) + seq![
            "--extra-index-url"@,
            x,
        ]);
    }
}

/// The command line that synchronizes dependencies: the sync command,
/// plus the profile's index URL and each extra index URL in order.
pub open spec fn spec_sync_args(c: Option<PyEnvConfig>) -> Seq<Seq<char>> {
    let base = seq!["sync"@];
    match c {
        None => base,
        Some(cfg) => match cfg.pypi {
            None => base,
            Some(p) => {
                let with_index = match p.index_url {
                    Some(u) => base + seq!["--index-url"@, u@],
                    None => base,
                };
                match p.extra_index_urls {
                    Some(urls) => with_index + spec_extra_index_args(strings_view(urls@)),
                    None => with_index,
                }
            },
        },
    }
}

/// Build the dependency-sync command line for a profile.
pub fn uv_sync_args(pyenv: Option<&PyEnvConfig>) -> (r: Vec<String>)
    ensures
        match pyenv {
            Some(c) => strings_view(r@) == spec_sync_args(Some(*c)),
            None => strings_view(r@) == spec_sync_args(None),
        },
{
    let mut out: Vec<String> = Vec::new();
    out.push("sync".to_owned());
    let c = match pyenv {
        Some(c) => c,
        None => {
            proof {
                assert(strings_view(out@) =~= spec_sync_args(None));
            }
            return out;
        },
    };
    let p = match &c.pypi {
        Some(p) => p,
        None => {
            proof {
                assert(strings_view(out@) =~= spec_sync_args(Some(*c)));
            }
            return out;
        },
    };
    if let Some(u) = &p.index_url {
        out.push("--index-url".to_owned());
        out.push(u.clone());
    }
    let ghost with_index = match &p.index_url {
        Some(u) => seq!["sync"@, "--index-url"@, u@],
        None => seq!["sync"@],
    };
    proof {
        assert(strings_view(out@) =~= with_index);
    }
    let urls = match &p.extra_index_urls {
        Some(urls) => urls,
        None => {
            proof {
                assert(strings_view(out@) =~= spec_sync_args(Some(*c)));
            }
            return out;
        },
    };
    let mut i: usize = 0;
    proof {
        assert(strings_view(urls@.subrange(0, 0)) =~= Seq::<Seq<char>>::empty());
    }
    while i < urls.len()
        invariant
            0 <= i <= urls@.len(),
            strings_view(out@) == with_index + spec_extra_index_args(
                strings_view(urls@.subrange(0, i as int)),
            ),
        decreases urls@.len() - i,
    {
        let ghost prev = out@;
        out.push("--extra-index-url".to_owned());
        out.push(urls[i].clone());
        proof {
            assert(strings_view(out@) =~= strings_view(prev).push("--extra-index-url"@).push(
                urls@[i as int]@,
            ));
            assert(strings_view(urls@.subrange(0, i as int)).push(urls@[i as int]@)
                =~= strings_view(urls@.subrange(0, i as int + 1)));
            lemma_extra_index_args_push(
                strings_view(urls@.subrange(0, i as int)),
                urls@[i as int]@,
            );
            assert(strings_view(out@) =~= with_index + spec_extra_index_args(
                strings_view(urls@.subrange(0, i as int + 1)),
            ));
        }
        i += 1;
    }
    proof {
        assert(urls@.subrange(0, urls@.len() as int) =~= urls@);
        assert(strings_view(out@) =~= spec_sync_args(Some(*c)));
    }
    out
}

/// The configuration file written when none exists yet.
pub fn default_config_content() -> (r: &'static str)
    ensures
        r@ ==
            "# redViewer Configuration\n# See: https://github.com/jasoneri/redViewer\n\npath: \"\"\n# kemono_path: \"\"\n# storage_backend: local\n"@,
{
    "# redViewer Configuration\n# See: https://github.com/jasoneri/redViewer\n\npath: \"\"\n# kemono_path: \"\"\n# storage_backend: local\n"
}

} // verus!
