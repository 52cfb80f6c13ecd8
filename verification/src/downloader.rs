//! Mirror-failover download planning.
//!
//! The runtime binary is fetched from an ordered list of mirror sources.
//! This module holds the verified core of that process: resolving the
//! platform asset name, building download URLs, parsing the mirror
//! configuration profile, and the failover state machine that decides,
//! after each attempt, whether to stop or to move on to the next mirror.
//! The network and file-system work itself is performed by an unverified
//! driver that feeds each attempt's outcome back into the state machine.

use vstd::prelude::*;

use crate::text::{spec_trim_end, str_concat, trim_end_char};

verus! {

/// Mirror source for the runtime download.
#[derive(Debug, Clone)]
pub struct UvMirror {
    pub name: String,
    pub url: String,
}

/// Download configuration.
#[derive(Debug, Clone)]
pub struct UvDownloadConfig {
    pub mirrors: Vec<UvMirror>,
    pub max_retries: usize,
    pub connect_timeout_secs: u64,
    pub read_timeout_secs: u64,
}

impl Default for UvDownloadConfig {
    /// The built-in fallback: a single upstream source.
    fn default() -> (r: Self)
        ensures
            r.mirrors@.len() == 1,
            r.mirrors@[0].name@ == "github"@,
            r.mirrors@[0].url@ == "https://github.com/astral-sh/uv/releases/latest/download/"@,
            r.max_retries == 3,
            r.connect_timeout_secs == 5,
            r.read_timeout_secs == 30,
    {
        let mut mirrors: Vec<UvMirror> = Vec::new();
        mirrors.push(UvMirror {
            name: "github".to_owned(),
            url: "https://github.com/astral-sh/uv/releases/latest/download/".to_owned(),
        });
        UvDownloadConfig { mirrors, max_retries: 3, connect_timeout_secs: 5, read_timeout_secs: 30 }
    }
}

/// Download progress callback data.
#[derive(Debug, Clone)]
pub struct DownloadProgress {
    pub current: u64,
    pub total: Option<u64>,
    pub mirror_name: String,
}

/// Target operating system of the asset to download.
#[derive(Debug, Clone, Copy, PartialEq, Eq, Structural)]
pub enum TargetOs {
    MacOs,
    Linux,
    Windows,
    Other,
}

/// Target processor architecture of the asset to download.
#[derive(Debug, Clone, Copy, PartialEq, Eq, Structural)]
pub enum TargetArch {
    X64,
    Arm64,
    Other,
}

/// The archive name expected for a platform; unsupported combinations map
/// to a placeholder that fails at fetch time rather than at resolution time.
pub open spec fn spec_asset_name(os: TargetOs, arch: TargetArch) -> Seq<char> {
    if os == TargetOs::MacOs && arch == TargetArch::Arm64 {
        "uv-aarch64-apple-darwin.tar.gz"@
    } else if os == TargetOs::MacOs && arch == TargetArch::X64 {
        "uv-x86_64-apple-darwin.tar.gz"@
    } else if os == TargetOs::Linux && arch == TargetArch::X64 {
        "uv-x86_64-unknown-linux-gnu.tar.gz"@
    } else if os == TargetOs::Linux && arch == TargetArch::Arm64 {
        "uv-aarch64-unknown-linux-gnu.tar.gz"@
    } else {
        "uv-unknown-unknown.tar.gz"@
    }
}

/// Resolve the asset name for a platform.
pub fn resolve_asset_name(os: TargetOs, arch: TargetArch) -> (r: &'static str)
    ensures
        r@ == spec_asset_name(os, arch),
{
    if os == TargetOs::MacOs && arch == TargetArch::Arm64 {
        "uv-aarch64-apple-darwin.tar.gz"
    } else if os == TargetOs::MacOs && arch == TargetArch::X64 {
        "uv-x86_64-apple-darwin.tar.gz"
    } else if os == TargetOs::Linux && arch == TargetArch::X64 {
        "uv-x86_64-unknown-linux-gnu.tar.gz"
    } else if os == TargetOs::Linux && arch == TargetArch::Arm64 {
        "uv-aarch64-unknown-linux-gnu.tar.gz"
    } else {
        "uv-unknown-unknown.tar.gz"
    }
}

/// Resolve the full download URL: the mirror's base URL with trailing
/// slashes removed, a single slash, then the asset name.
pub fn resolve_download_url(mirror: &UvMirror, asset: &str) -> (r: String)
    ensures
        r@ == spec_trim_end(mirror.url@, '/') + seq!['/'] + asset@,
{
    let base = trim_end_char(mirror.url.as_str(), '/');
    let with_slash = str_concat(base.as_str(), "/");
    let r = str_concat(with_slash.as_str(), asset);
    proof {
        reveal_strlit("/");
        assert("/"@ =~= seq!['/']);
        assert(r@ =~= spec_trim_end(mirror.url@, '/') + seq!['/'] + asset@);
    }
    r
}

/// Errors surfaced by the download process.
#[derive(Debug, Clone)]
pub enum DownloadError {
    /// Another download already holds the install lock.
    DownloadInProgress,
    /// Every mirror was tried and failed; carries the last mirror's error
    /// message, if at least one mirror was attempted.
    AllMirrorsFailed(Option<String>),
    /// The mirror configuration document could not be parsed.
    InvalidConfig,
}

/// The (name, url) pairs that the `mirrors` list under the `[uv]` key of a
/// configuration document denotes, or `None` when the document does not
/// parse or lacks a well-formed list.
pub uninterp spec fn toml_mirrors_of(s: Seq<char>) -> Option<Seq<(Seq<char>, Seq<char>)>>;

/// The character-level contents of a sequence of string pairs.
pub open spec fn pairs_view(v: Seq<(String, String)>) -> Seq<(Seq<char>, Seq<char>)> {
    v.map_values(|p: (String, String)| (p.0@, p.1@))
}

/// The character-level contents of a mirror list.
pub open spec fn mirrors_view(v: Seq<UvMirror>) -> Seq<(Seq<char>, Seq<char>)> {
    v.map_values(|m: UvMirror| (m.name@, m.url@))
}

/// Relies on `toml::from_str` and `toml::Value`'s `get` / `as_array` /
/// `as_str` accessors: the mirror pairs under the `[uv]` table's `mirrors`
/// key are a function of the document text alone; a document that does not
/// parse, or whose entries lack a string `name` or `url`, yields `None`.
#[verifier::external_body]
fn toml_uv_mirror_pairs(s: &str) -> (r: Option<Vec<(String, String)>>)
    ensures
        (r is Some) == (toml_mirrors_of(s@) is Some),
        r matches Some(v) ==> Some(pairs_view(v@)) == toml_mirrors_of(s@),
{
    let doc: toml::Value = match toml::from_str(s) {
        Ok(v) => v,
        Err(_) => return None,
    };
    let arr = doc.get("uv")?.get("mirrors")?.as_array()?;
    let mut out: Vec<(String, String)> = Vec::new();
    for m in arr {
        let name = m.get("name")?.as_str()?;
        let url = m.get("url")?.as_str()?;
        out.push((name.to_owned(), url.to_owned()));
    }
    Some(out)
}

/// Parse the download configuration out of a profile document.
///
/// Succeeds exactly when the document holds a well-formed mirror list; the
/// remaining settings are fixed defaults.
pub fn parse_uv_config(toml_content: &str) -> (r: Result<UvDownloadConfig, DownloadError>)
    ensures
        (r is Ok) == (toml_mirrors_of(toml_content@) is Some),
        r matches Ok(cfg) ==> {
            &&& Some(mirrors_view(cfg.mirrors@)) == toml_mirrors_of(toml_content@)
            &&& cfg.max_retries == 3
            &&& cfg.connect_timeout_secs == 5
            &&& cfg.read_timeout_secs == 30
        },
        r matches Err(e) ==> e is InvalidConfig,
{
    let pairs = match toml_uv_mirror_pairs(toml_content) {
        Some(p) => p,
        None => {
            return Err(DownloadError::InvalidConfig);
        },
    };
    let ghost all_pairs = pairs@;
    let mut mirrors: Vec<UvMirror> = Vec::new();
    let mut i: usize = 0;
    while i < pairs.len()
        invariant
            0 <= i <= pairs@.len(),
            pairs@ == all_pairs,
            mirrors@.len() == i,
            forall|j: int| 0 <= j < i ==> #[trigger] mirrors@[j].name@ == all_pairs[j].0@
                && mirrors@[j].url@ == all_pairs[j].1@,
        decreases pairs@.len() - i,
    {
        let name = pairs[i].0.clone();
        let url = pairs[i].1.clone();
        mirrors.push(UvMirror { name, url });
        i += 1;
    }
    proof {
        assert(mirrors_view(mirrors@) =~= pairs_view(all_pairs));
    }
    Ok(UvDownloadConfig { mirrors, max_retries: 3, connect_timeout_secs: 5, read_timeout_secs: 30 })
}

/// The configuration to use given the text of an optional profile document:
/// the parsed mirrors when the document is present and well formed, the
/// built-in default otherwise.  A malformed optional profile never blocks
/// downloading.
pub fn uv_config_from_content(content: Option<&str>) -> (r: UvDownloadConfig)
    ensures
        match content {
            Some(s) if toml_mirrors_of(s@) is Some => Some(mirrors_view(r.mirrors@))
                == toml_mirrors_of(s@),
            _ => {
                &&& r.mirrors@.len() == 1
                &&& r.mirrors@[0].name@ == "github"@
                &&& r.mirrors@[0].url@
                    == "https://github.com/astral-sh/uv/releases/latest/download/"@
            },
        },
        r.max_retries == 3,
        r.connect_timeout_secs == 5,
        r.read_timeout_secs == 30,
{
    match content {
        Some(s) => match parse_uv_config(s) {
            Ok(cfg) => cfg,
            Err(_) => UvDownloadConfig::default(),
        },
        None => UvDownloadConfig::default(),
    }
}

/// Outcome of one mirror attempt, as reported by the unverified driver.
pub enum AttemptOutcome {
    /// The archive was fetched, the binary extracted and installed.
    Installed,
    /// The fetch failed (connection, timeout, bad status, or I/O).
    FetchFailed(String),
    /// The fetch succeeded but the archive could not be installed.
    ExtractFailed(String),
}

/// Failover state machine for one download call.
///
/// `next_idx` is the mirror to try next; `outcome` is `Some` once the run
/// has finished.  `temp_present` tracks whether a partial temporary file
/// exists on disk: the driver sets it when a fetch begins writing and the
/// transitions clear it, mirroring the cleanup the driver must perform.
pub struct DownloadRun {
    pub n_mirrors: usize,
    pub next_idx: usize,
    pub last_error: Option<String>,
    pub temp_present: bool,
    pub outcome: Option<Result<usize, DownloadError>>,
}

impl DownloadRun {
    /// Well-formedness: the index stays in range, an unfinished run still
    /// has a mirror to try, a successful outcome names a real mirror, and a
    /// finished run leaves no temporary file behind.
    pub open spec fn wf(&self) -> bool {
        &&& self.next_idx <= self.n_mirrors
        &&& (self.outcome is None ==> self.next_idx < self.n_mirrors)
        &&& (match self.outcome {
            Some(Ok(i)) => i < self.n_mirrors,
            _ => true,
        })
        &&& (self.outcome is Some ==> !self.temp_present)
    }

    /// Start a download run over `n_mirrors` mirrors.  When the install
    /// lock could not be acquired the run finishes immediately with
    /// `DownloadInProgress`, before any mirror is attempted and before any
    /// temporary file is written.
    pub fn begin(n_mirrors: usize, lock_acquired: bool) -> (r: DownloadRun)
        ensures
            r.wf(),
            r.n_mirrors == n_mirrors,
            r.next_idx == 0,
            r.last_error is None,
            !r.temp_present,
            !lock_acquired ==> r.outcome == Some(
                Result::<usize, DownloadError>::Err(DownloadError::DownloadInProgress),
            ),
            lock_acquired && n_mirrors == 0 ==> r.outcome == Some(
                Result::<usize, DownloadError>::Err(DownloadError::AllMirrorsFailed(None)),
            ),
            lock_acquired && n_mirrors > 0 ==> r.outcome is None,
    {
        let outcome: Option<Result<usize, DownloadError>> = if !lock_acquired {
            Some(Err(DownloadError::DownloadInProgress))
        } else if n_mirrors == 0 {
            Some(Err(DownloadError::AllMirrorsFailed(None)))
        } else {
            None
        };
        DownloadRun { n_mirrors, next_idx: 0, last_error: None, temp_present: false, outcome }
    }

    /// The driver has begun writing the temporary file for the current
    /// attempt.
    pub fn start_fetch(&mut self)
        requires
            old(self).wf(),
            old(self).outcome is None,
        ensures
            *final(self) == (DownloadRun { temp_present: true, ..*old(self) }),
    {
        self.temp_present = true;
    }

    /// Record the outcome of the attempt against mirror `next_idx` and
    /// decide what happens next: stop on success, otherwise remember the
    /// error, clean up, and move to the next mirror — failing the whole run
    /// once every mirror has been tried.
    pub fn record_attempt(&mut self, outcome: AttemptOutcome)
        requires
            old(self).wf(),
            old(self).outcome is None,
        ensures
            final(self).wf(),
            *final(self) == spec_record(*old(self), outcome),
    {
        match outcome {
            AttemptOutcome::Installed => {
                self.outcome = Some(Ok(self.next_idx));
                self.temp_present = false;
            },
            AttemptOutcome::FetchFailed(msg) => {
                self.apply_failure(msg);
            },
            AttemptOutcome::ExtractFailed(msg) => {
                self.apply_failure(msg);
            },
        }
    }

    fn apply_failure(&mut self, msg: String)
        requires
            old(self).wf(),
            old(self).outcome is None,
        ensures
            *final(self) == spec_record_failure(*old(self), msg),
    {
        self.next_idx = self.next_idx + 1;
        self.temp_present = false;
        if self.next_idx == self.n_mirrors {
            self.outcome = Some(Err(DownloadError::AllMirrorsFailed(Some(msg.clone()))));
        }
        self.last_error = Some(msg);
    }
}

/// The state after a failed attempt: the error is remembered, the partial
/// temporary file is gone, and the run either moves to the next mirror or —
/// when this was the last one — fails with the last error observed.
pub open spec fn spec_record_failure(run: DownloadRun, msg: String) -> DownloadRun {
    DownloadRun {
        next_idx: (run.next_idx + 1) as usize,
        last_error: Some(msg),
        temp_present: false,
        outcome: if run.next_idx + 1 == run.n_mirrors {
            Some(Err(DownloadError::AllMirrorsFailed(Some(msg))))
        } else {
            None
        },
        ..run
    }
}

/// The failover transition applied by `DownloadRun::record_attempt`.
pub open spec fn spec_record(run: DownloadRun, outcome: AttemptOutcome) -> DownloadRun {
    match outcome {
        AttemptOutcome::Installed => DownloadRun {
            outcome: Some(Ok(run.next_idx)),
            temp_present: false,
            ..run
        },
        AttemptOutcome::FetchFailed(msg) => spec_record_failure(run, msg),
        AttemptOutcome::ExtractFailed(msg) => spec_record_failure(run, msg),
    }
}

/// The run after a sequence of attempt outcomes has been recorded in order.
pub open spec fn spec_run_fold(run: DownloadRun, outcomes: Seq<AttemptOutcome>) -> DownloadRun
    decreases outcomes.len(),
{
    if outcomes.len() == 0 {
        run
    } else {
        spec_run_fold(spec_record(run, outcomes[0]), outcomes.drop_first())
    }
}

/// The message carried by a failed attempt outcome.
pub open spec fn spec_outcome_msg(outcome: AttemptOutcome) -> Option<String> {
    match outcome {
        AttemptOutcome::Installed => None,
        AttemptOutcome::FetchFailed(msg) => Some(msg),
        AttemptOutcome::ExtractFailed(msg) => Some(msg),
    }
}

/// Law: when the first `N - 1` mirrors fail and the last one succeeds, the
/// run finishes successfully using exactly the last mirror, and no
/// temporary file remains afterwards.
pub proof fn lemma_failover_last_mirror(run: DownloadRun, outcomes: Seq<AttemptOutcome>)
    requires
        run.wf(),
        run.outcome is None,
        run.next_idx == 0,
        outcomes.len() == run.n_mirrors,
        outcomes.len() > 0,
        forall|i: int| 0 <= i < outcomes.len() - 1 ==> !(#[trigger] outcomes[i] is Installed),
        outcomes.last() is Installed,
    ensures
        spec_run_fold(run, outcomes).outcome == Some(
            Result::<usize, DownloadError>::Ok((run.n_mirrors - 1) as usize),
        ),
        !spec_run_fold(run, outcomes).temp_present,
{
    lemma_fold_success_at_end(run, outcomes);
}

proof fn lemma_fold_success_at_end(run: DownloadRun, outcomes: Seq<AttemptOutcome>)
    requires
        run.wf(),
        run.outcome is None,
        outcomes.len() == run.n_mirrors - run.next_idx,
        outcomes.len() > 0,
        forall|i: int| 0 <= i < outcomes.len() - 1 ==> !(#[trigger] outcomes[i] is Installed),
        outcomes.last() is Installed,
    ensures
        spec_run_fold(run, outcomes).outcome == Some(
            Result::<usize, DownloadError>::Ok((run.n_mirrors - 1) as usize),
        ),
        !spec_run_fold(run, outcomes).temp_present,
    decreases outcomes.len(),
{
    let next = spec_record(run, outcomes[0]);
    if outcomes.len() == 1 {
        assert(outcomes[0] is Installed);
        assert(next.outcome == Some(Result::<usize, DownloadError>::Ok(run.next_idx)));
        assert(run.next_idx == run.n_mirrors - 1);
        assert(spec_run_fold(next, outcomes.drop_first()) == next);
    } else {
        assert(!(outcomes[0] is Installed));
        assert(next.outcome is None) by {
            assert(run.next_idx + 1 < run.n_mirrors);
        }
        assert(forall|i: int| 0 <= i < outcomes.drop_first().len() - 1 ==> !(
        #[trigger] outcomes.drop_first()[i] is Installed));
        assert(outcomes.drop_first().last() is Installed);
        lemma_fold_success_at_end(next, outcomes.drop_first());
    }
}

/// Law: when every mirror fails, the run fails with `AllMirrorsFailed`
/// carrying the last attempted mirror's error message, and no temporary
/// file remains afterwards.
pub proof fn lemma_all_mirrors_fail(run: DownloadRun, outcomes: Seq<AttemptOutcome>)
    requires
        run.wf(),
        run.outcome is None,
        run.next_idx == 0,
        outcomes.len() == run.n_mirrors,
        outcomes.len() > 0,
        forall|i: int| 0 <= i < outcomes.len() ==> !(#[trigger] outcomes[i] is Installed),
    ensures
        spec_run_fold(run, outcomes).outcome == Some(
            Result::<usize, DownloadError>::Err(
                DownloadError::AllMirrorsFailed(spec_outcome_msg(outcomes.last())),
            ),
        ),
        !spec_run_fold(run, outcomes).temp_present,
{
    lemma_fold_all_fail(run, outcomes);
}

proof fn lemma_fold_all_fail(run: DownloadRun, outcomes: Seq<AttemptOutcome>)
    requires
        run.wf(),
        run.outcome is None,
        outcomes.len() == run.n_mirrors - run.next_idx,
        outcomes.len() > 0,
        forall|i: int| 0 <= i < outcomes.len() ==> !(#[trigger] outcomes[i] is Installed),
    ensures
        spec_run_fold(run, outcomes).outcome == Some(
            Result::<usize, DownloadError>::Err(
                DownloadError::AllMirrorsFailed(spec_outcome_msg(outcomes.last())),
            ),
        ),
        !spec_run_fold(run, outcomes).temp_present,
    decreases outcomes.len(),
{
    let next = spec_record(run, outcomes[0]);
    if outcomes.len() == 1 {
        assert(run.next_idx + 1 == run.n_mirrors);
        assert(spec_run_fold(next, outcomes.drop_first()) == next);
    } else {
        assert(next.outcome is None) by {
            assert(run.next_idx + 1 < run.n_mirrors);
        }
        assert(forall|i: int| 0 <= i < outcomes.drop_first().len() ==> !(
        #[trigger] outcomes.drop_first()[i] is Installed));
        lemma_fold_all_fail(next, outcomes.drop_first());
        assert(outcomes.drop_first().last() == outcomes.last());
    }
}

/// Progress accounting after one received chunk: the new byte counter and
/// the event to hand to the progress callback.
pub fn progress_after_chunk(downloaded: u64, chunk_len: u64, total: Option<u64>, mirror_name: &str)
    -> (r: (u64, DownloadProgress))
    requires
        downloaded + chunk_len <= u64::MAX,
    ensures
        r.0 == downloaded + chunk_len,
        r.1.current == r.0,
        r.1.total == total,
        r.1.mirror_name@ == mirror_name@,
{
    let new_total = downloaded + chunk_len;
    (new_total, DownloadProgress { current: new_total, total, mirror_name: mirror_name.to_owned() })
}

} // verus!
