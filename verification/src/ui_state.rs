//! State tracked for the UI windows.
//!
//! The windows themselves live outside this crate; these objects decide
//! what each UI event means: whether a hide is the first one (and deserves
//! a notification), whether a toast is still the latest, and what the
//! setup splash has selected so far.

use vstd::prelude::*;

use crate::downloader::UvDownloadConfig;

verus! {

/// Tracks whether the main window has been hidden to the tray at least
/// once.
pub struct MainWindowState {
    pub has_hidden_once: bool,
}

impl MainWindowState {
    pub fn new() -> (r: Self)
        ensures
            !r.has_hidden_once,
    {
        MainWindowState { has_hidden_once: false }
    }

    /// Mark that the window has been hidden; returns true exactly when
    /// this was the first time.
    pub fn mark_hidden(&mut self) -> (r: bool)
        ensures
            final(self).has_hidden_once,
            r == !old(self).has_hidden_once,
    {
        let r = !self.has_hidden_once;
        self.has_hidden_once = true;
        r
    }
}

/// Controller for the guide window's auto-close timer.
pub struct GuideController {
    pub cancelled: bool,
}

impl GuideController {
    pub fn new() -> (r: Self)
        ensures
            !r.cancelled,
    {
        GuideController { cancelled: false }
    }

    /// Cancel the auto-close timer; returns true exactly when this call
    /// did the cancelling, so the timer is notified once.
    pub fn cancel_auto_close(&mut self) -> (r: bool)
        ensures
            final(self).cancelled,
            r == !old(self).cancelled,
    {
        let r = !self.cancelled;
        self.cancelled = true;
        r
    }

    /// Has auto-close been cancelled?
    pub fn is_cancelled(&self) -> (r: bool)
        ensures
            r == self.cancelled,
    {
        self.cancelled
    }
}

/// Toast state for debouncing rapid show calls: a toast may only hide
/// itself when no newer toast has been shown since.
pub struct ToastState {
    pub generation: u64,
}

impl ToastState {
    pub fn new() -> (r: Self)
        ensures
            r.generation == 0,
    {
        ToastState { generation: 0 }
    }

    /// Increment the generation counter (wrapping) and return the new
    /// value.
    pub fn next_generation(&mut self) -> (r: u64)
        ensures
            final(self).generation == r,
            old(self).generation < u64::MAX ==> r == old(self).generation + 1,
            old(self).generation == u64::MAX ==> r == 0,
    {
        if self.generation == u64::MAX {
            self.generation = 0;
        } else {
            self.generation = self.generation + 1;
        }
        self.generation
    }

    /// The current generation.
    pub fn current(&self) -> (r: u64)
        ensures
            r == self.generation,
    {
        self.generation
    }
}

/// A copy of a download configuration with the same contents.
fn clone_download_config(cfg: &UvDownloadConfig) -> (r: UvDownloadConfig)
    ensures
        r.mirrors@ == cfg.mirrors@,
        r.max_retries == cfg.max_retries,
        r.connect_timeout_secs == cfg.connect_timeout_secs,
        r.read_timeout_secs == cfg.read_timeout_secs,
{
    let mut mirrors: Vec<crate::downloader::UvMirror> = Vec::new();
    let mut i: usize = 0;
    while i < cfg.mirrors.len()
        invariant
            0 <= i <= cfg.mirrors@.len(),
            mirrors@ =~= cfg.mirrors@.subrange(0, i as int),
        decreases cfg.mirrors@.len() - i,
    {
        let name = cfg.mirrors[i].name.clone();
        let url = cfg.mirrors[i].url.clone();
        let mirror = crate::downloader::UvMirror { name, url };
        proof {
            assert(mirror == cfg.mirrors@[i as int]);
        }
        mirrors.push(mirror);
        i += 1;
    }
    proof {
        assert(mirrors@ =~= cfg.mirrors@);
    }
    UvDownloadConfig {
        mirrors,
        max_retries: cfg.max_retries,
        connect_timeout_secs: cfg.connect_timeout_secs,
        read_timeout_secs: cfg.read_timeout_secs,
    }
}

/// Splash (setup) window state: the mirror configuration selected by the
/// user and the directory the runtime binary is installed into.
pub struct SplashState {
    pub config: Option<UvDownloadConfig>,
    pub bin_dir: Option<String>,
}

impl SplashState {
    pub fn new() -> (r: Self)
        ensures
            r.config is None,
            r.bin_dir is None,
    {
        SplashState { config: None, bin_dir: None }
    }

    /// Store the selected download configuration.
    pub fn set_config(&mut self, config: UvDownloadConfig)
        ensures
            final(self).config == Some(config),
            final(self).bin_dir == old(self).bin_dir,
    {
        self.config = Some(config);
    }

    /// A copy of the selected download configuration, if any.
    pub fn get_config(&self) -> (r: Option<UvDownloadConfig>)
        ensures
            (r is Some) == (self.config is Some),
            self.config matches Some(c0) ==> (r matches Some(c) && c.mirrors@ == c0.mirrors@
                && c.max_retries == c0.max_retries && c.connect_timeout_secs
                == c0.connect_timeout_secs && c.read_timeout_secs == c0.read_timeout_secs),
    {
        match &self.config {
            Some(cfg) => Some(clone_download_config(cfg)),
            None => None,
        }
    }

    /// Store the install directory for the runtime binary.
    pub fn set_bin_dir(&mut self, dir: String)
        ensures
            final(self).bin_dir == Some(dir),
            final(self).config == old(self).config,
    {
        self.bin_dir = Some(dir);
    }

    /// The install directory for the runtime binary, if set.
    pub fn get_bin_dir(&self) -> (r: Option<String>)
        ensures
            r == self.bin_dir,
    {
        match &self.bin_dir {
            Some(dir) => Some(dir.clone()),
            None => None,
        }
    }
}

} // verus!
