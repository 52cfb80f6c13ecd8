//! Local service orchestration for a desktop application's backend:
//! a process supervisor, an embedded reverse-proxy gateway, and a
//! mirror-failover downloader with atomic install semantics.

pub mod archive;
pub mod cli;
pub mod config;
pub mod downloader;
pub mod gateway;
pub mod i18n;
pub mod installer;
pub mod status;
pub mod supervisor;
pub mod text;
pub mod ui_state;

