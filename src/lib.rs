//! Locating the rustfmt binary, its configuration and the per-target
//! manifests that describe which sources to format.

pub mod config;
pub mod exec_root;
pub mod locate;
pub mod manifest;
pub mod text;

pub use config::{parse_rustfmt_config, RustfmtConfig};
pub use locate::{Locator, Lookup, RustfmtError};
pub use manifest::{find_manifests, parse_rustfmt_manifest, HostFamily, RustfmtManifest};
