//! The rustfmt binary and its configuration file.

use std::path::PathBuf;
use vstd::prelude::*;

use crate::locate::{lookup_of, Locator, Lookup, RustfmtError};

verus! {

/// What running rustfmt needs: the binary and its settings file, both
/// present on disk.
#[derive(Debug)]
pub struct RustfmtConfig {
    /// The rustfmt binary of the active toolchain.
    pub rustfmt: PathBuf,
    /// The configuration file that holds rustfmt's settings.
    pub config: PathBuf,
}

/// The configuration, or the first fault, that the lookups of the binary
/// and of the configuration file give.
pub open spec fn config_outcome(rustfmt: Lookup, config: Lookup) -> Result<RustfmtConfig, RustfmtError> {
    match rustfmt {
        Lookup::Unknown(q) => Err(RustfmtError::Unresolved(q)),
        Lookup::Absent(p) => Err(RustfmtError::RustfmtNotFound(p)),
        Lookup::Present(p) => match config {
            Lookup::Unknown(q) => Err(RustfmtError::Unresolved(q)),
            Lookup::Absent(c) => Err(RustfmtError::ConfigNotFound(c)),
            Lookup::Present(c) => Ok(RustfmtConfig { rustfmt: p, config: c }),
        },
    }
}

/// Builds the configuration from the lookups of the binary and of the
/// configuration file: both must have found a file that exists, the binary
/// checked first.
pub fn config_from_lookups(rustfmt: Lookup, config: Lookup) -> (r: Result<RustfmtConfig, RustfmtError>)
    ensures
        r == config_outcome(rustfmt, config),
{
    match rustfmt {
        Lookup::Unknown(q) => Err(RustfmtError::Unresolved(q)),
        Lookup::Absent(p) => Err(RustfmtError::RustfmtNotFound(p)),
        Lookup::Present(p) => match config {
            Lookup::Unknown(q) => Err(RustfmtError::Unresolved(q)),
            Lookup::Absent(c) => Err(RustfmtError::ConfigNotFound(c)),
            Lookup::Present(c) => Ok(RustfmtConfig { rustfmt: p, config: c }),
        },
    }
}

/// Finds the rustfmt binary and its configuration file under their logical
/// paths in `locator`'s repository, and checks that both exist.
pub fn parse_rustfmt_config(locator: &Locator, rustfmt: &str, config: &str) -> (r: Result<
    RustfmtConfig,
    RustfmtError,
>)
    ensures
        exists|a: Lookup, b: Lookup|
            lookup_of(locator.repository@, rustfmt@, a) && lookup_of(
                locator.repository@,
                config@,
                b,
            ) && r == config_outcome(a, b),
{
    let a = locator.lookup(rustfmt);
    let b = locator.lookup(config);
    let ghost (ga, gb) = (a, b);
    let r = config_from_lookups(a, b);
    assert(lookup_of(locator.repository@, rustfmt@, ga) && lookup_of(
        locator.repository@,
        config@,
        gb,
    ) && r == config_outcome(ga, gb));
    r
}

} // verus!
