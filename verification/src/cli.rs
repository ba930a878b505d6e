//! Command-line options, as plain values once the shell around the
//! library has parsed them.

use vstd::prelude::*;

verus! {

/// Startup options.
#[derive(Debug)]
pub struct CliArgs {
    /// Overrides the configured database URL when set.
    pub database_url: Option<String>,
    /// Enables prompt transcription.
    pub enable_transcription: bool,
}

} // verus!
