use vstd::prelude::*;

verus! {

/// Command-line options: where the configuration comes from and how loudly to log.
pub struct Opt {
    /// Path of the configuration file; the sentinel "-" means standard input.
    pub config: String,
    /// Enable debug-level logging.
    pub debug: bool,
}

} // verus!
