//! The smallest configuration a package can carry: where to unbox it.

use crate::package::PackageConfig;
use crate::path::ComponentPath;
use vstd::prelude::*;

verus! {

/// The settings kept in a package's run-commands file.
#[derive(Debug, PartialEq, Eq)]
pub struct BoxUnboxRc {
    /// The directory the package is unboxed into.
    pub target: ComponentPath,
}

impl BoxUnboxRc {
    /// The settings of a package that names no target: it is unboxed into
    /// `home`, the user's home directory.
    pub fn new(home: ComponentPath) -> (r: BoxUnboxRc)
        ensures
            r.target@ == home@,
    {
        BoxUnboxRc { target: home }
    }

    /// The settings that `config` stands for.
    pub fn from_config(config: &PackageConfig) -> (r: BoxUnboxRc)
        ensures
            r.target@ == config@.target,
    {
        BoxUnboxRc { target: config.target.clone() }
    }

    /// The name of the file the settings are kept in.
    pub fn rc_file_name() -> (s: &'static str)
        ensures
            s@ == ".unboxrc.ron"@,
    {
        ".unboxrc.ron"
    }
}

} // verus!
