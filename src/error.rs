use vstd::prelude::*;

verus! {

/// Why an install run stopped.
#[derive(Clone, Copy, Debug, PartialEq, Eq, Structural)]
pub enum InstallError {
    /// The run was started by the superuser.
    Privilege,
    /// The home directory is not known.
    Config,
    /// The release metadata could not be fetched.
    Network,
    /// The release metadata is not well formed.
    Parse,
    /// No asset of the release fits the detected CPU level.
    NoMatchingAsset,
    /// The asset could not be downloaded.
    Download,
    /// The archive could not be unpacked.
    Archive,
    /// The unpacked archive holds no package directory.
    Layout,
    /// The package directory could not be moved into place.
    InstallMove,
    /// A directory could not be created or listed.
    Filesystem,
}

} // verus!
