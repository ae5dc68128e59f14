//! The failures the library itself can report. External tool failures are
//! handled by the caller that spawns the tools; these are the malformed- or
//! missing-input cases of the pure pipeline logic.

use vstd::prelude::*;

verus! {

/// A failure of the packaging logic.
#[derive(Debug, Clone, Copy, PartialEq, Eq, Structural)]
pub enum BuildError {
    /// The package manifest's top level is not a JSON object.
    ManifestNotObject,
    /// The crate manifest holds no package name.
    MissingPackageName,
    /// No relative path leads from the manifest directory to the output
    /// directory.
    NoRelativePath,
    /// The base64 payload module held no quoted payload string.
    MalformedBase64Module,
}

impl BuildError {
    /// A human-readable description of the failure.
    pub open spec fn spec_message(self) -> Seq<char> {
        match self {
            BuildError::ManifestNotObject => "package manifest must be an object"@,
            BuildError::MissingPackageName => "could not find package name in crate manifest"@,
            BuildError::NoRelativePath => "failed to compute relative path to output directory"@,
            BuildError::MalformedBase64Module => "failed to parse base64 payload module"@,
        }
    }

    pub fn message(&self) -> (r: &'static str)
        ensures
            r@ == self.spec_message(),
    {
        match self {
            BuildError::ManifestNotObject => "package manifest must be an object",
            BuildError::MissingPackageName => "could not find package name in crate manifest",
            BuildError::NoRelativePath => "failed to compute relative path to output directory",
            BuildError::MalformedBase64Module => "failed to parse base64 payload module",
        }
    }
}

} // verus!
