//! Why a workspace could not be provisioned.

use vstd::prelude::*;

verus! {

/// A structural failure while a workspace is assembled. None of these is worth
/// a second attempt with the same inputs.
#[derive(Debug)]
pub enum ProvisioningError {
    /// The tree to copy from is not a directory.
    SourceNotADirectory,
    /// The step at this position of a copy plan could not be carried out.
    CopyFailed { step: usize },
    /// The component is declared, but none of its build outputs exists.
    ArtifactNotFound { component: String },
    /// No component of that name is declared in the workspace.
    ComponentUnknown { component: String },
    /// No version of the add-on package with this number is pinned or installed.
    PackageNotFound { number: u64 },
    /// The file name ends in neither of the known library suffixes.
    UnrecognizedExtension { name: String },
    /// The file name pattern is not a regular expression.
    InvalidPattern { pattern: String },
    /// No file below the base directory has a name that the pattern matches.
    FileNotFound { pattern: String, base: Vec<String> },
}

/// What a [`ProvisioningError`] says, with its texts as sequences of characters.
pub enum ProvisioningFailure {
    SourceNotADirectory,
    CopyFailed { step: usize },
    ArtifactNotFound { component: Seq<char> },
    ComponentUnknown { component: Seq<char> },
    PackageNotFound { number: u64 },
    UnrecognizedExtension { name: Seq<char> },
    InvalidPattern { pattern: Seq<char> },
    FileNotFound { pattern: Seq<char>, base: Seq<Seq<char>> },
}

impl View for ProvisioningError {
    type V = ProvisioningFailure;

    open spec fn view(&self) -> ProvisioningFailure {
        match self {
            ProvisioningError::SourceNotADirectory => ProvisioningFailure::SourceNotADirectory,
            ProvisioningError::CopyFailed { step } => ProvisioningFailure::CopyFailed {
                step: *step,
            },
            ProvisioningError::ArtifactNotFound { component } => {
                ProvisioningFailure::ArtifactNotFound { component: component@ }
            },
            ProvisioningError::ComponentUnknown { component } => {
                ProvisioningFailure::ComponentUnknown { component: component@ }
            },
            ProvisioningError::PackageNotFound { number } => ProvisioningFailure::PackageNotFound {
                number: *number,
            },
            ProvisioningError::UnrecognizedExtension { name } => {
                ProvisioningFailure::UnrecognizedExtension { name: name@ }
            },
            ProvisioningError::InvalidPattern { pattern } => ProvisioningFailure::InvalidPattern {
                pattern: pattern@,
            },
            ProvisioningError::FileNotFound { pattern, base } => ProvisioningFailure::FileNotFound {
                pattern: pattern@,
                base: base.deep_view(),
            },
        }
    }
}

} // verus!
