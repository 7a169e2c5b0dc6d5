//! The failures that the pipeline reports.

use vstd::prelude::*;

verus! {

/// Why a step of the pipeline did not deliver.
///
/// Every stage hands its failure up unchanged; nothing here is retried by the
/// library itself.
#[derive(Clone, Copy, Debug, PartialEq, Eq, Structural)]
pub enum PipelineError {
    /// The transport failed; `timed_out` tells a timeout from other failures.
    Network { timed_out: bool },
    /// The registry answered with a failure status or a body that cannot be read.
    Registry,
    /// No file name rule exists for the platform.
    UnsupportedPlatform,
    /// No asset passes the filters.
    NotFound,
    /// The archive could not be fetched.
    Download,
    /// The bytes are not a readable archive.
    CorruptArchive,
    /// An archive entry would be written outside the target directory.
    UnsafeArchiveEntry,
    /// A directory or file could not be created or written.
    Filesystem,
}

impl PipelineError {
    /// The reason shown to the user.
    pub open spec fn reason(self) -> Seq<char> {
        match self {
            PipelineError::Network { timed_out } => if timed_out {
                "network request timed out"@
            } else {
                "network request failed"@
            },
            PipelineError::Registry => "release registry gave an unusable answer"@,
            PipelineError::UnsupportedPlatform => "no builds exist for this platform"@,
            PipelineError::NotFound => "no matching download for this version"@,
            PipelineError::Download => "download failed"@,
            PipelineError::CorruptArchive => "downloaded archive is corrupt"@,
            PipelineError::UnsafeArchiveEntry => "archive entry leaves the install directory"@,
            PipelineError::Filesystem => "could not write to the install directory"@,
        }
    }

    /// Whether trying again may help: only failures of the network and of
    /// the download are taken to be passing ones.
    pub open spec fn transient(self) -> bool {
        self is Network || self is Download
    }

    /// A short reason for the user, one fixed text per failure.
    pub fn message(&self) -> (text: String)
        ensures
            text@ == self.reason(),
    {
        match self {
            PipelineError::Network { timed_out } => if *timed_out {
                "network request timed out".to_owned()
            } else {
                "network request failed".to_owned()
            },
            PipelineError::Registry => "release registry gave an unusable answer".to_owned(),
            PipelineError::UnsupportedPlatform => "no builds exist for this platform".to_owned(),
            PipelineError::NotFound => "no matching download for this version".to_owned(),
            PipelineError::Download => "download failed".to_owned(),
            PipelineError::CorruptArchive => "downloaded archive is corrupt".to_owned(),
            PipelineError::UnsafeArchiveEntry => "archive entry leaves the install directory".to_owned(),
            PipelineError::Filesystem => "could not write to the install directory".to_owned(),
        }
    }

    /// Whether a caller may sensibly try the same action again.
    pub fn is_transient(&self) -> (r: bool)
        ensures
            r == self.transient(),
    {
        match self {
            PipelineError::Network { .. } => true,
            PipelineError::Download => true,
            _ => false,
        }
    }
}

} // verus!
