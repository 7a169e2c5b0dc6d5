//! What is asked of the release registry, and how an answer is judged.

use vstd::prelude::*;

use crate::error::PipelineError;

verus! {

/// Owner of the repository that publishes the builds.
pub const RELEASE_OWNER: &'static str = "godotengine";

/// The repository that publishes the builds.
pub const RELEASE_REPOSITORY: &'static str = "godot-builds";

/// The most releases that one listing asks for.
pub const MAX_PAGE_SIZE: u8 = 10;

/// How a request over the network ended.
#[derive(Clone, Copy, Debug, PartialEq, Eq, Structural)]
pub enum FetchOutcome {
    /// An answer came, with this HTTP status.
    Status(u16),
    /// No answer came in time.
    TimedOut,
    /// The transport failed otherwise.
    TransportFailed,
}

/// The 2xx statuses report success.
pub open spec fn is_success(status: u16) -> bool {
    200 <= status < 300
}

/// How a listing of releases ended: a transport failure is a network
/// error, a failure status or a body that cannot be read is the registry's.
pub open spec fn listing_result(outcome: FetchOutcome, body_readable: bool) -> Result<
    (),
    PipelineError,
> {
    match outcome {
        FetchOutcome::TimedOut => Err(PipelineError::Network { timed_out: true }),
        FetchOutcome::TransportFailed => Err(PipelineError::Network { timed_out: false }),
        FetchOutcome::Status(status) => if is_success(status) && body_readable {
            Ok(())
        } else {
            Err(PipelineError::Registry)
        },
    }
}

/// How the download of an archive ended: a timeout is a network error, any
/// other transport failure and any failure status a download error.
pub open spec fn download_result(outcome: FetchOutcome) -> Result<(), PipelineError> {
    match outcome {
        FetchOutcome::TimedOut => Err(PipelineError::Network { timed_out: true }),
        FetchOutcome::TransportFailed => Err(PipelineError::Download),
        FetchOutcome::Status(status) => if is_success(status) {
            Ok(())
        } else {
            Err(PipelineError::Download)
        },
    }
}

/// The number of releases to ask for: what is wanted, but no more than
/// `MAX_PAGE_SIZE`.
pub fn page_size(wanted: u8) -> (size: u8)
    ensures
        size <= MAX_PAGE_SIZE,
        size == if wanted <= MAX_PAGE_SIZE {
            wanted
        } else {
            MAX_PAGE_SIZE
        },
{
    if wanted <= MAX_PAGE_SIZE {
        wanted
    } else {
        MAX_PAGE_SIZE
    }
}

/// Judges the answer to a listing of releases.
pub fn check_listing(outcome: FetchOutcome, body_readable: bool) -> (r: Result<(), PipelineError>)
    ensures
        r == listing_result(outcome, body_readable),
{
    match outcome {
        FetchOutcome::TimedOut => Err(PipelineError::Network { timed_out: true }),
        FetchOutcome::TransportFailed => Err(PipelineError::Network { timed_out: false }),
        FetchOutcome::Status(status) => {
            if 200 <= status && status < 300 && body_readable {
                Ok(())
            } else {
                Err(PipelineError::Registry)
            }
        },
    }
}

/// Judges the answer to the download of an archive.
pub fn check_download(outcome: FetchOutcome) -> (r: Result<(), PipelineError>)
    ensures
        r == download_result(outcome),
{
    match outcome {
        FetchOutcome::TimedOut => Err(PipelineError::Network { timed_out: true }),
        FetchOutcome::TransportFailed => Err(PipelineError::Download),
        FetchOutcome::Status(status) => {
            if 200 <= status && status < 300 {
                Ok(())
            } else {
                Err(PipelineError::Download)
            }
        },
    }
}

} // verus!
