//! Updating the configuration-file front end to the latest release.
//!
//! The release is fetched, compared with this version and downloaded outside
//! the library (the comparison is [`crate::commands::upgrade::check_for_updates`]);
//! here the outcome of the comparison decides what happens next.
use vstd::prelude::*;
use crate::text::owned;

pub mod request_models;

verus! {

/// What `update` does once the latest release was compared with this version.
#[derive(Debug)]
pub enum UpdateStep {
    /// A newer release exists: download it from this address.
    Download(String),
    /// A newer release exists but offers nothing to download.
    MissingDownloadUrl,
    /// This version is the latest.
    UpToDate,
}

/// The next step of `update`, from whether a newer release exists and the
/// address of its download, if it has one.
pub fn update_step(needs_update: bool, url: Option<String>) -> (s: UpdateStep)
    ensures
        !needs_update ==> s is UpToDate,
        needs_update ==> match url {
            Some(u) => s matches UpdateStep::Download(v) && v@ == u@,
            None => s is MissingDownloadUrl,
        },
{
    if needs_update {
        match url {
            Some(u) => UpdateStep::Download(u),
            None => UpdateStep::MissingDownloadUrl,
        }
    } else {
        UpdateStep::UpToDate
    }
}

/// The line that `update` prints for a step.
pub open spec fn step_text(s: UpdateStep) -> Seq<char> {
    match s {
        UpdateStep::Download(_) => "Update found, downloading..."@,
        UpdateStep::MissingDownloadUrl => "ERROR: No download url for the application found on GitHub"@,
        UpdateStep::UpToDate => "Already on latest version"@,
    }
}

/// The line that `update` prints for a step.
pub fn step_message(s: &UpdateStep) -> (m: String)
    ensures
        m@ == step_text(*s),
{
    match s {
        UpdateStep::Download(_) => owned("Update found, downloading..."),
        UpdateStep::MissingDownloadUrl => owned(
            "ERROR: No download url for the application found on GitHub",
        ),
        UpdateStep::UpToDate => owned("Already on latest version"),
    }
}

} // verus!
