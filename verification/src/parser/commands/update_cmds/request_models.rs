//! The parts of GitHub's "latest release" answer that the update check reads.
use vstd::prelude::*;

verus! {

/// A release: its tag and its downloadable assets.
#[derive(Debug, Clone, PartialEq)]
pub struct GithubReleaseResponse {
    pub tag_name: String,
    pub assets: Vec<Asset>,
}

/// A downloadable file of a release.
#[derive(Debug, Clone, PartialEq)]
pub struct Asset {
    pub browser_download_url: String,
}

impl Default for GithubReleaseResponse {
    /// An untagged release without assets.
    fn default() -> (r: Self)
        ensures
            r.tag_name@.len() == 0,
            r.assets@.len() == 0,
    {
        GithubReleaseResponse { tag_name: String::new(), assets: Vec::new() }
    }
}

impl Default for Asset {
    /// An asset without a download address.
    fn default() -> (a: Self)
        ensures
            a.browser_download_url@.len() == 0,
    {
        Asset { browser_download_url: String::new() }
    }
}

} // verus!
