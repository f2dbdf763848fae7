//! The `upgrade` command: is a newer release of tmgr published, and where is it.
use vstd::prelude::*;
use vstd::string::*;
use crate::package::{package_repository, package_version};
use crate::parser::commands::update_cmds::request_models::GithubReleaseResponse;
use crate::text::{
    chars_of, concat4, decimal, join_path, join_path_exec, owned, remove_char, remove_char_exec,
    lemma_rfind_char, rfind_char, rfind_char_exec, slice_chars, string_of, u64_to_string,
};

verus! {

/// What went wrong in the `upgrade` command.
#[derive(Debug, Clone, Copy, PartialEq, Eq, Structural)]
pub enum UpdateErrorKind {
    RepoCheckFail,
    NoDownloadLinkFromGitHub,
    NoCurrentVersion,
    NoLatestVersion,
    GitHibResponseToRustStructConversionFail,
    UnableToDetermineFileStructure,
    BinaryDownloadFail,
    CorruptedBinaryDownload,
    CreateFileFail,
    UnableToDeleteExistingBinary,
    UnableToMoveBinary,
}

/// The description shown for a kind of update error.
pub open spec fn update_error_kind_text(k: UpdateErrorKind) -> Seq<char> {
    match k {
        UpdateErrorKind::RepoCheckFail => "unable to retrieve fetch tmgr GitHub repo, try again later"@,
        UpdateErrorKind::NoDownloadLinkFromGitHub => "no download url for the tmgr executable found on GitHub"@,
        UpdateErrorKind::NoCurrentVersion => "unable to determine current version of tmgr"@,
        UpdateErrorKind::NoLatestVersion => "unable to determine latest version of tmgr from GitHub"@,
        UpdateErrorKind::GitHibResponseToRustStructConversionFail => "unable to convert GitHub response to Rust struct"@,
        UpdateErrorKind::UnableToDetermineFileStructure => "Unable to determine system's file structure"@,
        UpdateErrorKind::BinaryDownloadFail => "unable to retrieve fetch tmgr the latest executable from GitHub repo, try again later"@,
        UpdateErrorKind::CorruptedBinaryDownload => "unable to convert downloaded executable to bytes"@,
        UpdateErrorKind::CreateFileFail => "unable to create file in downloads folder"@,
        UpdateErrorKind::UnableToDeleteExistingBinary => "unable to delete existing executable"@,
        UpdateErrorKind::UnableToMoveBinary => "unable to move downloaded executable to bin of current executable"@,
    }
}

impl UpdateErrorKind {
    /// The description shown for the kind.
    pub fn to_string(&self) -> (s: String)
        ensures
            s@ == update_error_kind_text(*self),
    {
        match self {
            UpdateErrorKind::RepoCheckFail => owned("unable to retrieve fetch tmgr GitHub repo, try again later"),
            UpdateErrorKind::NoDownloadLinkFromGitHub => owned("no download url for the tmgr executable found on GitHub"),
            UpdateErrorKind::NoCurrentVersion => owned("unable to determine current version of tmgr"),
            UpdateErrorKind::NoLatestVersion => owned("unable to determine latest version of tmgr from GitHub"),
            UpdateErrorKind::GitHibResponseToRustStructConversionFail => owned("unable to convert GitHub response to Rust struct"),
            UpdateErrorKind::UnableToDetermineFileStructure => owned("Unable to determine system's file structure"),
            UpdateErrorKind::BinaryDownloadFail => owned("unable to retrieve fetch tmgr the latest executable from GitHub repo, try again later"),
            UpdateErrorKind::CorruptedBinaryDownload => owned("unable to convert downloaded executable to bytes"),
            UpdateErrorKind::CreateFileFail => owned("unable to create file in downloads folder"),
            UpdateErrorKind::UnableToDeleteExistingBinary => owned("unable to delete existing executable"),
            UpdateErrorKind::UnableToMoveBinary => owned("unable to move downloaded executable to bin of current executable"),
        }
    }
}

/// An error of the `upgrade` command.
#[derive(Debug)]
pub struct UpdateError {
    kind: UpdateErrorKind,
    message: String,
}

/// The text shown for a update error.
pub open spec fn update_error_text(k: UpdateErrorKind, m: Seq<char>) -> Seq<char> {
    m + " (update error: "@ + update_error_kind_text(k) + ")"@
}

impl UpdateError {
    /// An error of the given kind with the given message.
    pub fn new(kind: UpdateErrorKind, message: String) -> (e: Self)
        ensures
            e.spec_kind() == kind,
            e.spec_message() == message@,
    {
        UpdateError { kind, message }
    }

    pub closed spec fn spec_kind(&self) -> UpdateErrorKind {
        self.kind
    }

    pub closed spec fn spec_message(&self) -> Seq<char> {
        self.message@
    }

    /// The kind of the error.
    pub fn kind(&self) -> (k: UpdateErrorKind)
        ensures
            k == self.spec_kind(),
    {
        self.kind
    }

    /// The text shown for the error.
    pub fn to_string(&self) -> (s: String)
        ensures
            s@ == update_error_text(self.spec_kind(), self.spec_message()),
    {
        let k = self.kind.to_string();
        concat4(self.message.as_str(), " (update error: ", k.as_str(), ")")
    }
}

// ------------------------------------------------------------------
// Versions
// ------------------------------------------------------------------

/// A semver version, opaque to the proofs.
#[verifier::external_type_specification]
#[verifier::external_body]
pub struct ExVersion(semver::Version);

/// The parts of a semver version: major, minor, patch, pre-release, build metadata.
pub type VersionParts = (u64, u64, u64, Seq<char>, Seq<char>);

/// A parsed semver version.  Only [`parse_version`] makes one, so its parts
/// always describe the version it was parsed into.
pub struct SemVer {
    major: u64,
    minor: u64,
    patch: u64,
    pre: String,
    build: String,
    parsed: semver::Version,
}

impl View for SemVer {
    type V = VersionParts;

    closed spec fn view(&self) -> VersionParts {
        (self.major, self.minor, self.patch, self.pre@, self.build@)
    }
}

/// What `semver::Version::parse` makes of a text: the parts of the version, or
/// the text of its error.
pub uninterp spec fn semver_parse(text: Seq<char>) -> Result<VersionParts, Seq<char>>;

/// Whether one version is greater than another in semver's order.
pub uninterp spec fn semver_greater(a: VersionParts, b: VersionParts) -> bool;

/// The order of the numeric parts alone: major, then minor, then patch.
pub open spec fn core_greater(a: VersionParts, b: VersionParts) -> bool {
    ||| a.0 > b.0
    ||| (a.0 == b.0 && a.1 > b.1)
    ||| (a.0 == b.0 && a.1 == b.1 && a.2 > b.2)
}

/// The text of a version's numbers alone: `major.minor.patch`, each in
/// decimal without leading zeros.
pub open spec fn version_core_text(major: u64, minor: u64, patch: u64) -> Seq<char> {
    decimal(major as nat) + "."@ + decimal(minor as nat) + "."@ + decimal(patch as nat)
}

/// Where `text` is three numbers in decimal without leading zeros joined by
/// dots, `parsed` is that version, with empty pre-release and build metadata.
pub open spec fn plain_version_parsed(text: Seq<char>, parsed: Option<VersionParts>) -> bool {
    forall|a: u64, b: u64, c: u64|
        #[trigger] version_core_text(a, b, c) == text ==> parsed == Some(
            (a, b, c, Seq::<char>::empty(), Seq::<char>::empty()),
        )
}

/// `semver::Version::parse`.  The parts of the version (its public fields,
/// pre-release and build metadata as text) are what [`semver_parse`] names; a
/// failure is given as the text of semver's error.  What is stated beyond the
/// name: three numbers in decimal without leading zeros, joined by dots and
/// followed by nothing, parse as that version with empty pre-release and
/// build metadata.
#[verifier::external_body]
fn parse_version(text: &str) -> (r: Result<SemVer, String>)
    ensures
        match (r, semver_parse(text@)) {
            (Ok(v), Ok(p)) => v@ == p,
            (Err(m), Err(n)) => m@ == n,
            _ => false,
        },
        plain_version_parsed(
            text@,
            match r {
                Ok(v) => Some(v@),
                Err(_) => None,
            },
        ),
{
    match semver::Version::parse(text) {
        Ok(v) => Ok(
            SemVer {
                major: v.major,
                minor: v.minor,
                patch: v.patch,
                pre: v.pre.as_str().to_string(),
                build: v.build.as_str().to_string(),
                parsed: v,
            },
        ),
        Err(e) => Err(e.to_string()),
    }
}

/// `>` on `semver::Version`: the derived order of its fields, with
/// pre-release and build metadata compared by semver's rules.  What is stated
/// beyond the name: versions whose numbers differ are ordered by major, minor
/// and patch; equal versions are not greater than each other.
#[verifier::external_body]
fn version_greater(a: &SemVer, b: &SemVer) -> (r: bool)
    ensures
        r == semver_greater(a@, b@),
        (a@.0, a@.1, a@.2) != (b@.0, b@.1, b@.2) ==> r == core_greater(a@, b@),
        a@ == b@ ==> !r,
{
    a.parsed > b.parsed
}

/// The text of a version, as semver's `Display` writes it:
/// `major.minor.patch`, then `-pre` and `+build` when they are not empty.
pub open spec fn version_text(v: VersionParts) -> Seq<char> {
    let core = version_core_text(v.0, v.1, v.2);
    let pre = if v.3.len() == 0 {
        Seq::empty()
    } else {
        "-"@ + v.3
    };
    let build = if v.4.len() == 0 {
        Seq::empty()
    } else {
        "+"@ + v.4
    };
    core + pre + build
}

/// The text of a version.
pub fn version_to_string(v: &SemVer) -> (s: String)
    ensures
        s@ == version_text(v@),
{
    let ma = u64_to_string(v.major);
    let mi = u64_to_string(v.minor);
    let pa = u64_to_string(v.patch);
    let mut s = concat4(ma.as_str(), ".", mi.as_str(), ".");
    s.append(pa.as_str());
    if v.pre.as_str().unicode_len() > 0 {
        s.append("-");
        s.append(v.pre.as_str());
    }
    if v.build.as_str().unicode_len() > 0 {
        s.append("+");
        s.append(v.build.as_str());
    }
    s
}

// ------------------------------------------------------------------
// The update check
// ------------------------------------------------------------------

/// What the update check found.
#[derive(Debug)]
pub struct UpdateInfo {
    pub binary_download_url: String,
    pub latest_version: String,
    pub needs_update: bool,
    pub current_version: String,
}

/// What the update check finds for a release tag and the download addresses
/// of the release's assets: (current version, latest version, newer?, address),
/// or the error it reports.
pub open spec fn update_check(tag: Seq<char>, urls: Seq<Seq<char>>) -> Result<
    (Seq<char>, Seq<char>, bool, Seq<char>),
    (UpdateErrorKind, Seq<char>),
> {
    match semver_parse(remove_char(tag, 'v')) {
        Err(m) => Err((UpdateErrorKind::NoLatestVersion, m)),
        Ok(latest) => match semver_parse("2.3.0"@) {
            Err(m) => Err((UpdateErrorKind::NoCurrentVersion, m)),
            Ok(current) => if urls.len() == 0 {
                Err((UpdateErrorKind::NoDownloadLinkFromGitHub, "no assets found"@))
            } else {
                Ok(
                    (
                        version_text(current),
                        version_text(latest),
                        semver_greater(latest, current),
                        urls[0],
                    ),
                )
            },
        },
    }
}

/// The download addresses of a release's assets.
pub open spec fn asset_urls(r: GithubReleaseResponse) -> Seq<Seq<char>> {
    r.assets@.map_values(|a: crate::parser::commands::update_cmds::request_models::Asset| a.browser_download_url@)
}

/// A version with empty pre-release and build metadata is written as its
/// numbers alone.
proof fn lemma_plain_version_text(a: u64, b: u64, c: u64)
    ensures
        version_text((a, b, c, Seq::<char>::empty(), Seq::<char>::empty())) == version_core_text(
            a,
            b,
            c,
        ),
{
    let core = version_core_text(a, b, c);
    assert(core + Seq::<char>::empty() + Seq::<char>::empty() =~= core);
}

/// The parts of this package's version, 2.3.0.
pub open spec fn current_parts() -> VersionParts {
    (2u64, 3u64, 0u64, Seq::<char>::empty(), Seq::<char>::empty())
}

/// The text `2.3.0` is the version 2.3.0 with nothing after its numbers.
proof fn lemma_current_version_text()
    ensures
        version_core_text(2, 3, 0) == "2.3.0"@,
        version_text(current_parts()) == "2.3.0"@,
{
    reveal_strlit("2.3.0");
    reveal_strlit(".");
    assert(decimal(2) =~= seq!['2']);
    assert(decimal(3) =~= seq!['3']);
    assert(decimal(0) =~= seq!['0']);
    assert(version_core_text(2, 3, 0) =~= "2.3.0"@);
    assert(version_text(current_parts()) =~= "2.3.0"@);
}

/// For a release whose tag, with every `v` removed, is three plain numbers
/// `a.b.c`, and which has an asset: the check succeeds, the latest version is
/// `a.b.c`, and when it differs from 2.3.0 an update is needed exactly when
/// `a.b.c` is greater.
pub open spec fn plain_tag_checked(
    tag: Seq<char>,
    urls: Seq<Seq<char>>,
    r: Result<UpdateInfo, UpdateError>,
) -> bool {
    forall|a: u64, b: u64, c: u64|
        #[trigger] version_core_text(a, b, c) == remove_char(tag, 'v') && urls.len() > 0 ==> (
        r matches Ok(i) && i.latest_version@ == version_core_text(a, b, c) && ((a, b, c) != (
            2u64,
            3u64,
            0u64,
        ) ==> i.needs_update == core_greater(
            (a, b, c, Seq::<char>::empty(), Seq::<char>::empty()),
            current_parts(),
        )))
}

/// Compares the latest release with this package's version.
///
/// The release's tag, with every `v` removed, must be a semver version, and the
/// release must have an asset; the first asset is the one to download.  The
/// current version is 2.3.0, and a latest version whose numbers differ from it
/// is newer exactly when its numbers are greater (major, then minor, then
/// patch).
pub fn check_for_updates(release: &GithubReleaseResponse) -> (r: Result<UpdateInfo, UpdateError>)
    ensures
        match (r, update_check(release.tag_name@, asset_urls(*release))) {
            (Ok(i), Ok((cur, latest, newer, url))) => i.current_version@ == cur
                && i.latest_version@ == latest && i.needs_update == newer
                && i.binary_download_url@ == url,
            (Err(e), Err((k, m))) => e.spec_kind() == k && e.spec_message() == m,
            _ => false,
        },
        r is Ok <==> (semver_parse(remove_char(release.tag_name@, 'v')) is Ok && asset_urls(
            *release,
        ).len() > 0),
        r matches Ok(i) ==> i.current_version@ == "2.3.0"@,
        semver_parse(remove_char(release.tag_name@, 'v')) matches Ok(l) ==> ((l.0, l.1, l.2) != (
            2u64,
            3u64,
            0u64,
        ) ==> (r matches Ok(i) ==> i.needs_update == core_greater(l, current_parts()))),
        plain_tag_checked(release.tag_name@, asset_urls(*release), r),
{
    let tag = chars_of(release.tag_name.as_str());
    let cleaned = string_of(&remove_char_exec(&tag, 'v'));
    let latest = match parse_version(cleaned.as_str()) {
        Ok(v) => v,
        Err(m) => {
            return Err(UpdateError::new(UpdateErrorKind::NoLatestVersion, m));
        },
    };
    proof {
        lemma_current_version_text();
    }
    let current = match parse_version(package_version()) {
        Ok(v) => v,
        Err(m) => {
            return Err(UpdateError::new(UpdateErrorKind::NoCurrentVersion, m));
        },
    };
    if release.assets.len() > 0 {
        let url = release.assets[0].browser_download_url.clone();
        proof {
            assert(asset_urls(*release)[0] == release.assets@[0].browser_download_url@);
        }
        let r = Ok(
            UpdateInfo {
                current_version: version_to_string(&current),
                needs_update: version_greater(&latest, &current),
                binary_download_url: url,
                latest_version: version_to_string(&latest),
            },
        );
        proof {
            assert forall|a: u64, b: u64, c: u64|
                #[trigger] version_core_text(a, b, c) == remove_char(release.tag_name@, 'v')
                    && asset_urls(*release).len() > 0 implies latest@ == (
                a,
                b,
                c,
                Seq::<char>::empty(),
                Seq::<char>::empty(),
            ) && version_text(latest@) == version_core_text(a, b, c) by {
                lemma_plain_version_text(a, b, c);
            }
        }
        r
    } else {
        Err(UpdateError::new(UpdateErrorKind::NoDownloadLinkFromGitHub, owned("no assets found")))
    }
}

/// The message of the command once the check (and any download) is done.
pub open spec fn upgrade_message(current: Seq<char>, latest: Seq<char>, newer: bool) -> Seq<char> {
    if newer {
        "Update complete: v"@ + current + " -> v"@ + latest
    } else {
        "Already on latest version"@
    }
}

/// The message of the command for what the check found.
pub fn report(info: &UpdateInfo) -> (s: String)
    ensures
        s@ == upgrade_message(info.current_version@, info.latest_version@, info.needs_update),
{
    if info.needs_update {
        concat4("Update complete: v", info.current_version.as_str(), " -> v", info.latest_version.as_str())
    } else {
        owned("Already on latest version")
    }
}

// ------------------------------------------------------------------
// Where releases are published
// ------------------------------------------------------------------

/// The last `/`-separated segment of `s`, and the one before it.
pub open spec fn last_two_segments(s: Seq<char>) -> (Seq<char>, Seq<char>) {
    match rfind_char(s, '/') {
        Some(i) => {
            let rest = s.subrange(0, i);
            let repo = s.subrange(i + 1, s.len() as int);
            match rfind_char(rest, '/') {
                Some(j) => (rest.subrange(j + 1, rest.len() as int), repo),
                None => (rest, repo),
            }
        },
        None => (Seq::empty(), s),
    }
}

/// GitHub's API address of the latest release of a repository.
pub open spec fn release_api_url(repo_link: Seq<char>) -> Seq<char> {
    let (account, repo) = last_two_segments(repo_link);
    "https://api.github.com/repos/"@ + account + "/"@ + repo + "/releases/latest"@
}

/// GitHub's API address of the latest release of the repository at `repo_link`:
/// the account and the repository are the last two `/`-separated parts of it.
pub fn api_url_for(repo_link: &str) -> (u: String)
    requires
        repo_link@.contains('/'),
    ensures
        u@ == release_api_url(repo_link@),
{
    let cs = chars_of(repo_link);
    let i = match rfind_char_exec(&cs, '/') {
        Some(i) => i,
        None => {
            proof {
                let k = choose|k: int| 0 <= k < cs@.len() && cs@[k] == '/';
                lemma_rfind_none(cs@, '/', k);
            }
            0
        },
    };
    proof {
        lemma_rfind_char(cs@, '/');
    }
    let rest = slice_chars(&cs, 0, i);
    let repo = string_of(&slice_chars(&cs, i + 1, cs.len()));
    let account = match rfind_char_exec(&rest, '/') {
        Some(j) => {
            proof {
                lemma_rfind_char(rest@, '/');
            }
            string_of(&slice_chars(&rest, j + 1, rest.len()))
        },
        None => string_of(&rest),
    };
    let mut u = concat4("https://api.github.com/repos/", account.as_str(), "/", repo.as_str());
    u.append("/releases/latest");
    u
}

/// A sequence holding `c` has a last index of `c`.
proof fn lemma_rfind_none(s: Seq<char>, c: char, k: int)
    requires
        0 <= k < s.len(),
        s[k] == c,
    ensures
        rfind_char(s, c) is Some,
    decreases s.len(),
{
    if s.last() != c {
        assert(k < s.len() - 1);
        assert(s.drop_last()[k] == c);
        lemma_rfind_none(s.drop_last(), c, k);
    }
}

/// GitHub's API address of the latest release of this package.
pub fn latest_release_url() -> (u: String)
    ensures
        u@ == release_api_url("https://github.com/charliekarafotias/tmgr"@),
{
    let link = package_repository();
    proof {
        reveal_strlit("https://github.com/charliekarafotias/tmgr");
        assert(link@[6] == '/');
    }
    api_url_for(link)
}

/// Where the downloaded executable is written: `tmgr_new` in the download
/// directory.
pub fn download_target(download_dir: &str) -> (p: String)
    ensures
        p@ == join_path(download_dir@, "tmgr_new"@),
{
    join_path_exec(download_dir, "tmgr_new")
}

/// The error when the user's directories could not be found.
pub fn no_user_directories() -> (e: UpdateError)
    ensures
        e.spec_kind() == UpdateErrorKind::UnableToDetermineFileStructure,
        e.spec_message() == "Unable to determine system's file structure"@,
{
    UpdateError::new(
        UpdateErrorKind::UnableToDetermineFileStructure,
        owned("Unable to determine system's file structure"),
    )
}

/// The error when the user has no download directory.
pub fn no_download_directory() -> (e: UpdateError)
    ensures
        e.spec_kind() == UpdateErrorKind::UnableToDetermineFileStructure,
        e.spec_message() == "Unable to determine download directory"@,
{
    UpdateError::new(
        UpdateErrorKind::UnableToDetermineFileStructure,
        owned("Unable to determine download directory"),
    )
}

} // verus!
