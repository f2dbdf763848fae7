use tmgr::commands::upgrade::{download_target, no_download_directory, no_user_directories};
use tmgr::commands::upgrade::{api_url_for, check_for_updates, latest_release_url, report, UpdateErrorKind};
use tmgr::parser::commands::update_cmds::request_models::{Asset, GithubReleaseResponse};

fn release(tag: &str, urls: &[&str]) -> GithubReleaseResponse {
    GithubReleaseResponse {
        tag_name: tag.to_string(),
        assets: urls
            .iter()
            .map(|u| Asset { browser_download_url: u.to_string() })
            .collect(),
    }
}

#[test]
fn latest_release_url_test() {
    let expected = "https://api.github.com/repos/charliekarafotias/tmgr/releases/latest";
    let actual = latest_release_url();
    assert_eq!(
        expected, actual,
        "latest_release_url() should return the correct URL"
    );
}

#[test]
fn api_url_takes_the_last_two_parts_of_the_link() {
    assert_eq!(
        api_url_for("https://github.com/someone/project"),
        "https://api.github.com/repos/someone/project/releases/latest"
    );
}

#[test]
fn newer_release_needs_an_update() {
    let info = check_for_updates(&release("v2.4.0", &["https://x/tmgr", "https://x/other"])).unwrap();
    assert!(info.needs_update);
    assert_eq!(info.latest_version, "2.4.0");
    assert_eq!(info.current_version, "2.3.0");
    assert_eq!(info.binary_download_url, "https://x/tmgr");
}

#[test]
fn same_release_needs_no_update() {
    let info = check_for_updates(&release("v2.3.0", &["https://x/tmgr"])).unwrap();
    assert!(!info.needs_update);
    assert_eq!(info.latest_version, "2.3.0");
}

#[test]
fn older_release_needs_no_update() {
    let info = check_for_updates(&release("v1.9.9", &["https://x/tmgr"])).unwrap();
    assert!(!info.needs_update);
    assert_eq!(info.latest_version, "1.9.9");
}

#[test]
fn pre_release_tag_is_kept_in_the_version_text() {
    let info = check_for_updates(&release("v3.0.0-beta.1", &["https://x/tmgr"])).unwrap();
    assert_eq!(info.latest_version, "3.0.0-beta.1");
    assert!(info.needs_update);
}

#[test]
fn unparsable_tag_is_an_error() {
    let e = check_for_updates(&release("latest", &["https://x/tmgr"])).unwrap_err();
    assert_eq!(e.kind(), UpdateErrorKind::NoLatestVersion);
}

#[test]
fn release_without_assets_is_an_error() {
    let e = check_for_updates(&release("v2.4.0", &[])).unwrap_err();
    assert_eq!(e.kind(), UpdateErrorKind::NoDownloadLinkFromGitHub);
    assert!(e.to_string().starts_with("no assets found"));
}

#[test]
fn report_names_both_versions() {
    let info = check_for_updates(&release("v2.4.0", &["https://x/tmgr"])).unwrap();
    let text = report(&info);
    assert!(text.contains("2.4.0"));
    assert!(text.contains("2.3.0"));
}

#[test]
fn download_goes_to_tmgr_new() {
    assert_eq!(download_target("/home/me/Downloads"), "/home/me/Downloads/tmgr_new");
    assert_eq!(no_user_directories().kind(), UpdateErrorKind::UnableToDetermineFileStructure);
    assert_eq!(
        no_download_directory().to_string(),
        "Unable to determine download directory (update error: Unable to determine system's file structure)"
    );
}

#[test]
fn versions_compare_by_number_not_by_text() {
    let info = check_for_updates(&release("v2.10.0", &["https://x/tmgr"])).unwrap();
    assert!(info.needs_update);
    assert_eq!(info.latest_version, "2.10.0");
    let info = check_for_updates(&release("v2.2.9", &["https://x/tmgr"])).unwrap();
    assert!(!info.needs_update);
}
