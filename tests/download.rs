use dra::download::{Action, DownloadFailure, DownloadHandler, Event};
use dra::github::{Asset, GithubError, Release, Repository, Tag};
use dra::tagged_asset::TaggedAsset;

fn asset(name: &str) -> Asset {
    Asset { name: name.to_string(), download_url: format!("https://example.com/{}", name) }
}

fn release(assets: Vec<Asset>) -> Release {
    Release { tag: Tag("v1.0.0".to_string()), assets }
}

fn two_asset_release() -> Release {
    release(vec![asset("tool-v1.0.0-linux.tar.gz"), asset("tool-v1.0.0-mac.tar.gz")])
}

fn handler(select: Option<&str>, output: Option<&str>) -> DownloadHandler {
    DownloadHandler::new(
        Repository { owner: "owner".to_string(), repo: "tool".to_string() },
        select.map(|s| s.to_string()),
        output.map(|s| s.to_string()),
    )
}

fn failure_message(action: Action) -> String {
    match action {
        Action::Finish(Err(e)) => e.message,
        other => panic!("expected a failure, got {:?}", other),
    }
}

#[test]
fn tag_inserted_after_first_word() {
    let tag = Tag("v1.0.0".to_string());
    assert_eq!(TaggedAsset::tag(&tag, "tool-linux.tar.gz"), "tool-v1.0.0-linux.tar.gz");
    assert_eq!(TaggedAsset::tag(&tag, "tool.tar.gz"), "tool-v1.0.0.tar.gz");
    assert_eq!(TaggedAsset::tag(&tag, "tool"), "tool-v1.0.0");
    assert_eq!(TaggedAsset::tag(&tag, ""), "-v1.0.0");
}

#[test]
fn tag_is_repeatable() {
    let tag = Tag("v2".to_string());
    assert_eq!(TaggedAsset::tag(&tag, "a-b"), TaggedAsset::tag(&tag, "a-b"));
    assert_ne!(TaggedAsset::tag(&tag, "a-b"), TaggedAsset::tag(&Tag("v3".to_string()), "a-b"));
}

#[test]
fn autoselect_finds_tagged_asset() {
    let found = DownloadHandler::autoselect_asset(two_asset_release(), "tool-linux.tar.gz").unwrap();
    assert_eq!(found.name, "tool-v1.0.0-linux.tar.gz");
    assert_eq!(found.download_url, "https://example.com/tool-v1.0.0-linux.tar.gz");
}

#[test]
fn autoselect_names_untagged_pattern() {
    let e = DownloadHandler::autoselect_asset(two_asset_release(), "tool-windows.zip").unwrap_err();
    assert_eq!(e.message, "No asset found for tool-windows.zip");
}

#[test]
fn started_fetches_latest_release() {
    match handler(None, None).step(Event::Started) {
        Action::FetchRelease(url) => {
            assert_eq!(url, "https://api.github.com/repos/owner/tool/releases/latest")
        }
        other => panic!("unexpected {:?}", other),
    }
}

#[test]
fn release_error_is_reported() {
    let event = Event::ReleaseFetched(Err(GithubError::RepositoryOrReleaseNotFound));
    assert_eq!(
        failure_message(handler(None, None).step(event)),
        "Error fetching latest release: Repository or release not found"
    );
}

#[test]
fn auto_mode_downloads_matching_asset() {
    let event = Event::ReleaseFetched(Ok(two_asset_release()));
    match handler(Some("tool-mac.tar.gz"), None).step(event) {
        Action::DownloadAsset { asset, output_path } => {
            assert_eq!(asset.name, "tool-v1.0.0-mac.tar.gz");
            assert_eq!(output_path, "tool-v1.0.0-mac.tar.gz");
        }
        other => panic!("unexpected {:?}", other),
    }
}

#[test]
fn auto_mode_without_match_fails() {
    let event = Event::ReleaseFetched(Ok(two_asset_release()));
    assert_eq!(
        failure_message(handler(Some("tool-bsd.tar.gz"), None).step(event)),
        "No asset found for tool-bsd.tar.gz"
    );
}

#[test]
fn interactive_mode_passes_empty_list() {
    let event = Event::ReleaseFetched(Ok(release(vec![])));
    match handler(None, None).step(event) {
        Action::AskSelectAsset { assets, select_prompt, quit_select } => {
            assert!(assets.is_empty());
            assert_eq!(select_prompt, "Pick the asset to download");
            assert_eq!(quit_select, "No asset selected");
        }
        other => panic!("unexpected {:?}", other),
    }
}

#[test]
fn interactive_mode_passes_all_assets_in_order() {
    let event = Event::ReleaseFetched(Ok(two_asset_release()));
    match handler(None, None).step(event) {
        Action::AskSelectAsset { assets, .. } => {
            let names: Vec<&str> = assets.iter().map(|a| a.name.as_str()).collect();
            assert_eq!(names, vec!["tool-v1.0.0-linux.tar.gz", "tool-v1.0.0-mac.tar.gz"]);
        }
        other => panic!("unexpected {:?}", other),
    }
}

#[test]
fn declined_selection_is_no_selection() {
    assert_eq!(
        failure_message(handler(None, None).step(Event::AssetSelected(None))),
        "No asset selected"
    );
}

#[test]
fn default_output_is_asset_name() {
    match handler(None, None).step(Event::AssetSelected(Some(asset("tool.zip")))) {
        Action::DownloadAsset { asset, output_path } => {
            assert_eq!(asset.name, "tool.zip");
            assert_eq!(output_path, "tool.zip");
        }
        other => panic!("unexpected {:?}", other),
    }
}

#[test]
fn explicit_output_is_kept() {
    match handler(None, Some("/opt/out.bin")).step(Event::AssetSelected(Some(asset("tool.zip")))) {
        Action::DownloadAsset { output_path, .. } => assert_eq!(output_path, "/opt/out.bin"),
        other => panic!("unexpected {:?}", other),
    }
    let name = "tool.zip".to_string();
    let out = "elsewhere".to_string();
    assert_eq!(DownloadHandler::output_path_from(Some(&out), &name), "elsewhere");
    assert_eq!(DownloadHandler::output_path_from(None, &name), "tool.zip");
}

#[test]
fn download_outcomes() {
    let h = handler(None, None);
    assert!(matches!(h.step(Event::Downloaded(Ok(()))), Action::Finish(Ok(()))));
    let stream = DownloadFailure::Stream(GithubError::RepositoryOrReleaseNotFound);
    assert_eq!(
        failure_message(h.step(Event::Downloaded(Err(stream)))),
        "Error downloading asset: Repository or release not found"
    );
    let create = DownloadFailure::CreateFile { path: "out".to_string(), cause: "denied".to_string() };
    assert_eq!(
        failure_message(h.step(Event::Downloaded(Err(create)))),
        "Failed to create the file out: denied"
    );
    let write = DownloadFailure::Write { path: "out".to_string(), cause: "disk full".to_string() };
    assert_eq!(
        failure_message(h.step(Event::Downloaded(Err(write)))),
        "Failed to write the file out: disk full"
    );
}

#[test]
fn ask_select_asset_keeps_empty_list() {
    match DownloadHandler::ask_select_asset(vec![]) {
        Action::AskSelectAsset { assets, select_prompt, quit_select } => {
            assert!(assets.is_empty());
            assert_eq!(select_prompt, "Pick the asset to download");
            assert_eq!(quit_select, "No asset selected");
        }
        other => panic!("unexpected {:?}", other),
    }
}

#[test]
fn autoselect_or_ask_without_pattern_asks() {
    match handler(None, None).autoselect_or_ask_asset(two_asset_release()) {
        Action::AskSelectAsset { assets, .. } => assert_eq!(assets.len(), 2),
        other => panic!("unexpected {:?}", other),
    }
    match handler(Some("tool-linux.tar.gz"), Some("out")).autoselect_or_ask_asset(two_asset_release()) {
        Action::DownloadAsset { asset, output_path } => {
            assert_eq!(asset.name, "tool-v1.0.0-linux.tar.gz");
            assert_eq!(output_path, "out");
        }
        other => panic!("unexpected {:?}", other),
    }
}
