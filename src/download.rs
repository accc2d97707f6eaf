//! The `download` command: fetch the latest release, choose one of its assets,
//! and save it.
//!
//! Fetching, asking the operator and copying bytes are done by the caller; the
//! handler decides, for each thing that happened, what is to be done next.

use vstd::prelude::*;

use crate::github::{
    error_message, get_release_url, release_url, Asset, GithubError, Release, Repository,
};
use crate::tagged_asset::{tagged_name, TaggedAsset};

verus! {

/// A failure of the command, with the message shown to the operator.
#[derive(Debug, Clone)]
pub struct HandlerError {
    pub message: String,
}

pub type HandlerResult = Result<(), HandlerError>;

impl HandlerError {
    pub fn new(message: String) -> (r: HandlerError)
        ensures
            r.message@ == message@,
    {
        HandlerError { message }
    }
}

/// Why saving an asset failed.
#[derive(Debug, Clone)]
pub enum DownloadFailure {
    /// The asset's bytes could not be requested.
    Stream(GithubError),
    /// The destination file could not be created.
    CreateFile { path: String, cause: String },
    /// Writing the bytes to the destination failed.
    Write { path: String, cause: String },
}

/// What the caller is to do next.
#[derive(Debug)]
pub enum Action {
    /// Fetch the release at this URL.
    FetchRelease(String),
    /// Let the operator pick one of `assets`.
    AskSelectAsset { assets: Vec<Asset>, select_prompt: String, quit_select: String },
    /// Save `asset` at `output_path`.
    DownloadAsset { asset: Asset, output_path: String },
    /// The command is over, with this result.
    Finish(HandlerResult),
}

/// What happened since the last action.
#[derive(Debug)]
pub enum Event {
    Started,
    ReleaseFetched(Result<Release, GithubError>),
    /// The operator picked an asset, or declined.
    AssetSelected(Option<Asset>),
    Downloaded(Result<(), DownloadFailure>),
}

pub struct DownloadHandler {
    pub repository: Repository,
    pub select: Option<String>,
    pub output: Option<String>,
}

/// Where an asset named `name` is saved: the given output path, or else the
/// asset's own name, relative to the working directory.
pub open spec fn output_path_of(output: Option<String>, name: Seq<char>) -> Seq<char> {
    match output {
        Some(o) => o@,
        None => name,
    }
}

/// `i` is the first asset of `assets` named `name`.
pub open spec fn is_first_named(assets: Seq<Asset>, name: Seq<char>, i: int) -> bool {
    &&& 0 <= i < assets.len()
    &&& assets[i].name@ == name
    &&& forall|j: int| 0 <= j < i ==> (#[trigger] assets[j]).name@ != name
}

pub open spec fn has_named(assets: Seq<Asset>, name: Seq<char>) -> bool {
    exists|i: int| 0 <= i < assets.len() && (#[trigger] assets[i]).name@ == name
}

pub open spec fn failure_message(f: DownloadFailure) -> Seq<char> {
    match f {
        DownloadFailure::Stream(e) => "Error downloading asset: "@ + error_message(e),
        DownloadFailure::CreateFile { path, cause } => "Failed to create the file "@ + path@
            + ": "@ + cause@,
        DownloadFailure::Write { path, cause } => "Failed to write the file "@ + path@ + ": "@
            + cause@,
    }
}

pub open spec fn is_failure(r: Action, message: Seq<char>) -> bool {
    r matches Action::Finish(Err(e)) && e.message@ == message
}

pub open spec fn is_download_of(output: Option<String>, asset: Asset, r: Action) -> bool {
    r matches Action::DownloadAsset { asset: a, output_path } && a == asset && output_path@
        == output_path_of(output, asset.name@)
}

/// What the handler does once a release is known.
pub open spec fn is_selection_step(h: DownloadHandler, release: Release, r: Action) -> bool {
    match h.select {
        Some(u) => {
            let want = tagged_name(release.tag.0@, u@);
            if has_named(release.assets@, want) {
                exists|i: int|
                    is_first_named(release.assets@, want, i) && is_download_of(
                        h.output,
                        #[trigger] release.assets@[i],
                        r,
                    )
            } else {
                is_failure(r, "No asset found for "@ + u@)
            }
        },
        None => r matches Action::AskSelectAsset { assets, select_prompt, quit_select } && assets
            == release.assets && select_prompt@ == "Pick the asset to download"@ && quit_select@
            == "No asset selected"@,
    }
}

/// The action that the handler `h` takes after `event`.
pub open spec fn step_spec(h: DownloadHandler, event: Event, r: Action) -> bool {
    match event {
        Event::Started => r matches Action::FetchRelease(url) && url@ == release_url(
            h.repository.owner@,
            h.repository.repo@,
            None,
        ),
        Event::ReleaseFetched(Err(e)) => is_failure(
            r,
            "Error fetching latest release: "@ + error_message(e),
        ),
        Event::ReleaseFetched(Ok(release)) => is_selection_step(h, release, r),
        Event::AssetSelected(Some(asset)) => is_download_of(h.output, asset, r),
        Event::AssetSelected(None) => is_failure(r, "No asset selected"@),
        Event::Downloaded(Ok(())) => r matches Action::Finish(Ok(())),
        Event::Downloaded(Err(f)) => is_failure(r, failure_message(f)),
    }
}

/// Without a selection pattern, the whole asset list of the release, in its
/// order and even when empty, goes to the operator's picker with the two
/// messages; and when the operator declines, the command fails with the
/// no-selection message and no asset is chosen.
pub proof fn lemma_interactive_selection(
    h: DownloadHandler,
    release: Release,
    asked: Action,
    declined: Action,
)
    requires
        h.select is None,
        step_spec(h, Event::ReleaseFetched(Ok(release)), asked),
        step_spec(h, Event::AssetSelected(None), declined),
    ensures
        asked matches Action::AskSelectAsset { assets, select_prompt, quit_select } && assets@
            == release.assets@ && select_prompt@ == "Pick the asset to download"@ && quit_select@
            == "No asset selected"@,
        declined matches Action::Finish(Err(e)) && e.message@ == "No asset selected"@,
{
}

fn concat(a: &str, b: &str) -> (r: String)
    ensures
        r@ == a@ + b@,
{
    let mut s = String::from_str(a);
    s.append(b);
    s
}

impl DownloadHandler {
    pub fn new(repository: Repository, select: Option<String>, output: Option<String>) -> (r:
        DownloadHandler)
        ensures
            r.repository == repository,
            r.select == select,
            r.output == output,
    {
        DownloadHandler { repository, select, output }
    }

    /// Decides what is to be done after `event`.
    pub fn step(&self, event: Event) -> (r: Action)
        ensures
            step_spec(*self, event, r),
    {
        match event {
            Event::Started => self.fetch_latest_release(),
            Event::ReleaseFetched(Err(e)) => Action::Finish(Err(Self::release_error(&e))),
            Event::ReleaseFetched(Ok(release)) => self.autoselect_or_ask_asset(release),
            Event::AssetSelected(Some(asset)) => self.download_asset(asset),
            Event::AssetSelected(None) => Action::Finish(
                Err(HandlerError::new(String::from_str("No asset selected"))),
            ),
            Event::Downloaded(Ok(())) => Action::Finish(Ok(())),
            Event::Downloaded(Err(f)) => Action::Finish(Err(Self::download_error(&f))),
        }
    }

    fn fetch_latest_release(&self) -> (r: Action)
        ensures
            r matches Action::FetchRelease(url) && url@ == release_url(
                self.repository.owner@,
                self.repository.repo@,
                None,
            ),
    {
        Action::FetchRelease(get_release_url(&self.repository, None))
    }

    /// Chooses the asset by the selection pattern, or asks the operator when
    /// there is none.
    pub fn autoselect_or_ask_asset(&self, release: Release) -> (r: Action)
        ensures
            is_selection_step(*self, release, r),
    {
        match &self.select {
            Some(untagged) => match Self::autoselect_asset(release, untagged.as_str()) {
                Ok(asset) => self.download_asset(asset),
                Err(e) => Action::Finish(Err(e)),
            },
            None => Self::ask_select_asset(release.assets),
        }
    }

    /// Finds the asset that `untagged` stands for in `release`.
    pub fn autoselect_asset(release: Release, untagged: &str) -> (r: Result<Asset, HandlerError>)
        ensures
            ({
                let want = tagged_name(release.tag.0@, untagged@);
                match r {
                    Ok(a) => exists|i: int|
                        is_first_named(release.assets@, want, i) && a
                            == #[trigger] release.assets@[i],
                    Err(e) => !has_named(release.assets@, want) && e.message@
                        == "No asset found for "@ + untagged@,
                }
            }),
    {
        let asset_name = TaggedAsset::tag(&release.tag, untagged);
        let ghost want = asset_name@;
        let mut assets = release.assets;
        let n = assets.len();
        let mut i: usize = 0;
        while i < n
            invariant
                i <= n,
                n == assets.len(),
                assets@ == release.assets@,
                want == asset_name@,
                want == tagged_name(release.tag.0@, untagged@),
                forall|j: int| 0 <= j < i ==> (#[trigger] assets@[j]).name@ != want,
            decreases n - i,
        {
            if assets[i].name == asset_name {
                let a = assets.swap_remove(i);
                assert(is_first_named(release.assets@, want, i as int));
                return Ok(a);
            }
            i = i + 1;
        }
        Err(HandlerError::new(concat("No asset found for ", untagged)))
    }

    /// Hands the whole asset list to the operator's picker.
    pub fn ask_select_asset(assets: Vec<Asset>) -> (r: Action)
        ensures
            r matches Action::AskSelectAsset { assets: a, select_prompt, quit_select } && a
                == assets && select_prompt@ == "Pick the asset to download"@ && quit_select@
                == "No asset selected"@,
    {
        Action::AskSelectAsset {
            assets,
            select_prompt: String::from_str("Pick the asset to download"),
            quit_select: String::from_str("No asset selected"),
        }
    }

    fn download_asset(&self, asset: Asset) -> (r: Action)
        ensures
            is_download_of(self.output, asset, r),
    {
        let output_path = Self::output_path_from(self.output.as_ref(), asset.name.as_str());
        Action::DownloadAsset { asset, output_path }
    }

    /// Where an asset named `asset_name` is saved.
    pub fn output_path_from(output: Option<&String>, asset_name: &str) -> (r: String)
        ensures
            r@ == match output {
                Some(o) => o@,
                None => asset_name@,
            },
    {
        match output {
            Some(o) => o.clone(),
            None => String::from_str(asset_name),
        }
    }

    fn release_error(e: &GithubError) -> (r: HandlerError)
        ensures
            r.message@ == "Error fetching latest release: "@ + error_message(*e),
    {
        let m = e.message();
        HandlerError::new(concat("Error fetching latest release: ", m.as_str()))
    }

    fn download_error(f: &DownloadFailure) -> (r: HandlerError)
        ensures
            r.message@ == failure_message(*f),
    {
        match f {
            DownloadFailure::Stream(e) => {
                let m = e.message();
                HandlerError::new(concat("Error downloading asset: ", m.as_str()))
            },
            DownloadFailure::CreateFile { path, cause } => {
                let mut s = concat("Failed to create the file ", path.as_str());
                s.append(": ");
                s.append(cause.as_str());
                HandlerError::new(s)
            },
            DownloadFailure::Write { path, cause } => {
                let mut s = concat("Failed to write the file ", path.as_str());
                s.append(": ");
                s.append(cause.as_str());
                HandlerError::new(s)
            },
        }
    }
}

} // verus!
