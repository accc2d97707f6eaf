//! Resolving a repository's release, choosing one of its assets, and telling
//! how a downloaded file is to be unpacked.

pub mod file;
pub mod github;
pub mod tagged_asset;
pub mod download;
pub mod text;
