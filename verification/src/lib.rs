//! A verified core for acquiring a game installation: an adaptive,
//! permit-bounded worker pool that fetches artifacts, checks each against its
//! SHA-1 digest, retries on corruption and unpacks native archives safely.
//!
//! The crate decides and never performs: it opens no socket and touches no
//! file. A driver around it does the requests, the writes and the waiting,
//! asks the crate what to do next and reports what happened.

pub mod adaptive;
pub mod archive;
pub mod assets;
pub mod digest;
pub mod downloader;
pub mod errors;
pub mod fetch;
pub mod manifest;
pub mod meminfo;
pub mod phase;
pub mod text;
pub mod types;
pub mod utilities;

pub use assets::VersionAssets;
pub use downloader::MinecraftDownloader;
pub use errors::ProtonError;
pub use manifest::version_data_url;
pub use types::{DownloadProgress, DownloadProgressType};
