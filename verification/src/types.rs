//! The data model: what the catalog hands in, what a worker fetches and what
//! an observer is told.

use vstd::prelude::*;

verus! {

/// Where the catalog of all versions is published.
pub const MANIFEST_URL: &'static str = "https://manifest.cubicmc.me/manifest";

/// Below this URL the descriptor of each version is published under its identifier.
pub const VERSION_INDEX_URL: &'static str = "https://manifest.cubicmc.me/version";

/// Below this URL every asset object is published under its own hash.
pub const RESOURCES_BASE_URL: &'static str = "https://resources.download.minecraft.net/";

/// The four kinds of artifact an installation is made of.
#[derive(Debug, Clone, Copy, PartialEq, Eq, Structural)]
pub enum DownloadProgressType {
    Client,
    Library,
    Native,
    Asset,
}

/// One entry of the catalog of versions.
#[derive(Debug)]
pub struct MinecraftVersion {
    pub id: String,
    pub sha1: String,
    pub release_time: String,
    pub url: String,
    pub version_type: String,
}

/// The mathematical value of a [`MinecraftVersion`].
pub struct MinecraftVersionView {
    pub id: Seq<char>,
    pub sha1: Seq<char>,
    pub release_time: Seq<char>,
    pub url: Seq<char>,
    pub version_type: Seq<char>,
}

impl View for MinecraftVersion {
    type V = MinecraftVersionView;

    open spec fn view(&self) -> MinecraftVersionView {
        MinecraftVersionView {
            id: self.id@,
            sha1: self.sha1@,
            release_time: self.release_time@,
            url: self.url@,
            version_type: self.version_type@,
        }
    }
}

impl Clone for MinecraftVersion {
    fn clone(&self) -> (r: Self)
        ensures
            r@ == self@,
    {
        MinecraftVersion {
            id: self.id.clone(),
            sha1: self.sha1.clone(),
            release_time: self.release_time.clone(),
            url: self.url.clone(),
            version_type: self.version_type.clone(),
        }
    }
}

/// The catalog of all versions.
#[derive(Debug, Clone)]
pub struct VersionManifest {
    pub latest_release: String,
    pub latest_snapshot: String,
    pub versions: Vec<MinecraftVersion>,
}

/// A remote file with its declared digest and size.
#[derive(Debug)]
pub struct Downloadable {
    pub url: String,
    pub sha1: String,
    pub size: u64,
}

/// The mathematical value of a [`Downloadable`].
pub struct DownloadableView {
    pub url: Seq<char>,
    pub sha1: Seq<char>,
    pub size: u64,
}

impl View for Downloadable {
    type V = DownloadableView;

    open spec fn view(&self) -> DownloadableView {
        DownloadableView { url: self.url@, sha1: self.sha1@, size: self.size }
    }
}

impl Clone for Downloadable {
    fn clone(&self) -> (r: Self)
        ensures
            r@ == self@,
    {
        Downloadable { url: self.url.clone(), sha1: self.sha1.clone(), size: self.size }
    }
}

/// The reference to the document that lists a version's asset objects.
#[derive(Debug)]
pub struct AssetIndex {
    pub id: String,
    pub url: String,
    pub sha1: String,
    pub size: u64,
}

/// The mathematical value of an [`AssetIndex`].
pub struct AssetIndexView {
    pub id: Seq<char>,
    pub url: Seq<char>,
    pub sha1: Seq<char>,
    pub size: u64,
}

impl View for AssetIndex {
    type V = AssetIndexView;

    open spec fn view(&self) -> AssetIndexView {
        AssetIndexView { id: self.id@, url: self.url@, sha1: self.sha1@, size: self.size }
    }
}

impl Clone for AssetIndex {
    fn clone(&self) -> (r: Self)
        ensures
            r@ == self@,
    {
        AssetIndex {
            id: self.id.clone(),
            url: self.url.clone(),
            sha1: self.sha1.clone(),
            size: self.size,
        }
    }
}

/// A shared library of the client; `path` is relative to the libraries directory.
#[derive(Debug)]
pub struct Library {
    pub name: String,
    pub url: String,
    pub sha1: String,
    pub size: u64,
    pub path: String,
}

/// The mathematical value of a [`Library`].
pub struct LibraryView {
    pub name: Seq<char>,
    pub url: Seq<char>,
    pub sha1: Seq<char>,
    pub size: u64,
    pub path: Seq<char>,
}

impl View for Library {
    type V = LibraryView;

    open spec fn view(&self) -> LibraryView {
        LibraryView {
            name: self.name@,
            url: self.url@,
            sha1: self.sha1@,
            size: self.size,
            path: self.path@,
        }
    }
}

impl Clone for Library {
    fn clone(&self) -> (r: Self)
        ensures
            r@ == self@,
    {
        Library {
            name: self.name.clone(),
            url: self.url.clone(),
            sha1: self.sha1.clone(),
            size: self.size,
            path: self.path.clone(),
        }
    }
}

/// An archive of platform-specific binaries; `classifier` names the platform
/// it is built for.
#[derive(Debug)]
pub struct NativeLibrary {
    pub name: String,
    pub classifier: String,
    pub url: String,
    pub sha1: String,
    pub size: u64,
    pub path: String,
}

/// The mathematical value of a [`NativeLibrary`].
pub struct NativeLibraryView {
    pub name: Seq<char>,
    pub classifier: Seq<char>,
    pub url: Seq<char>,
    pub sha1: Seq<char>,
    pub size: u64,
    pub path: Seq<char>,
}

impl View for NativeLibrary {
    type V = NativeLibraryView;

    open spec fn view(&self) -> NativeLibraryView {
        NativeLibraryView {
            name: self.name@,
            classifier: self.classifier@,
            url: self.url@,
            sha1: self.sha1@,
            size: self.size,
            path: self.path@,
        }
    }
}

impl Clone for NativeLibrary {
    fn clone(&self) -> (r: Self)
        ensures
            r@ == self@,
    {
        NativeLibrary {
            name: self.name.clone(),
            classifier: self.classifier.clone(),
            url: self.url.clone(),
            sha1: self.sha1.clone(),
            size: self.size,
            path: self.path.clone(),
        }
    }
}

/// Whether the file at `path` has to be unpacked after it was fetched.
#[derive(Debug, Clone)]
pub struct ExtractionHint {
    pub path: String,
    pub requires_extraction: bool,
}

/// The argument templates of a version; carried along, never interpreted here.
#[derive(Debug, Clone)]
pub struct NormalizedArguments {
    pub game: Vec<String>,
    pub jvm: Vec<String>,
}

/// A fully resolved version: everything that has to be fetched to run it.
#[derive(Debug, Clone)]
pub struct NormalizedVersion {
    pub id: String,
    pub release_time: String,
    pub java_version: u8,
    pub client_jar: Downloadable,
    pub server_jar: Option<Downloadable>,
    pub asset_index: AssetIndex,
    pub libraries: Vec<Library>,
    pub natives: Vec<NativeLibrary>,
    pub arguments: NormalizedArguments,
    pub requires_extraction: Vec<ExtractionHint>,
}

/// One asset object as the asset index lists it.
#[derive(Debug)]
pub struct Asset {
    pub hash: String,
    pub size: usize,
}

/// The mathematical value of an [`Asset`].
pub struct AssetView {
    pub hash: Seq<char>,
    pub size: usize,
}

impl View for Asset {
    type V = AssetView;

    open spec fn view(&self) -> AssetView {
        AssetView { hash: self.hash@, size: self.size }
    }
}

impl Clone for Asset {
    fn clone(&self) -> (r: Self)
        ensures
            r@ == self@,
    {
        Asset { hash: self.hash.clone(), size: self.size }
    }
}

/// One unit of work: fetch `source_url` to `destination_path` and accept the
/// file only if its SHA-1 digest, in lower-case hex, is `expected_hash`.
#[derive(Debug)]
pub struct DownloadItem {
    pub display_name: String,
    pub source_url: String,
    pub destination_path: String,
    pub expected_hash: String,
    pub category: DownloadProgressType,
}

/// The mathematical value of a [`DownloadItem`].
pub struct DownloadItemView {
    pub display_name: Seq<char>,
    pub source_url: Seq<char>,
    pub destination_path: Seq<char>,
    pub expected_hash: Seq<char>,
    pub category: DownloadProgressType,
}

impl View for DownloadItem {
    type V = DownloadItemView;

    open spec fn view(&self) -> DownloadItemView {
        DownloadItemView {
            display_name: self.display_name@,
            source_url: self.source_url@,
            destination_path: self.destination_path@,
            expected_hash: self.expected_hash@,
            category: self.category,
        }
    }
}

impl Clone for DownloadItem {
    fn clone(&self) -> (r: Self)
        ensures
            r@ == self@,
    {
        DownloadItem {
            display_name: self.display_name.clone(),
            source_url: self.source_url.clone(),
            destination_path: self.destination_path.clone(),
            expected_hash: self.expected_hash.clone(),
            category: self.category,
        }
    }
}

/// Which item a progress notice is about.
#[derive(Debug)]
pub struct DownloadProgressInfo {
    pub name: String,
    pub version: String,
}

/// The mathematical value of a [`DownloadProgressInfo`].
pub struct DownloadProgressInfoView {
    pub name: Seq<char>,
    pub version: Seq<char>,
}

impl View for DownloadProgressInfo {
    type V = DownloadProgressInfoView;

    open spec fn view(&self) -> DownloadProgressInfoView {
        DownloadProgressInfoView { name: self.name@, version: self.version@ }
    }
}

impl Clone for DownloadProgressInfo {
    fn clone(&self) -> (r: Self)
        ensures
            r@ == self@,
    {
        DownloadProgressInfo { name: self.name.clone(), version: self.version.clone() }
    }
}

/// The notice a worker emits when it is done with an item: `current` items
/// out of `total` of this category are complete.
#[derive(Debug)]
pub struct DownloadProgress {
    pub current: usize,
    pub total: usize,
    pub info: DownloadProgressInfo,
    pub download_type: DownloadProgressType,
}

/// The mathematical value of a [`DownloadProgress`].
pub struct DownloadProgressView {
    pub current: nat,
    pub total: nat,
    pub info: DownloadProgressInfoView,
    pub download_type: DownloadProgressType,
}

impl View for DownloadProgress {
    type V = DownloadProgressView;

    open spec fn view(&self) -> DownloadProgressView {
        DownloadProgressView {
            current: self.current as nat,
            total: self.total as nat,
            info: self.info@,
            download_type: self.download_type,
        }
    }
}

impl Clone for DownloadProgress {
    fn clone(&self) -> (r: Self)
        ensures
            r@ == self@,
    {
        DownloadProgress {
            current: self.current,
            total: self.total,
            info: self.info.clone(),
            download_type: self.download_type,
        }
    }
}

/// What the fetcher needs to know of a file that belongs to no category:
/// where it comes from, where it goes and which digest it must have.
#[derive(Debug)]
pub struct FetchTarget {
    pub source_url: String,
    pub destination_path: String,
    pub expected_hash: String,
}

/// The mathematical value of a [`FetchTarget`].
pub struct FetchTargetView {
    pub source_url: Seq<char>,
    pub destination_path: Seq<char>,
    pub expected_hash: Seq<char>,
}

impl View for FetchTarget {
    type V = FetchTargetView;

    open spec fn view(&self) -> FetchTargetView {
        FetchTargetView {
            source_url: self.source_url@,
            destination_path: self.destination_path@,
            expected_hash: self.expected_hash@,
        }
    }
}

impl Clone for FetchTarget {
    fn clone(&self) -> (r: Self)
        ensures
            r@ == self@,
    {
        FetchTarget {
            source_url: self.source_url.clone(),
            destination_path: self.destination_path.clone(),
            expected_hash: self.expected_hash.clone(),
        }
    }
}

/// The mathematical value of a list of libraries.
pub open spec fn libraries_view(libraries: Seq<Library>) -> Seq<LibraryView> {
    Seq::new(libraries.len(), |i: int| libraries[i]@)
}

/// The mathematical value of a list of native archives.
pub open spec fn natives_view(natives: Seq<NativeLibrary>) -> Seq<NativeLibraryView> {
    Seq::new(natives.len(), |i: int| natives[i]@)
}

/// The mathematical value of a list of catalog entries.
pub open spec fn versions_view(versions: Seq<MinecraftVersion>) -> Seq<MinecraftVersionView> {
    Seq::new(versions.len(), |i: int| versions[i]@)
}

} // verus!
