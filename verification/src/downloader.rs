//! The acquisition orchestrator's plan: which items each of the four phases
//! has to fetch, where each item goes, and how large the worker pool of a
//! phase is.
//!
//! Paths are texts whose parts are joined by `/`. The game directory is the
//! root of everything that is written.

use crate::adaptive::{AdaptiveConfig, ConcurrencyState, HostSnapshot, spec_optimal_downloads};
use crate::assets::VersionAssets;
use crate::phase::{items_view, Phase, PhaseView};
use crate::text::{concat, join, prefix, spec_join, spec_prefix, str_equal};
use crate::types::{
    libraries_view,
    natives_view,
    AssetIndexView,
    AssetView,
    DownloadItem,
    DownloadItemView,
    DownloadProgressType,
    DownloadableView,
    LibraryView,
    NativeLibraryView,
    NormalizedVersion,
    RESOURCES_BASE_URL,
};
use vstd::prelude::*;

verus! {

/// The directory the native payloads of a version are unpacked to:
/// `natives/<id>` below the game directory.
pub open spec fn spec_natives_dir(game_path: Seq<char>, version_id: Seq<char>) -> Seq<char> {
    spec_join(spec_join(game_path, "natives"@), version_id)
}

/// The directory of the asset objects: `assets/objects` below the game
/// directory.
pub open spec fn spec_objects_dir(game_path: Seq<char>) -> Seq<char> {
    spec_join(spec_join(game_path, "assets"@), "objects"@)
}

/// The directory of the libraries: `libraries` below the game directory.
pub open spec fn spec_libraries_dir(game_path: Seq<char>) -> Seq<char> {
    spec_join(game_path, "libraries"@)
}

/// The directory the native archives of one run are fetched to before they
/// are unpacked: `temp/natives/<run id>` below the game directory.
pub open spec fn spec_native_temp_dir(game_path: Seq<char>, run_id: Seq<char>) -> Seq<char> {
    spec_join(spec_join(spec_join(game_path, "temp"@), "natives"@), run_id)
}

/// The client artifact of a version as an item: it goes to
/// `versions/<id>/<id>.jar` below the game directory.
pub open spec fn spec_client_item(
    game_path: Seq<char>,
    version_id: Seq<char>,
    jar: DownloadableView,
) -> DownloadItemView {
    DownloadItemView {
        display_name: "minecraft-"@ + version_id,
        source_url: jar.url,
        destination_path: spec_join(
            spec_join(spec_join(game_path, "versions"@), version_id),
            version_id + ".jar"@,
        ),
        expected_hash: jar.sha1,
        category: DownloadProgressType::Client,
    }
}

/// A library as an item: it goes to its own path below the libraries
/// directory.
pub open spec fn spec_library_item(libraries_dir: Seq<char>, library: LibraryView) -> DownloadItemView {
    DownloadItemView {
        display_name: library.name,
        source_url: library.url,
        destination_path: spec_join(libraries_dir, library.path),
        expected_hash: library.sha1,
        category: DownloadProgressType::Library,
    }
}

/// A native archive as an item: it goes to its own path below the
/// temporary directory of the run.
pub open spec fn spec_native_item(temp_dir: Seq<char>, native: NativeLibraryView) -> DownloadItemView {
    DownloadItemView {
        display_name: native.name,
        source_url: native.url,
        destination_path: spec_join(temp_dir, native.path),
        expected_hash: native.sha1,
        category: DownloadProgressType::Native,
    }
}

/// The first two characters of a hash: the directory an asset object is
/// filed under, remotely and locally.
pub open spec fn spec_hash_prefix(hash: Seq<char>) -> Seq<char> {
    spec_prefix(hash, 2)
}

/// Where an asset object is published: below the resource base URL, under
/// the first two characters of its hash and then its whole hash. The base
/// URL ends in a separator of its own and the join adds one, so two
/// separators stand before the first part.
pub open spec fn spec_asset_url(hash: Seq<char>) -> Seq<char> {
    spec_join(spec_join(RESOURCES_BASE_URL@, spec_hash_prefix(hash)), hash)
}

/// An asset object as an item: it is addressed by its hash, remotely and
/// below the objects directory.
pub open spec fn spec_asset_item(
    objects_dir: Seq<char>,
    name: Seq<char>,
    asset: AssetView,
) -> DownloadItemView {
    DownloadItemView {
        display_name: name,
        source_url: spec_asset_url(asset.hash),
        destination_path: spec_join(spec_join(objects_dir, spec_hash_prefix(asset.hash)), asset.hash),
        expected_hash: asset.hash,
        category: DownloadProgressType::Asset,
    }
}

/// The native archives built for the platform with the given classifier, in
/// the order of the descriptor.
pub open spec fn spec_matching_natives(
    natives: Seq<NativeLibraryView>,
    classifier: Seq<char>,
) -> Seq<NativeLibraryView> {
    natives.filter(|native: NativeLibraryView| native.classifier == classifier)
}

/// Whether units of this category have a post-processing step: natives are
/// unpacked after they were fetched, nothing else is.
pub open spec fn spec_needs_extraction(category: DownloadProgressType) -> bool {
    category == DownloadProgressType::Native
}

/// Whether a unit of this category has to be unpacked after it was fetched.
pub fn needs_extraction(category: DownloadProgressType) -> (needed: bool)
    ensures
        needed == spec_needs_extraction(category),
{
    category == DownloadProgressType::Native
}

/// The mathematical value of a [`MinecraftDownloader`].
pub struct DownloaderView {
    pub game_path: Seq<char>,
    pub version_id: Seq<char>,
    pub client_jar: DownloadableView,
    pub asset_index: AssetIndexView,
    pub libraries: Seq<LibraryView>,
    pub natives: Seq<NativeLibraryView>,
    pub natives_dir: Seq<char>,
    pub objects_dir: Seq<char>,
    pub libraries_dir: Seq<char>,
    pub config: ConcurrencyState,
}

impl DownloaderView {
    /// The invariant of a downloader: its directories lie where the layout
    /// puts them, and its controller is in order.
    pub open spec fn wf(self) -> bool {
        &&& self.natives_dir == spec_natives_dir(self.game_path, self.version_id)
        &&& self.objects_dir == spec_objects_dir(self.game_path)
        &&& self.libraries_dir == spec_libraries_dir(self.game_path)
        &&& self.config.wf()
    }

    /// The items of the library phase.
    pub open spec fn library_items(self) -> Seq<DownloadItemView> {
        self.libraries.map_values(|library: LibraryView| spec_library_item(self.libraries_dir, library))
    }

    /// The items of the native phase on a platform with the given
    /// classifier, in the run with the given identifier.
    pub open spec fn native_items(self, classifier: Seq<char>, run_id: Seq<char>) -> Seq<
        DownloadItemView,
    > {
        spec_matching_natives(self.natives, classifier).map_values(
            |native: NativeLibraryView|
                spec_native_item(spec_native_temp_dir(self.game_path, run_id), native),
        )
    }

    /// The items of the asset phase for an asset index with the given
    /// listing.
    pub open spec fn asset_items(self, listing: Seq<(Seq<char>, AssetView)>) -> Seq<
        DownloadItemView,
    > {
        listing.map_values(
            |entry: (Seq<char>, AssetView)| spec_asset_item(self.objects_dir, entry.0, entry.1),
        )
    }

    /// The phase over `items` as it is created now: nothing started, and as
    /// many permits as the limit is at this moment.
    pub open spec fn phase(self, category: DownloadProgressType, items: Seq<DownloadItemView>) -> PhaseView {
        PhaseView::fresh(category, self.version_id, items, self.config.current_limit)
    }
}

/// The plan of one acquisition run and the controller all its phases share.
#[derive(Debug)]
pub struct MinecraftDownloader {
    game_path: String,
    game_version: NormalizedVersion,
    natives_dir: String,
    objects_dir: String,
    libraries_dir: String,
    adaptive_config: AdaptiveConfig,
}

impl View for MinecraftDownloader {
    type V = DownloaderView;

    closed spec fn view(&self) -> DownloaderView {
        DownloaderView {
            game_path: self.game_path@,
            version_id: self.game_version.id@,
            client_jar: self.game_version.client_jar@,
            asset_index: self.game_version.asset_index@,
            libraries: libraries_view(self.game_version.libraries@),
            natives: natives_view(self.game_version.natives@),
            natives_dir: self.natives_dir@,
            objects_dir: self.objects_dir@,
            libraries_dir: self.libraries_dir@,
            config: self.adaptive_config@,
        }
    }
}

impl MinecraftDownloader {
    fn with_controller(
        game_path: String,
        game_version: NormalizedVersion,
        adaptive_config: AdaptiveConfig,
    ) -> (downloader: MinecraftDownloader)
        requires
            adaptive_config@.wf(),
        ensures
            downloader@.wf(),
            downloader@.game_path == game_path@,
            downloader@.version_id == game_version.id@,
            downloader@.client_jar == game_version.client_jar@,
            downloader@.asset_index == game_version.asset_index@,
            downloader@.libraries == libraries_view(game_version.libraries@),
            downloader@.natives == natives_view(game_version.natives@),
            downloader@.config == adaptive_config@,
    {
        let natives_dir = join(join(game_path.as_str(), "natives").as_str(), game_version.id.as_str());
        let objects_dir = join(join(game_path.as_str(), "assets").as_str(), "objects");
        let libraries_dir = join(game_path.as_str(), "libraries");
        MinecraftDownloader {
            game_path,
            game_version,
            natives_dir,
            objects_dir,
            libraries_dir,
            adaptive_config,
        }
    }

    /// The plan for acquiring `game_version` below `game_path`, with the
    /// default tuning for the host.
    pub fn new(
        game_path: String,
        game_version: NormalizedVersion,
        host: &HostSnapshot,
        now_ms: u64,
    ) -> (downloader: MinecraftDownloader)
        ensures
            downloader@.wf(),
            downloader@.game_path == game_path@,
            downloader@.version_id == game_version.id@,
            downloader@.client_jar == game_version.client_jar@,
            downloader@.asset_index == game_version.asset_index@,
            downloader@.libraries == libraries_view(game_version.libraries@),
            downloader@.natives == natives_view(game_version.natives@),
            downloader@.config == ConcurrencyState::default_for(
                spec_optimal_downloads(*host),
                now_ms as nat,
            ),
    {
        Self::with_controller(game_path, game_version, AdaptiveConfig::new(host, now_ms))
    }

    /// The plan for acquiring `game_version` below `game_path`, with the
    /// eager tuning if `aggressive` is set and the cautious one otherwise.
    pub fn with_config(
        game_path: String,
        game_version: NormalizedVersion,
        aggressive: bool,
        host: &HostSnapshot,
        now_ms: u64,
    ) -> (downloader: MinecraftDownloader)
        ensures
            downloader@.wf(),
            downloader@.game_path == game_path@,
            downloader@.version_id == game_version.id@,
            downloader@.client_jar == game_version.client_jar@,
            downloader@.asset_index == game_version.asset_index@,
            downloader@.libraries == libraries_view(game_version.libraries@),
            downloader@.natives == natives_view(game_version.natives@),
            downloader@.config == if aggressive {
                ConcurrencyState::aggressive_for(spec_optimal_downloads(*host), now_ms as nat)
            } else {
                ConcurrencyState::conservative_for(spec_optimal_downloads(*host), now_ms as nat)
            },
    {
        let adaptive_config = if aggressive {
            AdaptiveConfig::aggressive(host, now_ms)
        } else {
            AdaptiveConfig::conservative(host, now_ms)
        };
        Self::with_controller(game_path, game_version, adaptive_config)
    }

    /// The live limit, its floor and its ceiling, in this order.
    pub fn get_download_stats(&self) -> (stats: (usize, usize, usize))
        ensures
            stats.0 == self@.config.current_limit,
            stats.1 == self@.config.min_limit,
            stats.2 == self@.config.max_limit,
    {
        (
            self.adaptive_config.current_concurrent(),
            self.adaptive_config.min_concurrent(),
            self.adaptive_config.max_concurrent(),
        )
    }

    /// Tells the controller that a download took `latency_ms` and was done
    /// at `now_ms`. Nothing else of the plan changes.
    pub fn record_and_adjust(&mut self, latency_ms: u64, now_ms: u64)
        requires
            old(self)@.wf(),
        ensures
            final(self)@.wf(),
            final(self)@ == (DownloaderView {
                config: old(self)@.config.record_and_adjust(latency_ms as nat, now_ms as nat),
                ..old(self)@
            }),
    {
        self.adaptive_config.record_and_adjust(latency_ms, now_ms);
    }

    /// Where the asset index of the version is published. The driver
    /// resolves that document before the asset phase is planned.
    pub fn asset_index_url(&self) -> (url: &str)
        ensures
            url@ == self@.asset_index.url,
    {
        self.game_version.asset_index.url.as_str()
    }

    /// The directory the native payloads are unpacked to.
    pub fn natives_dir(&self) -> (path: &str)
        ensures
            path@ == self@.natives_dir,
    {
        self.natives_dir.as_str()
    }

    /// The temporary directory of the run `run_id`. It is created before the
    /// native phase starts and removed once the phase is drained, whatever
    /// became of its units.
    pub fn native_temp_dir(&self, run_id: &str) -> (path: String)
        ensures
            path@ == spec_native_temp_dir(self@.game_path, run_id@),
    {
        join(join(join(self.game_path.as_str(), "temp").as_str(), "natives").as_str(), run_id)
    }

    /// The one item of the client phase.
    pub fn client_item(&self) -> (item: DownloadItem)
        ensures
            item@ == spec_client_item(self@.game_path, self@.version_id, self@.client_jar),
    {
        let id = self.game_version.id.as_str();
        let directory = join(join(self.game_path.as_str(), "versions").as_str(), id);
        let file = concat(id, ".jar");
        DownloadItem {
            display_name: concat("minecraft-", id),
            source_url: self.game_version.client_jar.url.clone(),
            destination_path: join(directory.as_str(), file.as_str()),
            expected_hash: self.game_version.client_jar.sha1.clone(),
            category: DownloadProgressType::Client,
        }
    }

    /// The items of the library phase: one for each library, in the order of
    /// the descriptor.
    pub fn library_items(&self) -> (items: Vec<DownloadItem>)
        ensures
            items_view(items@) == self@.library_items(),
    {
        let mut items: Vec<DownloadItem> = Vec::new();
        let mut i: usize = 0;
        while i < self.game_version.libraries.len()
            invariant
                i <= self.game_version.libraries@.len(),
                items@.len() == i,
                forall|j: int|
                    0 <= j < i ==> (#[trigger] items@[j])@ == spec_library_item(
                        self@.libraries_dir,
                        self.game_version.libraries@[j]@,
                    ),
            decreases self.game_version.libraries@.len() - i,
        {
            let library = &self.game_version.libraries[i];
            items.push(
                DownloadItem {
                    display_name: library.name.clone(),
                    source_url: library.url.clone(),
                    destination_path: join(self.libraries_dir.as_str(), library.path.as_str()),
                    expected_hash: library.sha1.clone(),
                    category: DownloadProgressType::Library,
                },
            );
            i += 1;
        }
        items
    }

    /// The items of the native phase: one for each native archive built for
    /// the platform `host_classifier`, in the order of the descriptor.
    /// Archives for other platforms are not fetched.
    pub fn native_items(&self, host_classifier: &str, run_id: &str) -> (items: Vec<DownloadItem>)
        ensures
            items_view(items@) == self@.native_items(host_classifier@, run_id@),
    {
        let temp_dir = self.native_temp_dir(run_id);
        let ghost natives = natives_view(self.game_version.natives@);
        let ghost matches = |native: NativeLibraryView| native.classifier == host_classifier@;
        let ghost to_item = |native: NativeLibraryView| spec_native_item(temp_dir@, native);
        let mut items: Vec<DownloadItem> = Vec::new();
        let mut i: usize = 0;
        proof {
            reveal(Seq::filter);
        }
        while i < self.game_version.natives.len()
            invariant
                i <= self.game_version.natives@.len(),
                natives == natives_view(self.game_version.natives@),
                matches == |native: NativeLibraryView| native.classifier == host_classifier@,
                to_item == |native: NativeLibraryView| spec_native_item(temp_dir@, native),
                items_view(items@) == natives.take(i as int).filter(matches).map_values(to_item),
            decreases self.game_version.natives@.len() - i,
        {
            let native = &self.game_version.natives[i];
            proof {
                reveal(Seq::filter);
                assert(natives.take(i + 1).drop_last() == natives.take(i as int));
            }
            if str_equal(native.classifier.as_str(), host_classifier) {
                items.push(
                    DownloadItem {
                        display_name: native.name.clone(),
                        source_url: native.url.clone(),
                        destination_path: join(temp_dir.as_str(), native.path.as_str()),
                        expected_hash: native.sha1.clone(),
                        category: DownloadProgressType::Native,
                    },
                );
                proof {
                    assert(natives.take(i + 1).filter(matches).map_values(to_item)
                        =~= natives.take(i as int).filter(matches).map_values(to_item).push(
                        to_item(native@),
                    ));
                }
            }
            i += 1;
        }
        proof {
            assert(natives.take(i as int) == natives);
        }
        items
    }

    /// Where the asset object with the given hash is published.
    pub fn asset_url(hash: &str) -> (url: String)
        ensures
            url@ == spec_asset_url(hash@),
    {
        let shard = prefix(hash, 2);
        join(join(RESOURCES_BASE_URL, shard.as_str()).as_str(), hash)
    }

    /// The items of the asset phase: one for each entry of the asset index,
    /// in the order of its listing.
    pub fn asset_items(&self, assets: &VersionAssets) -> (items: Vec<DownloadItem>)
        requires
            assets.wf(),
        ensures
            items_view(items@) == self@.asset_items(assets.listing()),
    {
        let pairs = assets.as_vec();
        let mut items: Vec<DownloadItem> = Vec::new();
        let mut i: usize = 0;
        while i < pairs.len()
            invariant
                i <= pairs@.len(),
                pairs@.len() == assets.listing().len(),
                forall|j: int|
                    0 <= j < pairs@.len() ==> ((#[trigger] pairs@[j]).0@, pairs@[j].1@)
                        == assets.listing()[j],
                items@.len() == i,
                forall|j: int|
                    0 <= j < i ==> (#[trigger] items@[j])@ == spec_asset_item(
                        self@.objects_dir,
                        assets.listing()[j].0,
                        assets.listing()[j].1,
                    ),
            decreases pairs@.len() - i,
        {
            let name = pairs[i].0;
            let asset = pairs[i].1;
            let shard = prefix(asset.hash.as_str(), 2);
            let directory = join(self.objects_dir.as_str(), shard.as_str());
            items.push(
                DownloadItem {
                    display_name: name.clone(),
                    source_url: Self::asset_url(asset.hash.as_str()),
                    destination_path: join(directory.as_str(), asset.hash.as_str()),
                    expected_hash: asset.hash.clone(),
                    category: DownloadProgressType::Asset,
                },
            );
            i += 1;
        }
        items
    }

    fn phase_over(&self, category: DownloadProgressType, items: Vec<DownloadItem>) -> (phase: Phase)
        ensures
            phase.wf(),
            phase@ == self@.phase(category, items_view(items@)),
    {
        Phase::new(
            category,
            self.game_version.id.clone(),
            items,
            self.adaptive_config.current_concurrent(),
        )
    }

    /// The client phase, with a pool as large as the limit is now.
    pub fn client_phase(&self) -> (phase: Phase)
        ensures
            phase.wf(),
            phase@ == self@.phase(
                DownloadProgressType::Client,
                seq![spec_client_item(self@.game_path, self@.version_id, self@.client_jar)],
            ),
    {
        let mut items: Vec<DownloadItem> = Vec::new();
        items.push(self.client_item());
        assert(items_view(items@) =~= seq![
            spec_client_item(self@.game_path, self@.version_id, self@.client_jar),
        ]);
        self.phase_over(DownloadProgressType::Client, items)
    }

    /// The library phase, with a pool as large as the limit is now.
    pub fn libraries_phase(&self) -> (phase: Phase)
        ensures
            phase.wf(),
            phase@ == self@.phase(DownloadProgressType::Library, self@.library_items()),
    {
        self.phase_over(DownloadProgressType::Library, self.library_items())
    }

    /// The native phase on a platform with the classifier `host_classifier`,
    /// with a pool as large as the limit is now.
    pub fn natives_phase(&self, host_classifier: &str, run_id: &str) -> (phase: Phase)
        ensures
            phase.wf(),
            phase@ == self@.phase(
                DownloadProgressType::Native,
                self@.native_items(host_classifier@, run_id@),
            ),
    {
        self.phase_over(DownloadProgressType::Native, self.native_items(host_classifier, run_id))
    }

    /// The asset phase for the given asset index, with a pool as large as
    /// the limit is now.
    pub fn assets_phase(&self, assets: &VersionAssets) -> (phase: Phase)
        requires
            assets.wf(),
        ensures
            phase.wf(),
            phase@ == self@.phase(DownloadProgressType::Asset, self@.asset_items(assets.listing())),
    {
        self.phase_over(DownloadProgressType::Asset, self.asset_items(assets))
    }
}

} // verus!
