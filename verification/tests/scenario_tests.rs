use proton::adaptive::HostSnapshot;
use proton::archive::{entry_target, plan_extraction, rejection_error};
use proton::assets::VersionAssets;
use proton::digest::HashAccumulator;
use proton::downloader::{needs_extraction, MinecraftDownloader};
use proton::errors::ProtonError;
use proton::fetch::{temp_path, FetchAction, FetchEvent, FetchSession};
use proton::phase::{combine_phase_results, Phase};
use proton::types::{
    Asset, AssetIndex, DownloadItem, DownloadProgress, DownloadProgressType, Downloadable,
    Library, NativeLibrary, NormalizedArguments, NormalizedVersion,
};
use proton::utilities::{host_classifier, OsType};
use std::collections::BTreeMap;

/// A remote side and a directory tree that live in memory.
struct World {
    remote: BTreeMap<String, Vec<Vec<u8>>>,
    archives: BTreeMap<String, Vec<(String, Vec<u8>)>>,
    files: BTreeMap<String, Vec<u8>>,
    requests: usize,
    notices: Vec<DownloadProgress>,
    clock_ms: u64,
}

fn sha1_hex(bytes: &[u8]) -> String {
    let mut acc = HashAccumulator::new();
    acc.update(bytes);
    acc.finish().unwrap()
}

impl World {
    fn new() -> World {
        World {
            remote: BTreeMap::new(),
            archives: BTreeMap::new(),
            files: BTreeMap::new(),
            requests: 0,
            notices: Vec::new(),
            clock_ms: 0,
        }
    }

    /// Serves `bodies` for `url`, one after the other; the last one is served for ever.
    fn serve(&mut self, url: &str, bodies: &[&[u8]]) {
        self.remote.insert(url.to_string(), bodies.iter().map(|b| b.to_vec()).collect());
    }

    fn request(&mut self, url: &str) -> Option<Vec<u8>> {
        self.requests += 1;
        let bodies = self.remote.get_mut(url)?;
        if bodies.len() > 1 {
            Some(bodies.remove(0))
        } else {
            bodies.first().cloned()
        }
    }

    fn fetch(&mut self, item: &DownloadItem) -> Result<(), ProtonError> {
        let mut session = FetchSession::new(item.expected_hash.clone());
        let temp = temp_path(&item.destination_path);
        let mut action = FetchAction::Request;
        loop {
            match action {
                FetchAction::Request | FetchAction::DiscardAndRequest => {
                    if action == FetchAction::DiscardAndRequest {
                        self.files.remove(&temp);
                    }
                    action = match self.request(&item.source_url) {
                        None => session.step(FetchEvent::TransportFailed("not found".to_string())),
                        Some(body) => {
                            let mut digest = HashAccumulator::new();
                            let mut written = Vec::new();
                            for chunk in body.chunks(3) {
                                digest.update(chunk);
                                written.extend_from_slice(chunk);
                            }
                            self.files.insert(temp.clone(), written);
                            session.body_received(digest)
                        }
                    };
                }
                FetchAction::Promote => {
                    let body = self.files.remove(&temp).unwrap();
                    self.files.insert(item.destination_path.clone(), body);
                    action = session.step(FetchEvent::Promoted);
                }
                FetchAction::DiscardAndStop => {
                    self.files.remove(&temp);
                    break;
                }
                FetchAction::Stop => break,
            }
        }
        session.result().unwrap()
    }

    fn extract(&mut self, item: &DownloadItem, destination: &str) -> Result<(), ProtonError> {
        if !self.files.contains_key(&item.destination_path) {
            return Err(ProtonError::from_archive_failure("no such file"));
        }
        let entries = self.archives.get(&item.source_url).cloned().unwrap_or_default();
        let names: Vec<String> = entries.iter().map(|(name, _)| name.clone()).collect();
        let plan = plan_extraction(&names);
        for &i in &plan.writes {
            self.files.insert(entry_target(destination, &names[i]), entries[i].1.clone());
        }
        match plan.rejected {
            Some(i) => Err(rejection_error(&names[i])),
            None => Ok(()),
        }
    }

    fn run_phase(
        &mut self,
        downloader: &mut MinecraftDownloader,
        mut phase: Phase,
        category: DownloadProgressType,
    ) -> Result<(), ProtonError> {
        let permits = phase.permits();
        let mut running: Vec<usize> = Vec::new();
        while !phase.is_drained() {
            while let Some(index) = phase.try_start() {
                running.push(index);
            }
            assert!(running.len() <= permits);
            assert_eq!(phase.in_flight(), running.len());
            // The worker that was started last finishes first.
            let index = running.pop().unwrap();
            let item = phase.item(index).clone();
            let fetched = self.fetch(&item);
            self.clock_ms += 300;
            downloader.record_and_adjust(300, self.clock_ms);
            let post = if needs_extraction(category) {
                let natives_dir = downloader.natives_dir().to_string();
                self.extract(&item, &natives_dir)
            } else {
                Ok(())
            };
            if let Some(notice) = phase.complete(index, fetched, post) {
                self.notices.push(notice);
            }
        }
        phase.finish().unwrap()
    }

    fn run_all(
        &mut self,
        downloader: &mut MinecraftDownloader,
        assets: &VersionAssets,
        run_id: &str,
    ) -> Result<(), ProtonError> {
        let classifier = host_classifier(OsType::Ubuntu);
        let temp_dir = downloader.native_temp_dir(run_id);
        let phase = downloader.natives_phase(&classifier, run_id);
        let natives = self.run_phase(downloader, phase, DownloadProgressType::Native);
        let below_temp = format!("{}/", temp_dir);
        self.files.retain(|path, _| !path.starts_with(&below_temp));
        let phase = downloader.libraries_phase();
        let libraries = self.run_phase(downloader, phase, DownloadProgressType::Library);
        let phase = downloader.assets_phase(assets);
        let assets = self.run_phase(downloader, phase, DownloadProgressType::Asset);
        let phase = downloader.client_phase();
        let client = self.run_phase(downloader, phase, DownloadProgressType::Client);
        combine_phase_results(natives, libraries, assets, client)
    }
}

fn version() -> NormalizedVersion {
    NormalizedVersion {
        id: "1.21.8".to_string(),
        release_time: "2025-07-17".to_string(),
        java_version: 21,
        client_jar: Downloadable {
            url: "https://double.invalid/client.jar".to_string(),
            sha1: sha1_hex(b"client"),
            size: 6,
        },
        server_jar: None,
        asset_index: AssetIndex {
            id: "26".to_string(),
            url: "https://double.invalid/26.json".to_string(),
            sha1: String::new(),
            size: 0,
        },
        libraries: vec![
            Library {
                name: "one".to_string(),
                url: "https://double.invalid/one.jar".to_string(),
                sha1: sha1_hex(b"lib-one"),
                size: 7,
                path: "x/one.jar".to_string(),
            },
            Library {
                name: "two".to_string(),
                url: "https://double.invalid/two.jar".to_string(),
                sha1: sha1_hex(b"lib-two"),
                size: 7,
                path: "y/two.jar".to_string(),
            },
        ],
        natives: vec![
            NativeLibrary {
                name: "glfw".to_string(),
                classifier: "natives-linux".to_string(),
                url: "https://double.invalid/glfw-linux.jar".to_string(),
                sha1: sha1_hex(b"native"),
                size: 6,
                path: "glfw/glfw-linux.jar".to_string(),
            },
            NativeLibrary {
                name: "glfw".to_string(),
                classifier: "natives-windows".to_string(),
                url: "https://double.invalid/glfw-windows.jar".to_string(),
                sha1: sha1_hex(b"other native"),
                size: 12,
                path: "glfw/glfw-windows.jar".to_string(),
            },
        ],
        arguments: NormalizedArguments { game: Vec::new(), jvm: Vec::new() },
        requires_extraction: Vec::new(),
    }
}

fn asset_index() -> VersionAssets {
    let mut assets = VersionAssets::new();
    for (name, body) in [("a.png", "asset-1"), ("b.ogg", "asset-2"), ("c.json", "asset-3")] {
        let body = body.as_bytes();
        assets.insert(name.to_string(), Asset { hash: sha1_hex(body), size: body.len() });
    }
    assets
}

fn honest_world() -> World {
    let mut world = World::new();
    world.serve("https://double.invalid/client.jar", &[b"client"]);
    world.serve("https://double.invalid/one.jar", &[b"lib-one"]);
    world.serve("https://double.invalid/two.jar", &[b"lib-two"]);
    world.serve("https://double.invalid/glfw-linux.jar", &[b"native"]);
    for body in ["asset-1", "asset-2", "asset-3"] {
        let hash = sha1_hex(body.as_bytes());
        world.serve(&MinecraftDownloader::asset_url(&hash), &[body.as_bytes()]);
    }
    world.archives.insert(
        "https://double.invalid/glfw-linux.jar".to_string(),
        vec![
            ("META-INF/x".to_string(), b"manifest".to_vec()),
            ("a/b.so".to_string(), b"shared object".to_vec()),
            ("c.dll".to_string(), b"library".to_vec()),
        ],
    );
    world
}

fn downloader() -> MinecraftDownloader {
    let host = HostSnapshot { cpu_cores: Some(2), available_memory_kb: Some(8 * 1024 * 1024) };
    MinecraftDownloader::new("/game".to_string(), version(), &host, 0)
}

fn expected_tree() -> Vec<(String, Vec<u8>)> {
    let mut tree = vec![
        ("/game/versions/1.21.8/1.21.8.jar".to_string(), b"client".to_vec()),
        ("/game/libraries/x/one.jar".to_string(), b"lib-one".to_vec()),
        ("/game/libraries/y/two.jar".to_string(), b"lib-two".to_vec()),
        ("/game/natives/1.21.8/a/b.so".to_string(), b"shared object".to_vec()),
        ("/game/natives/1.21.8/c.dll".to_string(), b"library".to_vec()),
    ];
    for body in ["asset-1", "asset-2", "asset-3"] {
        let hash = sha1_hex(body.as_bytes());
        tree.push((format!("/game/assets/objects/{}/{}", &hash[..2], hash), body.as_bytes().to_vec()));
    }
    tree.sort();
    tree
}

#[test]
fn a_whole_run_against_an_honest_remote() {
    let mut world = honest_world();
    let mut plan = downloader();
    let result = world.run_all(&mut plan, &asset_index(), "native_temp_1");
    assert_eq!(result, Ok(()));

    assert_eq!(world.notices.len(), 7);
    let count = |category: DownloadProgressType| {
        world.notices.iter().filter(|n| n.download_type == category).count()
    };
    assert_eq!(count(DownloadProgressType::Client), 1);
    assert_eq!(count(DownloadProgressType::Library), 2);
    assert_eq!(count(DownloadProgressType::Native), 1);
    assert_eq!(count(DownloadProgressType::Asset), 3);
    for category in [
        DownloadProgressType::Client,
        DownloadProgressType::Library,
        DownloadProgressType::Native,
        DownloadProgressType::Asset,
    ] {
        let of_category: Vec<&DownloadProgress> =
            world.notices.iter().filter(|n| n.download_type == category).collect();
        for (i, notice) in of_category.iter().enumerate() {
            assert_eq!(notice.current, i + 1);
            assert_eq!(notice.total, of_category.len());
            assert_eq!(notice.info.version, "1.21.8");
        }
    }

    let tree: Vec<(String, Vec<u8>)> = world.files.clone().into_iter().collect();
    assert_eq!(tree, expected_tree());
    assert_eq!(world.requests, 7);

    // Every fetched file has the digest its item declares.
    let mut items = plan.library_items();
    items.push(plan.client_item());
    items.extend(plan.asset_items(&asset_index()));
    assert_eq!(items.len(), 6);
    for item in &items {
        assert_eq!(sha1_hex(&world.files[&item.destination_path]), item.expected_hash);
    }
}

#[test]
fn a_second_run_leaves_the_same_tree() {
    let mut world = honest_world();
    let mut plan = downloader();
    assert_eq!(world.run_all(&mut plan, &asset_index(), "native_temp_1"), Ok(()));
    let first = world.files.clone();
    assert_eq!(world.run_all(&mut plan, &asset_index(), "native_temp_2"), Ok(()));
    assert_eq!(world.files, first);
    assert_eq!(world.notices.len(), 14);
}

#[test]
fn a_run_over_a_partly_filled_tree_repairs_it() {
    let mut world = honest_world();
    world.files.insert("/game/libraries/x/one.jar".to_string(), b"damaged".to_vec());
    world.files.insert("/game/versions/1.21.8/1.21.8.jar".to_string(), b"client".to_vec());
    let mut plan = downloader();
    assert_eq!(world.run_all(&mut plan, &asset_index(), "native_temp_1"), Ok(()));
    let tree: Vec<(String, Vec<u8>)> = world.files.clone().into_iter().collect();
    assert_eq!(tree, expected_tree());
}

#[test]
fn a_corrupt_body_is_fetched_again() {
    let mut world = honest_world();
    world.serve("https://double.invalid/one.jar", &[b"garbage", b"lib-one"]);
    let mut plan = downloader();
    assert_eq!(world.run_all(&mut plan, &asset_index(), "native_temp_1"), Ok(()));
    assert_eq!(world.requests, 8);
    assert_eq!(world.notices.len(), 7);
    assert_eq!(world.files["/game/libraries/x/one.jar"], b"lib-one".to_vec());
}

#[test]
fn a_body_that_stays_corrupt_never_reaches_its_destination() {
    let mut world = honest_world();
    world.serve("https://double.invalid/two.jar", &[b"garbage"]);
    let mut plan = downloader();
    let result = world.run_all(&mut plan, &asset_index(), "native_temp_1");
    assert_eq!(result, Err(ProtonError::HashMismatch));
    // Three requests for the corrupt library, one for each of the six others.
    assert_eq!(world.requests, 9);
    assert!(!world.files.contains_key("/game/libraries/y/two.jar"));
    assert!(!world.files.contains_key("/game/libraries/y/two.jar.tmp"));
    // The other items are in place all the same.
    assert_eq!(world.files.len(), expected_tree().len() - 1);
    for (path, body) in &world.files {
        assert!(expected_tree().contains(&(path.clone(), body.clone())));
    }
}

#[test]
fn a_missing_file_fails_the_run_without_a_retry() {
    let mut world = honest_world();
    world.remote.remove("https://double.invalid/client.jar");
    let mut plan = downloader();
    let result = world.run_all(&mut plan, &asset_index(), "native_temp_1");
    assert_eq!(result, Err(ProtonError::RequestError("not found".to_string())));
    assert_eq!(world.requests, 7);
    assert!(!world.files.contains_key("/game/versions/1.21.8/1.21.8.jar"));
}

#[test]
fn the_first_failed_phase_is_reported() {
    let mut world = honest_world();
    world.remote.remove("https://double.invalid/client.jar");
    world.serve("https://double.invalid/one.jar", &[b"garbage"]);
    let mut plan = downloader();
    let result = world.run_all(&mut plan, &asset_index(), "native_temp_1");
    assert_eq!(result, Err(ProtonError::HashMismatch));
}

#[test]
fn an_archive_that_reaches_outside_is_refused() {
    let mut world = honest_world();
    world.archives.insert(
        "https://double.invalid/glfw-linux.jar".to_string(),
        vec![
            ("a/b.so".to_string(), b"shared object".to_vec()),
            ("../../../etc/cron.d/job".to_string(), b"evil".to_vec()),
            ("c.dll".to_string(), b"library".to_vec()),
        ],
    );
    let mut plan = downloader();
    let result = world.run_all(&mut plan, &asset_index(), "native_temp_1");
    assert_eq!(
        result,
        Err(ProtonError::Other(
            "Zip extraction error: entry escapes the destination directory: ../../../etc/cron.d/job"
                .to_string()
        ))
    );
    assert!(world.files.keys().all(|path| path.starts_with("/game/")));
    assert!(world.files.keys().all(|path| !path.contains("..")));
    assert!(world.files.contains_key("/game/natives/1.21.8/a/b.so"));
    assert!(!world.files.contains_key("/game/natives/1.21.8/c.dll"));
    // The native unit got no notice; the six others did.
    assert_eq!(world.notices.len(), 6);
    // The temporary directory of the run is gone all the same.
    assert!(world.files.keys().all(|path| !path.starts_with("/game/temp/")));
}
