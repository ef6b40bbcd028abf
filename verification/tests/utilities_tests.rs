use proton::types::{
    AssetIndex, Downloadable, Library, NormalizedArguments, NormalizedVersion,
};
use proton::utilities::{get_os_name_runtime, host_classifier, resolve_classpath, OsType};

#[test]
fn linux_and_its_distributions() {
    for os in [
        OsType::Linux,
        OsType::Ubuntu,
        OsType::Debian,
        OsType::Arch,
        OsType::Manjaro,
        OsType::Redhat,
        OsType::Fedora,
        OsType::Alpine,
        OsType::OracleLinux,
        OsType::EndeavourOS,
        OsType::Pop,
        OsType::NixOS,
    ] {
        assert_eq!(get_os_name_runtime(os), "linux");
    }
}

#[test]
fn other_systems() {
    assert_eq!(get_os_name_runtime(OsType::Macos), "macos");
    assert_eq!(get_os_name_runtime(OsType::Windows), "windows");
    assert_eq!(get_os_name_runtime(OsType::Other), "unknown");
}

#[test]
fn classifiers() {
    assert_eq!(host_classifier(OsType::Fedora), "natives-linux");
    assert_eq!(host_classifier(OsType::Macos), "natives-macos");
    assert_eq!(host_classifier(OsType::Windows), "natives-windows");
    assert_eq!(host_classifier(OsType::Other), "natives-unknown");
}

fn version(library_names: &[&str]) -> NormalizedVersion {
    NormalizedVersion {
        id: "1.21.8".to_string(),
        release_time: "2025-07-17".to_string(),
        java_version: 21,
        client_jar: Downloadable { url: String::new(), sha1: String::new(), size: 0 },
        server_jar: None,
        asset_index: AssetIndex {
            id: "26".to_string(),
            url: String::new(),
            sha1: String::new(),
            size: 0,
        },
        libraries: library_names
            .iter()
            .map(|name| Library {
                name: name.to_string(),
                url: String::new(),
                sha1: String::new(),
                size: 0,
                path: format!("p/{}.jar", name),
            })
            .collect(),
        natives: Vec::new(),
        arguments: NormalizedArguments { game: Vec::new(), jvm: Vec::new() },
        requires_extraction: Vec::new(),
    }
}

#[test]
fn class_path_lists_every_library_by_name() {
    let entries = resolve_classpath(&version(&["com.mojang:brigadier:1.3.10", "b", ""]));
    assert_eq!(
        entries,
        Ok(vec![
            "./lib/com.mojang:brigadier:1.3.10".to_string(),
            "./lib/b".to_string(),
            "./lib/".to_string(),
        ])
    );
}

#[test]
fn class_path_of_a_version_without_libraries() {
    assert_eq!(resolve_classpath(&version(&[])), Ok(Vec::new()));
}
