//! Host classification and the class path of a version.

use crate::errors::ProtonError;
use crate::text::concat;
use crate::types::NormalizedVersion;
use vstd::prelude::*;

verus! {

/// The kinds of operating system the host can report itself as.
#[derive(Debug, Clone, Copy, PartialEq, Eq, Structural)]
pub enum OsType {
    Linux,
    Ubuntu,
    Debian,
    Arch,
    Manjaro,
    Redhat,
    Fedora,
    Alpine,
    OracleLinux,
    EndeavourOS,
    Pop,
    NixOS,
    Macos,
    Windows,
    /// Any system without a variant of its own.
    Other,
}

/// Whether a system is Linux or one of its distributions.
pub open spec fn is_linux(os: OsType) -> bool {
    os != OsType::Macos && os != OsType::Windows && os != OsType::Other
}

/// The family name of a system: `linux`, `macos`, `windows` or `unknown`.
pub open spec fn spec_os_name(os: OsType) -> Seq<char> {
    if is_linux(os) {
        "linux"@
    } else if os == OsType::Macos {
        "macos"@
    } else if os == OsType::Windows {
        "windows"@
    } else {
        "unknown"@
    }
}

/// The family name of the system the host reported.
pub fn get_os_name_runtime(os: OsType) -> (name: &'static str)
    ensures
        name@ == spec_os_name(os),
{
    match os {
        OsType::Linux
        | OsType::Ubuntu
        | OsType::Debian
        | OsType::Arch
        | OsType::Manjaro
        | OsType::Redhat
        | OsType::Fedora
        | OsType::Alpine
        | OsType::OracleLinux
        | OsType::EndeavourOS
        | OsType::Pop
        | OsType::NixOS => "linux",
        OsType::Macos => "macos",
        OsType::Windows => "windows",
        OsType::Other => "unknown",
    }
}

/// The classifier of the native archives built for a system.
pub open spec fn spec_host_classifier(os: OsType) -> Seq<char> {
    "natives-"@ + spec_os_name(os)
}

/// The classifier of the native archives built for the host: `natives-`
/// and the family name of its system.
pub fn host_classifier(os: OsType) -> (classifier: String)
    ensures
        classifier@ == spec_host_classifier(os),
{
    concat("natives-", get_os_name_runtime(os))
}

/// The class path entry of a library with the given name.
pub open spec fn spec_classpath_entry(name: Seq<char>) -> Seq<char> {
    "./lib/"@ + name
}

/// The class path of a version: one entry for each library, in the order of
/// the descriptor. It never fails.
pub fn resolve_classpath(game_version: &NormalizedVersion) -> (result: Result<
    Vec<String>,
    ProtonError,
>)
    ensures
        result is Ok,
        result->Ok_0@.len() == game_version.libraries@.len(),
        forall|i: int|
            0 <= i < game_version.libraries@.len() ==> (#[trigger] result->Ok_0@[i])@
                == spec_classpath_entry(game_version.libraries@[i].name@),
{
    let mut entries: Vec<String> = Vec::new();
    let mut i: usize = 0;
    while i < game_version.libraries.len()
        invariant
            i <= game_version.libraries@.len(),
            entries@.len() == i,
            forall|j: int|
                0 <= j < i ==> (#[trigger] entries@[j])@ == spec_classpath_entry(
                    game_version.libraries@[j].name@,
                ),
        decreases game_version.libraries@.len() - i,
    {
        entries.push(concat("./lib/", game_version.libraries[i].name.as_str()));
        i += 1;
    }
    Ok(entries)
}

} // verus!
