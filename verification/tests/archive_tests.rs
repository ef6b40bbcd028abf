use proton::archive::{
    classify_entry, entry_target, plan_extraction, rejection_error, EntryDisposition,
};
use proton::errors::ProtonError;

fn names(list: &[&str]) -> Vec<String> {
    list.iter().map(|s| s.to_string()).collect()
}

#[test]
fn metadata_is_skipped_and_payload_is_written() {
    let entries = names(&["META-INF/x", "a/b.so", "c.dll"]);
    let plan = plan_extraction(&entries);
    assert_eq!(plan.writes, vec![1, 2]);
    assert_eq!(plan.rejected, None);
    let targets: Vec<String> =
        plan.writes.iter().map(|&i| entry_target("/game/natives/1.0", &entries[i])).collect();
    assert_eq!(targets, vec!["/game/natives/1.0/a/b.so", "/game/natives/1.0/c.dll"]);
    assert!(!targets.contains(&"/game/natives/1.0/META-INF/x".to_string()));
}

#[test]
fn reserved_prefix_is_exact() {
    assert_eq!(classify_entry("META-INF/"), EntryDisposition::Skip);
    assert_eq!(classify_entry("META-INF/MANIFEST.MF"), EntryDisposition::Skip);
    assert_eq!(classify_entry("META-INF/../../x"), EntryDisposition::Skip);
    assert_eq!(classify_entry("META-INF"), EntryDisposition::Write);
    assert_eq!(classify_entry("meta-inf/x"), EntryDisposition::Write);
    assert_eq!(classify_entry("a/META-INF/x"), EntryDisposition::Write);
    assert_eq!(classify_entry("META-INFO/x"), EntryDisposition::Write);
}

#[test]
fn names_that_leave_the_destination_are_refused() {
    for name in [
        "..",
        "../evil",
        "a/../../b",
        "a/..",
        "a/../b",
        "a\\..\\b",
        "..\\evil",
        "/etc/passwd",
        "/",
        "\\\\server\\share\\x",
        "\\x",
        "C:\\Windows\\x.dll",
        "c:evil",
        "Z:/x",
        "lib/x/..",
    ] {
        assert_eq!(classify_entry(name), EntryDisposition::Reject, "{}", name);
    }
}

#[test]
fn names_with_harmless_dots_are_written() {
    for name in [
        "a..b", "..a/b", "a/..b", "a../b", "...", "a/.../b", ".", "./a", "a/./b", ".hidden",
        "1:x", "ab:c", "a/b:c", "libfoo.so.1", "a/b/c/d.dll", "",
    ] {
        assert_eq!(classify_entry(name), EntryDisposition::Write, "{}", name);
    }
}

#[test]
fn extraction_stops_at_the_first_refused_entry() {
    let entries = names(&["a.so", "META-INF/x", "../b.so", "c.so", "/d.so"]);
    let plan = plan_extraction(&entries);
    assert_eq!(plan.writes, vec![0]);
    assert_eq!(plan.rejected, Some(2));
}

#[test]
fn plans_of_small_archives() {
    let plan = plan_extraction(&names(&[]));
    assert_eq!(plan.writes, Vec::<usize>::new());
    assert_eq!(plan.rejected, None);
    let plan = plan_extraction(&names(&["META-INF/", "META-INF/a"]));
    assert_eq!(plan.writes, Vec::<usize>::new());
    assert_eq!(plan.rejected, None);
    let plan = plan_extraction(&names(&[".."]));
    assert_eq!(plan.writes, Vec::<usize>::new());
    assert_eq!(plan.rejected, Some(0));
    let plan = plan_extraction(&names(&["x", "x", "y"]));
    assert_eq!(plan.writes, vec![0, 1, 2]);
    assert_eq!(plan.rejected, None);
}

#[test]
fn refusal_is_reported_as_an_archive_failure() {
    let error = rejection_error("../b.so");
    assert_eq!(
        error,
        ProtonError::Other(
            "Zip extraction error: entry escapes the destination directory: ../b.so".to_string()
        )
    );
    assert_eq!(
        error.message(),
        "Other error: Zip extraction error: entry escapes the destination directory: ../b.so"
    );
}
