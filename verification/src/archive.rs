//! The archive extractor's decisions: which entries of a native archive are
//! unpacked, where to, and which are refused.
//!
//! Archives come from the network, so the name of an entry is untrusted. An
//! entry whose name could lead out of the destination directory is never
//! written: the extraction is refused at that entry.

use crate::errors::{ProtonError, ProtonErrorView};
use crate::text::{chars_of, concat, join, spec_join, starts_with};
use vstd::prelude::*;

verus! {

/// Entries below this prefix are metadata of the archive, not payload.
pub const RESERVED_PREFIX: &'static str = "META-INF/";

/// Whether a character separates the parts of a path on some platform.
pub open spec fn is_separator(c: char) -> bool {
    c == '/' || c == '\\'
}

/// Whether a character is a letter of the ASCII alphabet.
pub open spec fn is_ascii_letter(c: char) -> bool {
    (0x41 <= c as u32 <= 0x5a) || (0x61 <= c as u32 <= 0x7a)
}

/// Whether an entry is metadata of the archive.
pub open spec fn is_reserved_name(name: Seq<char>) -> bool {
    RESERVED_PREFIX@.is_prefix_of(name)
}

/// Whether a name starts at the root of a filesystem.
pub open spec fn is_absolute_name(name: Seq<char>) -> bool {
    name.len() > 0 && is_separator(name[0])
}

/// Whether a name starts with a drive letter.
pub open spec fn has_drive_prefix(name: Seq<char>) -> bool {
    name.len() >= 2 && is_ascii_letter(name[0]) && name[1] == ':'
}

/// Whether the part of `name` that starts at `at` is `..`: two dots between
/// separators or the ends of the name.
pub open spec fn is_parent_at(name: Seq<char>, at: int) -> bool {
    &&& 0 <= at
    &&& at + 2 <= name.len()
    &&& name[at] == '.'
    &&& name[at + 1] == '.'
    &&& (at == 0 || is_separator(name[at - 1]))
    &&& (at + 2 == name.len() || is_separator(name[at + 2]))
}

/// Whether some part of a name is `..`.
pub open spec fn has_parent_component(name: Seq<char>) -> bool {
    exists|at: int| is_parent_at(name, at)
}

/// Whether writing an entry below a directory under this name could reach a
/// place outside that directory.
pub open spec fn escapes_destination(name: Seq<char>) -> bool {
    is_absolute_name(name) || has_drive_prefix(name) || has_parent_component(name)
}

/// What happens to an entry of an archive.
#[derive(Debug, Clone, Copy, PartialEq, Eq, Structural)]
pub enum EntryDisposition {
    /// The entry is metadata: it is neither read nor written.
    Skip,
    /// The entry is unpacked below the destination directory.
    Write,
    /// The entry's name could lead out of the destination directory: the
    /// extraction fails here.
    Reject,
}

/// What happens to an entry with the given name.
pub open spec fn spec_disposition(name: Seq<char>) -> EntryDisposition {
    if is_reserved_name(name) {
        EntryDisposition::Skip
    } else if escapes_destination(name) {
        EntryDisposition::Reject
    } else {
        EntryDisposition::Write
    }
}

fn is_separator_char(c: char) -> (r: bool)
    ensures
        r == is_separator(c),
{
    c == '/' || c == '\\'
}

fn is_ascii_letter_char(c: char) -> (r: bool)
    ensures
        r == is_ascii_letter(c),
{
    let code = c as u32;
    (0x41 <= code && code <= 0x5a) || (0x61 <= code && code <= 0x7a)
}

fn parent_component_at(name: &Vec<char>, at: usize) -> (r: bool)
    requires
        at < name@.len(),
    ensures
        r == is_parent_at(name@, at as int),
{
    if name.len() - at < 2 {
        return false;
    }
    if name[at] != '.' || name[at + 1] != '.' {
        return false;
    }
    if at > 0 && !is_separator_char(name[at - 1]) {
        return false;
    }
    if name.len() - at > 2 && !is_separator_char(name[at + 2]) {
        return false;
    }
    true
}

fn contains_parent_component(name: &Vec<char>) -> (r: bool)
    ensures
        r == has_parent_component(name@),
{
    let mut at: usize = 0;
    while at < name.len()
        invariant
            at <= name@.len(),
            forall|k: int| 0 <= k < at ==> !is_parent_at(name@, k),
        decreases name@.len() - at,
    {
        if parent_component_at(name, at) {
            return true;
        }
        at += 1;
    }
    false
}

/// Decides what happens to the entry with the given name.
pub fn classify_entry(name: &str) -> (disposition: EntryDisposition)
    ensures
        disposition == spec_disposition(name@),
{
    let chars = chars_of(name);
    let reserved = chars_of(RESERVED_PREFIX);
    if starts_with(&chars, &reserved) {
        return EntryDisposition::Skip;
    }
    if chars.len() > 0 && is_separator_char(chars[0]) {
        return EntryDisposition::Reject;
    }
    if chars.len() >= 2 && is_ascii_letter_char(chars[0]) && chars[1] == ':' {
        return EntryDisposition::Reject;
    }
    if contains_parent_component(&chars) {
        return EntryDisposition::Reject;
    }
    EntryDisposition::Write
}

/// Where an entry is written: below the destination directory, under its
/// own name.
pub fn entry_target(destination_dir: &str, name: &str) -> (path: String)
    ensures
        path@ == spec_join(destination_dir@, name@),
{
    join(destination_dir, name)
}

/// The error an extraction fails with at an entry that is refused.
pub fn rejection_error(name: &str) -> (error: ProtonError)
    ensures
        error@ == ProtonErrorView::Other(
            "Zip extraction error: "@ + ("entry escapes the destination directory: "@ + name@),
        ),
{
    let detail = concat("entry escapes the destination directory: ", name);
    ProtonError::from_archive_failure(detail.as_str())
}

/// What an extraction does with an archive: the entries it writes, in the
/// order it writes them, and the entry it then fails at, if any.
#[derive(Debug)]
pub struct ExtractionPlan {
    /// The positions of the entries to unpack, ascending.
    pub writes: Vec<usize>,
    /// The position of the first refused entry.
    pub rejected: Option<usize>,
}

/// Whether `rejected` is the first position of `names` that is refused, or
/// `None` and no position is.
pub open spec fn is_first_rejected(names: Seq<Seq<char>>, rejected: Option<usize>) -> bool {
    match rejected {
        Some(r) => {
            &&& r < names.len()
            &&& spec_disposition(names[r as int]) == EntryDisposition::Reject
            &&& forall|i: int|
                0 <= i < r ==> spec_disposition(#[trigger] names[i]) != EntryDisposition::Reject
        },
        None => forall|i: int|
            0 <= i < names.len() ==> spec_disposition(#[trigger] names[i])
                != EntryDisposition::Reject,
    }
}

/// How many entries an extraction gets to: all of them, or those before the
/// first refused one.
pub open spec fn reach(names: Seq<Seq<char>>, rejected: Option<usize>) -> int {
    match rejected {
        Some(r) => r as int,
        None => names.len() as int,
    }
}

/// Whether `writes` lists, in ascending order and each once, exactly the
/// positions below `limit` whose entries are unpacked.
pub open spec fn lists_writes(names: Seq<Seq<char>>, limit: int, writes: Seq<usize>) -> bool {
    &&& forall|k: int|
        0 <= k < writes.len() ==> 0 <= (#[trigger] writes[k]) < limit && spec_disposition(
            names[writes[k] as int],
        ) == EntryDisposition::Write
    &&& forall|j: int, k: int| 0 <= j < k < writes.len() ==> writes[j] < writes[k]
    &&& forall|i: int|
        0 <= i < limit && spec_disposition(#[trigger] names[i]) == EntryDisposition::Write
            ==> writes.contains(i as usize)
}

/// The names of the entries of an archive, as sequences of characters.
pub open spec fn names_view(names: Seq<String>) -> Seq<Seq<char>> {
    Seq::new(names.len(), |i: int| names[i]@)
}

/// Plans the extraction of an archive from the names of its entries, in the
/// order the archive stores them. Entries are unpacked in that order up to
/// the first one that is refused; metadata entries are passed over.
pub fn plan_extraction(names: &Vec<String>) -> (plan: ExtractionPlan)
    ensures
        is_first_rejected(names_view(names@), plan.rejected),
        lists_writes(names_view(names@), reach(names_view(names@), plan.rejected), plan.writes@),
{
    let ghost all = names_view(names@);
    let mut writes: Vec<usize> = Vec::new();
    let mut i: usize = 0;
    while i < names.len()
        invariant
            i <= names@.len(),
            all == names_view(names@),
            forall|k: int|
                0 <= k < i ==> spec_disposition(#[trigger] all[k]) != EntryDisposition::Reject,
            lists_writes(all, i as int, writes@),
        decreases names@.len() - i,
    {
        match classify_entry(names[i].as_str()) {
            EntryDisposition::Reject => {
                return ExtractionPlan { writes, rejected: Some(i) };
            },
            EntryDisposition::Write => {
                let ghost before = writes@;
                writes.push(i);
                proof {
                    assert forall|k: int| 0 <= k < i + 1 && spec_disposition(#[trigger] all[k])
                        == EntryDisposition::Write implies writes@.contains(k as usize) by {
                        if k < i {
                            let at = choose|at: int| 0 <= at < before.len() && before[at] == k;
                            assert(writes@[at] == k);
                        } else {
                            assert(writes@[before.len() as int] == i);
                        }
                    }
                }
            },
            EntryDisposition::Skip => {},
        }
        i += 1;
    }
    ExtractionPlan { writes, rejected: None }
}

} // verus!
