//! Directory trees: what to copy where, and which file a pattern finds.
//!
//! A path is the sequence of its components. The caller walks the tree and
//! hands the entries in, in the order of the walk; the plan that comes back is
//! carried out by the caller, step by step.

use crate::error::{ProvisioningError, ProvisioningFailure};
use crate::pattern::{pattern_compiles, pattern_matches, NamePattern};
use crate::text::{clone_path, is_path_prefix, starts_with_path};
use vstd::prelude::*;

verus! {

/// What kind of thing a walk found at a path.
#[derive(Debug, Clone, Copy, PartialEq, Eq, Structural, Hash)]
pub enum EntryKind {
    Directory,
    File,
    /// Neither of the two: a dangling link, a socket, a device.
    Other,
}

/// One thing that a walk of a tree came across.
#[derive(Debug)]
pub struct TreeEntry {
    pub path: Vec<String>,
    pub kind: EntryKind,
}

/// A [`TreeEntry`] with its path as a sequence of components.
pub struct Entry {
    pub path: Seq<Seq<char>>,
    pub kind: EntryKind,
}

impl DeepView for TreeEntry {
    type V = Entry;

    open spec fn deep_view(&self) -> Entry {
        Entry { path: self.path.deep_view(), kind: self.kind }
    }
}

/// One action on the file system that a copy asks for. No other action is
/// ever asked for: nothing is removed, renamed or emptied.
#[derive(Debug)]
pub enum CopyStep {
    /// Make sure that a directory exists at `destination`, creating it and its
    /// missing ancestors.
    CreateDirectory { destination: Vec<String> },
    /// Write the content of the file at `source` to `destination`, over
    /// whatever file is there.
    CopyFile { source: Vec<String>, destination: Vec<String> },
}

/// A [`CopyStep`] with its paths as sequences of components.
pub enum Step {
    CreateDirectory { destination: Seq<Seq<char>> },
    CopyFile { source: Seq<Seq<char>>, destination: Seq<Seq<char>> },
}

impl DeepView for CopyStep {
    type V = Step;

    open spec fn deep_view(&self) -> Step {
        match self {
            CopyStep::CreateDirectory { destination } => Step::CreateDirectory {
                destination: destination.deep_view(),
            },
            CopyStep::CopyFile { source, destination } => Step::CopyFile {
                source: source.deep_view(),
                destination: destination.deep_view(),
            },
        }
    }
}

/// Where an entry of the source tree lands: its path with the source
/// directory taken off the front and the destination directory put there.
pub open spec fn relocated(
    source_dir: Seq<Seq<char>>,
    dest_dir: Seq<Seq<char>>,
    path: Seq<Seq<char>>,
) -> Seq<Seq<char>> {
    dest_dir + path.skip(source_dir.len() as int)
}

/// What one entry of the walk asks for: a directory is created, a file is
/// copied, and anything else, or anything outside the source directory, is
/// passed over.
pub open spec fn step_for(source_dir: Seq<Seq<char>>, dest_dir: Seq<Seq<char>>, entry: Entry)
    -> Option<Step> {
    if !is_path_prefix(source_dir, entry.path) {
        None
    } else {
        match entry.kind {
            EntryKind::Directory => Some(
                Step::CreateDirectory { destination: relocated(source_dir, dest_dir, entry.path) },
            ),
            EntryKind::File => Some(
                Step::CopyFile {
                    source: entry.path,
                    destination: relocated(source_dir, dest_dir, entry.path),
                },
            ),
            EntryKind::Other => None,
        }
    }
}

/// The steps that copy a walked tree, in the order of the walk.
pub open spec fn copy_plan(
    source_dir: Seq<Seq<char>>,
    dest_dir: Seq<Seq<char>>,
    entries: Seq<Entry>,
) -> Seq<Step>
    decreases entries.len(),
{
    if entries.len() == 0 {
        Seq::empty()
    } else {
        let before = copy_plan(source_dir, dest_dir, entries.drop_last());
        match step_for(source_dir, dest_dir, entries.last()) {
            Some(step) => before.push(step),
            None => before,
        }
    }
}

/// The destination of an entry that lies below the source directory.
fn relocate(src_dir: &Vec<String>, dst_dir: &Vec<String>, path: &Vec<String>) -> (r: Vec<String>)
    requires
        is_path_prefix(src_dir.deep_view(), path.deep_view()),
    ensures
        r.deep_view() == relocated(src_dir.deep_view(), dst_dir.deep_view(), path.deep_view()),
{
    let mut r = clone_path(dst_dir);
    assert(r@.len() == r.deep_view().len());
    assert forall|j: int| 0 <= j < dst_dir.len() implies r@[j]@ == dst_dir@[j]@ by {
        assert(r.deep_view()[j] == dst_dir.deep_view()[j]);
    }
    let mut i: usize = src_dir.len();
    while i < path.len()
        invariant
            src_dir.len() <= i <= path.len(),
            r@.len() == dst_dir.len() + (i - src_dir.len()),
            forall|j: int| 0 <= j < dst_dir.len() ==> r@[j]@ == dst_dir@[j]@,
            forall|j: int|
                dst_dir.len() <= j < r@.len() ==> r@[j]@ == path@[j - dst_dir.len()
                    + src_dir.len()]@,
        decreases path.len() - i,
    {
        r.push(path[i].clone());
        i += 1;
    }
    assert(r.deep_view() =~= relocated(
        src_dir.deep_view(),
        dst_dir.deep_view(),
        path.deep_view(),
    ));
    r
}

/// Plans the copy of the contents of one directory into another.
///
/// `entries` is what a walk of `src_dir` found, the directory itself included,
/// and `source_is_directory` says whether `src_dir` is a directory at all. Each
/// directory of the walk is created at the destination if it is missing, and
/// each file is copied over whatever file is there; a directory that exists at
/// the destination is never replaced.
pub fn copy_dir_contents(
    src_dir: &Vec<String>,
    dst_dir: &Vec<String>,
    source_is_directory: bool,
    entries: &Vec<TreeEntry>,
) -> (r: Result<Vec<CopyStep>, ProvisioningError>)
    ensures
        match r {
            Ok(plan) => source_is_directory && plan.deep_view() == copy_plan(
                src_dir.deep_view(),
                dst_dir.deep_view(),
                entries.deep_view(),
            ),
            Err(e) => !source_is_directory && e@ == ProvisioningFailure::SourceNotADirectory,
        },
{
    if !source_is_directory {
        return Err(ProvisioningError::SourceNotADirectory);
    }
    let mut plan: Vec<CopyStep> = Vec::new();
    let mut i: usize = 0;
    while i < entries.len()
        invariant
            i <= entries.len(),
            plan.deep_view() == copy_plan(
                src_dir.deep_view(),
                dst_dir.deep_view(),
                entries.deep_view().take(i as int),
            ),
        decreases entries.len() - i,
    {
        let entry = &entries[i];
        proof {
            let upto = entries.deep_view().take(i + 1);
            assert(upto.drop_last() =~= entries.deep_view().take(i as int));
            assert(upto.last() == entry.deep_view());
        }
        let ghost before = plan.deep_view();
        if starts_with_path(&entry.path, src_dir) {
            match entry.kind {
                EntryKind::Directory => {
                    let destination = relocate(src_dir, dst_dir, &entry.path);
                    plan.push(CopyStep::CreateDirectory { destination });
                    assert(plan.deep_view() =~= before.push(plan@.last().deep_view()));
                },
                EntryKind::File => {
                    let destination = relocate(src_dir, dst_dir, &entry.path);
                    let source = clone_path(&entry.path);
                    plan.push(CopyStep::CopyFile { source, destination });
                    assert(plan.deep_view() =~= before.push(plan@.last().deep_view()));
                },
                EntryKind::Other => {},
            }
        }
        i += 1;
    }
    assert(entries.deep_view().take(entries.len() as int) =~= entries.deep_view());
    Ok(plan)
}

/// Says how a copy ended. `completed` is the number of steps of the plan that
/// were carried out before one failed, or the length of the plan if none did.
/// A copy that stopped early has left the destination incomplete.
pub fn conclude_copy(plan: &Vec<CopyStep>, completed: usize) -> (r: Result<(), ProvisioningError>)
    ensures
        match r {
            Ok(_) => completed >= plan.len(),
            Err(e) => completed < plan.len() && e@ == (ProvisioningFailure::CopyFailed {
                step: completed,
            }),
        },
{
    if completed >= plan.len() {
        Ok(())
    } else {
        Err(ProvisioningError::CopyFailed { step: completed })
    }
}

/// Whether entry `i` is a file whose name was matched.
pub open spec fn is_hit(entries: Seq<Entry>, matched: Seq<bool>, i: int) -> bool {
    &&& 0 <= i < entries.len()
    &&& entries[i].kind == EntryKind::File
    &&& i < matched.len()
    &&& matched[i]
}

/// Whether entry `i` is the first file whose name was matched.
pub open spec fn is_first_hit(entries: Seq<Entry>, matched: Seq<bool>, i: int) -> bool {
    is_hit(entries, matched, i) && forall|j: int| 0 <= j < i ==> !is_hit(entries, matched, j)
}

/// The name of the thing at `path`: its last component. The empty path has none.
pub open spec fn file_name(path: Seq<Seq<char>>) -> Option<Seq<char>> {
    if path.len() == 0 {
        None
    } else {
        Some(path.last())
    }
}

/// Whether the pattern matches the name of each entry, in the order of the
/// entries. An entry without a name is not matched.
pub open spec fn name_matches(pattern: Seq<char>, entries: Seq<Entry>) -> Seq<bool> {
    Seq::new(
        entries.len(),
        |i: int|
            match file_name(entries[i].path) {
                Some(name) => pattern_matches(pattern, name),
                None => false,
            },
    )
}

/// Picks the first file, in the order of the walk, whose name was matched.
///
/// `matched` says of each entry whether the pattern matches its name; an
/// entry for which it says nothing counts as not matched.
pub fn select_file(
    simics_base_dir: &Vec<String>,
    file_name_pattern: &str,
    entries: &Vec<TreeEntry>,
    matched: &Vec<bool>,
) -> (r: Result<Vec<String>, ProvisioningError>)
    ensures
        match r {
            Ok(path) => exists|i: int|
                #[trigger] is_first_hit(entries.deep_view(), matched@, i) && path.deep_view()
                    == entries.deep_view()[i].path,
            Err(e) => (forall|i: int| !is_hit(entries.deep_view(), matched@, i)) && e@
                == (ProvisioningFailure::FileNotFound {
                pattern: file_name_pattern@,
                base: simics_base_dir.deep_view(),
            }),
        },
{
    let mut i: usize = 0;
    while i < entries.len()
        invariant
            i <= entries.len(),
            forall|j: int| 0 <= j < i ==> !is_hit(entries.deep_view(), matched@, j),
        decreases entries.len() - i,
    {
        if entries[i].kind == EntryKind::File && i < matched.len() && matched[i] {
            let path = clone_path(&entries[i].path);
            assert(is_first_hit(entries.deep_view(), matched@, i as int));
            return Ok(path);
        }
        i += 1;
    }
    Err(
        ProvisioningError::FileNotFound {
            pattern: file_name_pattern.to_owned(),
            base: clone_path(simics_base_dir),
        },
    )
}

/// Finds a file below the base directory by a pattern on its name.
///
/// The pattern is a regular expression and is held against the last component
/// of each path, never against the whole path. Of several files that match,
/// the one that the walk met first is returned.
pub fn find_file_in_simics_base(
    simics_base_dir: &Vec<String>,
    file_name_pattern: &str,
    entries: &Vec<TreeEntry>,
) -> (r: Result<Vec<String>, ProvisioningError>)
    ensures
        match r {
            Ok(path) => pattern_compiles(file_name_pattern@) && exists|i: int|
                #[trigger] is_first_hit(
                    entries.deep_view(),
                    name_matches(file_name_pattern@, entries.deep_view()),
                    i,
                ) && path.deep_view() == entries.deep_view()[i].path,
            Err(e) => if pattern_compiles(file_name_pattern@) {
                (forall|i: int|
                    !is_hit(
                        entries.deep_view(),
                        name_matches(file_name_pattern@, entries.deep_view()),
                        i,
                    )) && e@ == (ProvisioningFailure::FileNotFound {
                    pattern: file_name_pattern@,
                    base: simics_base_dir.deep_view(),
                })
            } else {
                e@ == (ProvisioningFailure::InvalidPattern { pattern: file_name_pattern@ })
            },
        },
{
    let pattern = match NamePattern::compile(file_name_pattern) {
        Ok(pattern) => pattern,
        Err(_) => {
            return Err(
                ProvisioningError::InvalidPattern { pattern: file_name_pattern.to_owned() },
            );
        },
    };
    let mut matched: Vec<bool> = Vec::new();
    let mut i: usize = 0;
    while i < entries.len()
        invariant
            i <= entries.len(),
            pattern.source() == file_name_pattern@,
            matched@ == name_matches(file_name_pattern@, entries.deep_view()).take(i as int),
        decreases entries.len() - i,
    {
        let path = &entries[i].path;
        let hit = if path.len() == 0 {
            false
        } else {
            pattern.is_match(path[path.len() - 1].as_str())
        };
        matched.push(hit);
        assert(matched@ =~= name_matches(file_name_pattern@, entries.deep_view()).take(i + 1));
        i += 1;
    }
    assert(matched@ =~= name_matches(file_name_pattern@, entries.deep_view()));
    select_file(simics_base_dir, file_name_pattern, entries, &matched)
}

/// Holds a found path against a second look at the file system: the path
/// stands only if a file is still there.
pub fn confirm_file(
    simics_base_dir: &Vec<String>,
    file_name_pattern: &str,
    found: Vec<String>,
    is_file: bool,
) -> (r: Result<Vec<String>, ProvisioningError>)
    ensures
        match r {
            Ok(path) => is_file && path == found,
            Err(e) => !is_file && e@ == (ProvisioningFailure::FileNotFound {
                pattern: file_name_pattern@,
                base: simics_base_dir.deep_view(),
            }),
        },
{
    if is_file {
        Ok(found)
    } else {
        Err(
            ProvisioningError::FileNotFound {
                pattern: file_name_pattern.to_owned(),
                base: clone_path(simics_base_dir),
            },
        )
    }
}

} // verus!
