//! What goes into a workspace besides the base tree: the add-on packages
//! that are selected, and the files that are injected.

use crate::error::{ProvisioningError, ProvisioningFailure};
use crate::text::clone_path;
use crate::effect::{lemma_copy_twice_is_copy_once, tree_after, Node};
use crate::tree::{copy_dir_contents, copy_plan, CopyStep, Entry, Step, TreeEntry};
use vstd::prelude::*;

verus! {

/// One add-on package of the simulator, at one version.
#[derive(Debug)]
pub struct PackageSelection {
    pub number: u64,
    pub version: String,
}

/// Settles the version of an add-on package: the pinned version if there is
/// one, else the latest that is installed.
pub fn resolve_package(number: u64, pinned: Option<String>, latest_installed: Option<String>) -> (r:
    Result<PackageSelection, ProvisioningError>)
    ensures
        match r {
            Ok(selection) => selection.number == number && (match pinned {
                Some(version) => selection.version == version,
                None => latest_installed == Some(selection.version),
            }),
            Err(e) => pinned is None && latest_installed is None && e@
                == (ProvisioningFailure::PackageNotFound { number }),
        },
{
    match pinned {
        Some(version) => Ok(PackageSelection { number, version }),
        None => match latest_installed {
            Some(version) => Ok(PackageSelection { number, version }),
            None => Err(ProvisioningError::PackageNotFound { number }),
        },
    }
}

/// A file to inject: where it is, and where it goes, as a path inside the
/// workspace.
#[derive(Debug)]
pub struct FileMapping {
    pub source: Vec<String>,
    pub destination: Vec<String>,
}

/// A [`FileMapping`] with its paths as sequences of components.
pub struct Mapping {
    pub source: Seq<Seq<char>>,
    pub destination: Seq<Seq<char>>,
}

impl DeepView for FileMapping {
    type V = Mapping;

    open spec fn deep_view(&self) -> Mapping {
        Mapping { source: self.source.deep_view(), destination: self.destination.deep_view() }
    }
}

/// The directory that holds the destination of a mapping.
pub open spec fn landing_directory(workspace: Seq<Seq<char>>, mapping: Mapping) -> Seq<Seq<char>> {
    if mapping.destination.len() == 0 {
        workspace
    } else {
        workspace + mapping.destination.drop_last()
    }
}

/// The steps that inject files into a workspace, in the order of the
/// mappings: for each, its directory is made sure of, then the file is
/// copied.
pub open spec fn injection_plan(workspace: Seq<Seq<char>>, files: Seq<Mapping>) -> Seq<Step>
    decreases files.len(),
{
    if files.len() == 0 {
        Seq::empty()
    } else {
        injection_plan(workspace, files.drop_last()).push(
            Step::CreateDirectory { destination: landing_directory(workspace, files.last()) },
        ).push(
            Step::CopyFile {
                source: files.last().source,
                destination: workspace + files.last().destination,
            },
        )
    }
}

/// `base` followed by `tail`.
fn joined(base: &Vec<String>, tail: &Vec<String>, upto: usize) -> (r: Vec<String>)
    requires
        upto <= tail.len(),
    ensures
        r.deep_view() == base.deep_view() + tail.deep_view().take(upto as int),
{
    let mut r = clone_path(base);
    assert(r@.len() == r.deep_view().len());
    assert forall|j: int| 0 <= j < base.len() implies r@[j]@ == base@[j]@ by {
        assert(r.deep_view()[j] == base.deep_view()[j]);
    }
    let mut i: usize = 0;
    while i < upto
        invariant
            i <= upto <= tail.len(),
            r@.len() == base.len() + i,
            forall|j: int| 0 <= j < base.len() ==> r@[j]@ == base@[j]@,
            forall|j: int| base.len() <= j < r@.len() ==> r@[j]@ == tail@[j - base.len()]@,
        decreases upto - i,
    {
        r.push(tail[i].clone());
        i += 1;
    }
    assert(r.deep_view() =~= base.deep_view() + tail.deep_view().take(upto as int));
    r
}

/// Plans the assembly of a workspace: the base tree is copied into it, then
/// the files are injected, in the order given.
///
/// `base_entries` is what a walk of `base_dir` found, and `base_is_directory`
/// says whether `base_dir` is a directory at all.
pub fn provisioning_plan(
    base_dir: &Vec<String>,
    workspace_dir: &Vec<String>,
    base_is_directory: bool,
    base_entries: &Vec<TreeEntry>,
    files: &Vec<FileMapping>,
) -> (r: Result<Vec<CopyStep>, ProvisioningError>)
    ensures
        match r {
            Ok(plan) => base_is_directory && plan.deep_view() == copy_plan(
                base_dir.deep_view(),
                workspace_dir.deep_view(),
                base_entries.deep_view(),
            ) + injection_plan(workspace_dir.deep_view(), files.deep_view()),
            Err(e) => !base_is_directory && e@ == ProvisioningFailure::SourceNotADirectory,
        },
{
    let mut plan = match copy_dir_contents(
        base_dir,
        workspace_dir,
        base_is_directory,
        base_entries,
    ) {
        Ok(plan) => plan,
        Err(e) => {
            return Err(e);
        },
    };
    let ghost copied = plan.deep_view();
    let ghost workspace = workspace_dir.deep_view();
    assert(injection_plan(workspace, files.deep_view().take(0)) =~= Seq::<Step>::empty());
    assert(plan.deep_view() =~= copied + injection_plan(workspace, files.deep_view().take(0)));
    let mut i: usize = 0;
    while i < files.len()
        invariant
            i <= files.len(),
            workspace == workspace_dir.deep_view(),
            plan.deep_view() == copied + injection_plan(workspace, files.deep_view().take(i as int)),
        decreases files.len() - i,
    {
        let mapping = &files[i];
        proof {
            let upto = files.deep_view().take(i + 1);
            assert(upto.drop_last() =~= files.deep_view().take(i as int));
            assert(upto.last() == mapping.deep_view());
        }
        let ghost before = plan.deep_view();
        let parent_len = if mapping.destination.len() == 0 {
            0
        } else {
            mapping.destination.len() - 1
        };
        let directory = joined(workspace_dir, &mapping.destination, parent_len);
        let destination = joined(workspace_dir, &mapping.destination, mapping.destination.len());
        let source = clone_path(&mapping.source);
        proof {
            let to = mapping.deep_view().destination;
            assert(to.take(to.len() as int) =~= to);
            if to.len() == 0 {
                assert(workspace + to.take(0) =~= workspace);
            } else {
                assert(to.take(to.len() - 1) =~= to.drop_last());
            }
        }
        plan.push(CopyStep::CreateDirectory { destination: directory });
        let ghost made = plan@.last().deep_view();
        assert(plan.deep_view() =~= before.push(made));
        plan.push(CopyStep::CopyFile { source, destination });
        let ghost copy = plan@.last().deep_view();
        assert(plan.deep_view() =~= before.push(made).push(copy));
        assert(plan.deep_view() =~= copied + injection_plan(
            workspace,
            files.deep_view().take(i + 1),
        ));
        i += 1;
    }
    assert(files.deep_view().take(files.len() as int) =~= files.deep_view());
    Ok(plan)
}

/// Provisioning a workspace a second time, from the same base tree and with
/// the same files, leaves it as the first time left it, path by path and
/// byte by byte.
pub proof fn lemma_provisioning_twice_is_provisioning_once(
    source: Map<Seq<Seq<char>>, Node>,
    base_dir: Seq<Seq<char>>,
    workspace_dir: Seq<Seq<char>>,
    base_entries: Seq<Entry>,
    files: Seq<Mapping>,
    destination: Map<Seq<Seq<char>>, Node>,
)
    ensures
        ({
            let plan = copy_plan(base_dir, workspace_dir, base_entries) + injection_plan(
                workspace_dir,
                files,
            );
            tree_after(source, plan, tree_after(source, plan, destination)) == tree_after(
                source,
                plan,
                destination,
            )
        }),
{
    lemma_copy_twice_is_copy_once(
        source,
        copy_plan(base_dir, workspace_dir, base_entries) + injection_plan(workspace_dir, files),
        destination,
    );
}

} // verus!
