//! Locating the compiled instrumentation module of a workspace component.
//!
//! The caller reads the workspace metadata and probes the file system; the
//! rules for what to look for, where, and in which order are decided here.

use crate::error::{ProvisioningError, ProvisioningFailure};
use crate::text::{clone_path, ends_with, replace_char, replaced, is_suffix, same_text};
use vstd::prelude::*;

verus! {

/// How a compiled module is linked: as a static archive or as a shared object.
#[derive(Debug, Clone, Copy, PartialEq, Eq, Structural, Hash)]
pub enum LibraryType {
    Static,
    Dynamic,
}

/// The build flavour whose output directory is searched.
#[derive(Debug, Clone, Copy, PartialEq, Eq, Structural, Hash)]
pub enum BuildProfile {
    Debug,
    Release,
}

/// One component that the workspace declares.
#[derive(Debug)]
pub struct Package {
    pub name: String,
    pub dependencies: Vec<String>,
    pub manifest_path: String,
}

/// A [`Package`] with its texts as sequences of characters.
pub struct PackageDescriptor {
    pub name: Seq<char>,
    pub dependencies: Seq<Seq<char>>,
    pub manifest_path: Seq<char>,
}

impl View for Package {
    type V = PackageDescriptor;

    open spec fn view(&self) -> PackageDescriptor {
        PackageDescriptor {
            name: self.name@,
            dependencies: self.dependencies.deep_view(),
            manifest_path: self.manifest_path@,
        }
    }
}

impl Clone for Package {
    fn clone(&self) -> (r: Self)
        ensures
            r@ == self@,
    {
        Package {
            name: self.name.clone(),
            dependencies: clone_path(&self.dependencies),
            manifest_path: self.manifest_path.clone(),
        }
    }
}

/// The names of the declared components, in the order of declaration.
pub open spec fn package_names(packages: Seq<Package>) -> Seq<Seq<char>> {
    Seq::new(packages.len(), |i: int| packages[i].name@)
}

/// Whether `i` is the position of the first component called `name`.
pub open spec fn is_first_named(names: Seq<Seq<char>>, name: Seq<char>, i: int) -> bool {
    &&& 0 <= i < names.len()
    &&& names[i] == name
    &&& forall|j: int| 0 <= j < i ==> names[j] != name
}

impl LibraryType {
    /// The file name suffix of a library of this kind.
    pub open spec fn spec_suffix(self) -> Seq<char> {
        match self {
            LibraryType::Static => seq!['.', 'a'],
            LibraryType::Dynamic => seq!['.', 's', 'o'],
        }
    }

    /// The kind of library that a file name announces, if any.
    pub open spec fn spec_from_str(name: Seq<char>) -> Option<LibraryType> {
        if is_suffix(LibraryType::Static.spec_suffix(), name) {
            Some(LibraryType::Static)
        } else if is_suffix(LibraryType::Dynamic.spec_suffix(), name) {
            Some(LibraryType::Dynamic)
        } else {
            None
        }
    }

    /// The file name suffix of a library of this kind, dot included.
    pub fn suffix(&self) -> (s: String)
        ensures
            s@ == self.spec_suffix(),
    {
        match self {
            LibraryType::Static => {
                proof {
                    reveal_strlit(".a");
                }
                assert(".a"@ =~= seq!['.', 'a']);
                ".a".to_owned()
            },
            LibraryType::Dynamic => {
                proof {
                    reveal_strlit(".so");
                }
                assert(".so"@ =~= seq!['.', 's', 'o']);
                ".so".to_owned()
            },
        }
    }

    /// Reads the kind of library off the end of a file name: `.a` is a static
    /// archive, `.so` a shared object, anything else is refused.
    pub fn from_str(s: &str) -> (r: Result<LibraryType, ProvisioningError>)
        ensures
            match r {
                Ok(kind) => LibraryType::spec_from_str(s@) == Some(kind),
                Err(e) => LibraryType::spec_from_str(s@) is None && e@
                    == (ProvisioningFailure::UnrecognizedExtension { name: s@ }),
            },
    {
        let a = LibraryType::Static.suffix();
        let so = LibraryType::Dynamic.suffix();
        if ends_with(s, a.as_str()) {
            Ok(LibraryType::Static)
        } else if ends_with(s, so.as_str()) {
            Ok(LibraryType::Dynamic)
        } else {
            Err(ProvisioningError::UnrecognizedExtension { name: s.to_owned() })
        }
    }
}

impl BuildProfile {
    /// The directory, below the target directory, that holds this flavour's output.
    pub open spec fn spec_directory(self) -> Seq<char> {
        match self {
            BuildProfile::Debug => seq!['d', 'e', 'b', 'u', 'g'],
            BuildProfile::Release => seq!['r', 'e', 'l', 'e', 'a', 's', 'e'],
        }
    }

    /// The directory, below the target directory, that holds this flavour's output.
    pub fn directory(&self) -> (s: String)
        ensures
            s@ == self.spec_directory(),
    {
        match self {
            BuildProfile::Debug => {
                proof {
                    reveal_strlit("debug");
                }
                assert("debug"@ =~= seq!['d', 'e', 'b', 'u', 'g']);
                "debug".to_owned()
            },
            BuildProfile::Release => {
                proof {
                    reveal_strlit("release");
                }
                assert("release"@ =~= seq!['r', 'e', 'l', 'e', 'a', 's', 'e']);
                "release".to_owned()
            },
        }
    }
}

/// The file that holds the library of a component: `lib`, the component's name
/// with every hyphen turned into an underscore, and the suffix of the kind.
pub open spec fn spec_library_file_name(component: Seq<char>, library_type: LibraryType) -> Seq<
    char,
> {
    seq!['l', 'i', 'b'] + replaced(component, '-', '_') + library_type.spec_suffix()
}

/// The places where the library of a component may lie, in the order in which
/// they are tried: the `deps` directory of the flavour first, the flavour's own
/// directory second.
pub open spec fn spec_library_candidates(
    target_directory: Seq<Seq<char>>,
    profile: BuildProfile,
    component: Seq<char>,
    library_type: LibraryType,
) -> Seq<Seq<Seq<char>>> {
    let file = spec_library_file_name(component, library_type);
    let flavour = target_directory.push(profile.spec_directory());
    seq![flavour.push(seq!['d', 'e', 'p', 's']).push(file), flavour.push(file)]
}

/// Whether the probe found a file at candidate `i`. A candidate that was not
/// probed counts as absent.
pub open spec fn is_present(present: Seq<bool>, i: int) -> bool {
    0 <= i < present.len() && present[i]
}

/// Whether `i` is the first candidate at which the probe found a file.
pub open spec fn is_first_present(present: Seq<bool>, count: int, i: int) -> bool {
    &&& 0 <= i < count
    &&& is_present(present, i)
    &&& forall|j: int| 0 <= j < i ==> !is_present(present, j)
}

/// The file name of a component's library.
pub fn library_file_name(component: &str, library_type: LibraryType) -> (name: String)
    ensures
        name@ == spec_library_file_name(component@, library_type),
{
    proof {
        reveal_strlit("lib");
    }
    assert("lib"@ =~= seq!['l', 'i', 'b']);
    let stem = replace_char(component, '-', '_');
    let suffix = library_type.suffix();
    let name = "lib".to_owned().concat(stem.as_str()).concat(suffix.as_str());
    name
}

/// Looks a component up among those that the workspace declares and returns
/// the first one of that name.
pub fn find_crate(crate_name: &str, packages: &Vec<Package>) -> (r: Result<
    Package,
    ProvisioningError,
>)
    ensures
        match r {
            Ok(package) => exists|i: int|
                #[trigger] is_first_named(package_names(packages@), crate_name@, i) && package@
                    == packages@[i]@,
            Err(e) => !package_names(packages@).contains(crate_name@) && e@
                == (ProvisioningFailure::ComponentUnknown { component: crate_name@ }),
        },
{
    let mut i: usize = 0;
    while i < packages.len()
        invariant
            i <= packages.len(),
            forall|j: int| 0 <= j < i ==> package_names(packages@)[j] != crate_name@,
        decreases packages.len() - i,
    {
        if same_text(packages[i].name.as_str(), crate_name) {
            assert(is_first_named(package_names(packages@), crate_name@, i as int));
            return Ok(packages[i].clone());
        }
        i += 1;
    }
    Err(ProvisioningError::ComponentUnknown { component: crate_name.to_owned() })
}

/// The places to probe for the library of a declared component, in order.
pub fn library_candidates(
    crate_name: &str,
    library_type: LibraryType,
    profile: BuildProfile,
    packages: &Vec<Package>,
    target_directory: &Vec<String>,
) -> (r: Result<Vec<Vec<String>>, ProvisioningError>)
    ensures
        match r {
            Ok(candidates) => package_names(packages@).contains(crate_name@)
                && candidates.deep_view() == spec_library_candidates(
                target_directory.deep_view(),
                profile,
                crate_name@,
                library_type,
            ),
            Err(e) => !package_names(packages@).contains(crate_name@) && e@
                == (ProvisioningFailure::ComponentUnknown { component: crate_name@ }),
        },
{
    let package = match find_crate(crate_name, packages) {
        Ok(package) => package,
        Err(e) => {
            return Err(e);
        },
    };
    let file = library_file_name(package.name.as_str(), library_type);
    let mut in_deps = clone_path(target_directory);
    in_deps.push(profile.directory());
    proof {
        reveal_strlit("deps");
    }
    assert("deps"@ =~= seq!['d', 'e', 'p', 's']);
    in_deps.push("deps".to_owned());
    in_deps.push(file.clone());
    let mut at_top = clone_path(target_directory);
    at_top.push(profile.directory());
    at_top.push(file);
    let mut candidates: Vec<Vec<String>> = Vec::new();
    candidates.push(in_deps);
    candidates.push(at_top);
    proof {
        let expected = spec_library_candidates(
            target_directory.deep_view(),
            profile,
            crate_name@,
            library_type,
        );
        assert(candidates@[0].deep_view() =~= expected[0]);
        assert(candidates@[1].deep_view() =~= expected[1]);
        assert(candidates.deep_view() =~= expected);
    }
    Ok(candidates)
}

/// Picks the library of a component: the first candidate, in the order of
/// [`spec_library_candidates`], at which the probe found a file.
///
/// `present` holds the outcome of probing each candidate, in the same order.
pub fn find_library(
    crate_name: &str,
    library_type: LibraryType,
    profile: BuildProfile,
    packages: &Vec<Package>,
    target_directory: &Vec<String>,
    present: &Vec<bool>,
) -> (r: Result<Vec<String>, ProvisioningError>)
    ensures
        match r {
            Ok(path) => package_names(packages@).contains(crate_name@) && exists|i: int|
                #[trigger] is_first_present(present@, 2, i) && path.deep_view()
                    == spec_library_candidates(
                    target_directory.deep_view(),
                    profile,
                    crate_name@,
                    library_type,
                )[i],
            Err(e) => if package_names(packages@).contains(crate_name@) {
                (forall|i: int| 0 <= i < 2 ==> !is_present(present@, i)) && e@
                    == (ProvisioningFailure::ArtifactNotFound { component: crate_name@ })
            } else {
                e@ == (ProvisioningFailure::ComponentUnknown { component: crate_name@ })
            },
        },
{
    let candidates = match library_candidates(
        crate_name,
        library_type,
        profile,
        packages,
        target_directory,
    ) {
        Ok(candidates) => candidates,
        Err(e) => {
            return Err(e);
        },
    };
    let ghost expected = spec_library_candidates(
        target_directory.deep_view(),
        profile,
        crate_name@,
        library_type,
    );
    assert(candidates.deep_view().len() == 2);
    let mut i: usize = 0;
    while i < candidates.len()
        invariant
            i <= candidates.len(),
            candidates.len() == 2,
            candidates.deep_view() == expected,
            expected == spec_library_candidates(
                target_directory.deep_view(),
                profile,
                crate_name@,
                library_type,
            ),
            package_names(packages@).contains(crate_name@),
            forall|j: int| 0 <= j < i ==> !is_present(present@, j),
        decreases candidates.len() - i,
    {
        if i < present.len() && present[i] {
            let path = clone_path(&candidates[i]);
            assert(is_first_present(present@, 2, i as int));
            assert(path.deep_view() == expected[i as int]);
            return Ok(path);
        }
        i += 1;
    }
    Err(ProvisioningError::ArtifactNotFound { component: crate_name.to_owned() })
}

} // verus!
