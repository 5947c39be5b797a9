//! The build-dependency listing tool: its options, and its rules on a crate
//! manifest's dependencies and on which of them have build files.
use vstd::prelude::*;

verus! {

/// What the tool is asked to list: the dependencies of the crate at
/// `crate_path` that have build files, for a release or debug build for
/// `target_cpu`.
pub struct Opts {
    pub release_os: bool,
    pub target_cpu: String,
    pub device_name: Option<String>,
    pub crate_path: String,
}

/// What the dependencies entry of a manifest holds.
pub enum DepsValue {
    /// A table: each dependency's name, and whether its value is a plain
    /// version string.
    Table(Vec<(String, bool)>),
    /// Something other than a table.
    Other,
}

/// Why a manifest's dependencies cannot be listed.
#[derive(Debug)]
pub enum ManifestError {
    /// The manifest has no dependencies entry.
    NoDependencies,
    /// The dependencies entry is not a table.
    NotATable,
    /// This dependency is given by more than a version string.
    NonStringDependency(String),
}

/// The names of a sequence of table entries.
pub open spec fn entry_names(entries: Seq<(String, bool)>) -> Seq<Seq<char>> {
    entries.map_values(|e: (String, bool)| e.0@)
}

/// The views of a sequence of strings.
pub open spec fn string_views(v: Seq<String>) -> Seq<Seq<char>> {
    v.map_values(|s: String| s@)
}

/// Whether the first `n` entries are given by version strings.
pub open spec fn all_strings(entries: Seq<(String, bool)>, n: int) -> bool {
    forall|j: int| 0 <= j < n ==> #[trigger] entries[j].1
}

/// The names of the dependencies of a manifest whose dependencies entry is
/// `deps`, where each is given by a version string; else the first failure.
pub fn dependency_names(deps: &Option<DepsValue>) -> (r: Result<Vec<String>, ManifestError>)
    ensures
        deps is None <==> r matches Err(ManifestError::NoDependencies),
        deps matches Some(DepsValue::Other) <==> r matches Err(ManifestError::NotATable),
        deps matches Some(DepsValue::Table(e)) ==> {
            &&& all_strings(e@, e@.len() as int) ==> (r matches Ok(names) && string_views(names@)
                == entry_names(e@))
            &&& !all_strings(e@, e@.len() as int) ==> (r matches Err(
                ManifestError::NonStringDependency(n),
            ) && exists|k: int|
                0 <= k < e@.len() && !(#[trigger] e@[k]).1 && n@ == e@[k].0@ && all_strings(e@, k))
        },
{
    match deps {
        None => Err(ManifestError::NoDependencies),
        Some(DepsValue::Other) => Err(ManifestError::NotATable),
        Some(DepsValue::Table(entries)) => {
            let mut names: Vec<String> = Vec::new();
            let mut i: usize = 0;
            while i < entries.len()
                invariant
                    *deps == Some(DepsValue::Table(*entries)),
                    i <= entries@.len(),
                    all_strings(entries@, i as int),
                    string_views(names@) == entry_names(entries@.subrange(0, i as int)),
                decreases entries@.len() - i,
            {
                let name = entries[i].0.clone();
                if !entries[i].1 {
                    assert(!entries@[i as int].1);
                    assert(all_strings(entries@, i as int));
                    return Err(ManifestError::NonStringDependency(name));
                }
                proof {
                    let before = entries@.subrange(0, i as int);
                    let after = entries@.subrange(0, i + 1);
                    assert(after =~= before.push(entries@[i as int]));
                    assert(entry_names(after) =~= entry_names(before).push(name@));
                    assert(string_views(names@.push(name)) =~= string_views(names@).push(name@));
                }
                names.push(name);
                i = i + 1;
            }
            assert(entries@.subrange(0, i as int) =~= entries@);
            Ok(names)
        },
    }
}

/// The path of the first crate named `name`, if there is one.
pub open spec fn path_of(crates: Seq<(String, String)>, name: Seq<char>) -> Option<Seq<char>>
    decreases crates.len(),
{
    if crates.len() == 0 {
        None
    } else if crates[0].0@ == name {
        Some(crates[0].1@)
    } else {
        path_of(crates.drop_first(), name)
    }
}

/// The paths of those of `names` that name a crate of `crates`, in the order
/// of `names`.
pub open spec fn paths_of(names: Seq<String>, crates: Seq<(String, String)>) -> Seq<Seq<char>>
    decreases names.len(),
{
    if names.len() == 0 {
        Seq::empty()
    } else {
        let rest = paths_of(names.drop_last(), crates);
        match path_of(crates, names.last()@) {
            Some(p) => rest.push(p),
            None => rest,
        }
    }
}

fn lookup_path(crates: &Vec<(String, String)>, name: &String) -> (r: Option<String>)
    ensures
        r is None <==> path_of(crates@, name@) is None,
        r matches Some(p) ==> path_of(crates@, name@) == Some(p@),
{
    let mut j: usize = 0;
    assert(crates@.subrange(0, crates@.len() as int) =~= crates@);
    while j < crates.len()
        invariant
            j <= crates@.len(),
            path_of(crates@, name@) == path_of(crates@.subrange(j as int, crates@.len() as int), name@),
        decreases crates@.len() - j,
    {
        let ghost rest = crates@.subrange(j as int, crates@.len() as int);
        assert(rest[0] == crates@[j as int]);
        if crates[j].0 == *name {
            return Some(crates[j].1.clone());
        }
        assert(rest.drop_first() =~= crates@.subrange(j + 1, crates@.len() as int));
        j = j + 1;
    }
    None
}

/// The build-file paths of the dependencies named `dep_names`, where
/// `crates_with_build_files` gives the path of each crate that has build files.
pub fn build_file_paths(dep_names: &Vec<String>, crates_with_build_files: &Vec<(String, String)>) -> (r:
    Vec<String>)
    ensures
        string_views(r@) == paths_of(dep_names@, crates_with_build_files@),
{
    let mut out: Vec<String> = Vec::new();
    let mut i: usize = 0;
    while i < dep_names.len()
        invariant
            i <= dep_names@.len(),
            string_views(out@) == paths_of(dep_names@.subrange(0, i as int), crates_with_build_files@),
        decreases dep_names@.len() - i,
    {
        let found = lookup_path(crates_with_build_files, &dep_names[i]);
        let ghost before = out@;
        proof {
            let upto = dep_names@.subrange(0, i + 1);
            assert(upto.drop_last() =~= dep_names@.subrange(0, i as int));
            assert(upto.last() == dep_names@[i as int]);
        }
        match found {
            Some(p) => {
                out.push(p);
                assert(string_views(out@) =~= string_views(before).push(out@.last()@));
            },
            None => {},
        }
        i = i + 1;
    }
    assert(dep_names@.subrange(0, i as int) =~= dep_names@);
    out
}

} // verus!
