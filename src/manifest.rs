//! The two dependency groups of a manifest, and the collection of their names.

use vstd::prelude::*;

verus! {

/// The dependency groups read from a manifest: each is a list of
/// (package name, version specifier) pairs, or `None` where the manifest
/// declares no such group.
pub struct ManifestDependencies {
    pub dependencies: Option<Vec<(String, String)>>,
    pub dev_dependencies: Option<Vec<(String, String)>>,
}

/// The text of each string of a sequence.
pub open spec fn texts(v: Seq<String>) -> Seq<Seq<char>> {
    v.map_values(|s: String| s@)
}

/// The package names of a list of entries, in order.
pub open spec fn entry_names(entries: Seq<(String, String)>) -> Seq<Seq<char>> {
    entries.map_values(|e: (String, String)| e.0@)
}

/// The package names of a group; an absent group has none.
pub open spec fn group_names(group: Option<Vec<(String, String)>>) -> Seq<Seq<char>> {
    match group {
        Some(entries) => entry_names(entries@),
        None => Seq::empty(),
    }
}

/// No two entries of a group share a package name.
pub open spec fn names_unique(group: Option<Vec<(String, String)>>) -> bool {
    group_names(group).no_duplicates()
}

impl ManifestDependencies {
    /// Each group is a mapping: its package names are unique.
    pub open spec fn wf(&self) -> bool {
        names_unique(self.dependencies) && names_unique(self.dev_dependencies)
    }

    /// Every runtime dependency name followed by every development one.
    pub open spec fn collected(&self) -> Seq<Seq<char>> {
        group_names(self.dependencies) + group_names(self.dev_dependencies)
    }
}

/// The package names of one group, in the group's order.
pub fn unpack_deps(deps: &Option<Vec<(String, String)>>) -> (r: Vec<String>)
    ensures
        texts(r@) == group_names(*deps),
{
    let mut names: Vec<String> = Vec::new();
    match deps {
        Some(entries) => {
            let mut i: usize = 0;
            while i < entries.len()
                invariant
                    i <= entries@.len(),
                    names@.len() == i,
                    texts(names@) == entry_names(entries@.take(i as int)),
                decreases entries@.len() - i,
            {
                let ghost before = names@;
                let name = entries[i].0.clone();
                names.push(name);
                proof {
                    let done = entries@.take(i + 1);
                    assert(done =~= entries@.take(i as int).push(entries@[i as int]));
                    assert forall|j: int| 0 <= j < done.len() implies texts(names@)[j]
                        == entry_names(done)[j] by {
                        if j < i {
                            assert(names@[j] == before[j]);
                            assert(texts(before)[j] == entry_names(entries@.take(i as int))[j]);
                        }
                    }
                    assert(texts(names@) =~= entry_names(done));
                }
                i = i + 1;
            }
            assert(entries@.take(entries@.len() as int) == entries@);
        },
        None => {
            assert(texts(names@) =~= Seq::<Seq<char>>::empty());
        },
    }
    names
}

/// All dependency names of a manifest: those of the runtime group followed
/// by those of the development group. A name in both groups appears twice.
pub fn collect_deps(deps: &ManifestDependencies) -> (r: Vec<String>)
    ensures
        texts(r@) == deps.collected(),
{
    let mut collected = unpack_deps(&deps.dependencies);
    let mut dev = unpack_deps(&deps.dev_dependencies);
    let ghost first = collected@;
    let ghost second = dev@;
    collected.append(&mut dev);
    assert(texts(collected@) =~= texts(first) + texts(second));
    collected
}

} // verus!
