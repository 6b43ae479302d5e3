//! Properties of a whole run, proved from the contracts of the planner.

use vstd::prelude::*;
use crate::manifest::{ManifestDependencies, group_names};
use crate::filter::{is_typed, install_names};
use crate::plan::{ManifestError, Outcome, planned};

verus! {

/// How many names of a sequence lie outside the type-declaration namespace.
pub open spec fn count_untyped(names: Seq<Seq<char>>) -> nat
    decreases names.len(),
{
    if names.len() == 0 {
        0
    } else {
        count_untyped(names.drop_last()) + if is_typed(names.last()) {
            0nat
        } else {
            1nat
        }
    }
}

/// The install list has one entry per name outside the namespace.
pub proof fn lemma_install_names_len(names: Seq<Seq<char>>)
    ensures
        install_names(names).len() == count_untyped(names),
    decreases names.len(),
{
    reveal(Seq::filter);
    if names.len() > 0 {
        lemma_install_names_len(names.drop_last());
    }
}

/// Counting names outside the namespace adds up over concatenation.
pub proof fn lemma_count_untyped_add(a: Seq<Seq<char>>, b: Seq<Seq<char>>)
    ensures
        count_untyped(a + b) == count_untyped(a) + count_untyped(b),
    decreases b.len(),
{
    if b.len() == 0 {
        assert(a + b =~= a);
    } else {
        assert((a + b).drop_last() =~= a + b.drop_last());
        assert((a + b).last() == b.last());
        lemma_count_untyped_add(a, b.drop_last());
    }
}

/// No name of a sequence lying outside the namespace means none to count.
pub proof fn lemma_count_untyped_all_typed(names: Seq<Seq<char>>)
    requires
        forall|i: int| 0 <= i < names.len() ==> is_typed(#[trigger] names[i]),
    ensures
        count_untyped(names) == 0,
    decreases names.len(),
{
    if names.len() > 0 {
        lemma_count_untyped_all_typed(names.drop_last());
    }
}

/// For a well-formed manifest whose two groups share no package name, the
/// number of packages a run installs is the number of runtime dependencies
/// outside the type-declaration namespace plus the number of such
/// development dependencies.
pub proof fn law_install_count(m: ManifestDependencies, r: Outcome)
    requires
        m.wf(),
        forall|n: Seq<char>|
            #![trigger group_names(m.dependencies).contains(n), group_names(m.dev_dependencies).contains(n)]
            group_names(m.dependencies).contains(n) ==> !group_names(m.dev_dependencies).contains(n),
        planned(Ok(m), r),
    ensures
        r.installs().len() == count_untyped(group_names(m.dependencies)) + count_untyped(
            group_names(m.dev_dependencies),
        ),
{
    lemma_install_names_len(m.collected());
    lemma_count_untyped_add(group_names(m.dependencies), group_names(m.dev_dependencies));
}

/// When every dependency name already lies in the type-declaration namespace,
/// a run installs nothing, reports that nothing is needed and ends successfully.
pub proof fn law_all_typed_installs_nothing(m: ManifestDependencies, r: Outcome)
    requires
        forall|i: int| 0 <= i < m.collected().len() ==> is_typed(#[trigger] m.collected()[i]),
        planned(Ok(m), r),
    ensures
        r is NothingToInstall,
        r.installs().len() == 0,
        r.exit_status() == 0,
{
    lemma_count_untyped_all_typed(m.collected());
    lemma_install_names_len(m.collected());
}

/// A manifest that cannot be read or parsed ends the run with a failing
/// status before any package is installed.
pub proof fn law_load_error_is_fatal(e: ManifestError, r: Outcome)
    requires
        planned(Err(e), r),
    ensures
        r is Fatal,
        r.exit_status() != 0,
        r.installs().len() == 0,
{
}

/// With both dependency groups empty or absent, a run installs nothing,
/// reports that nothing is needed and ends successfully.
pub proof fn law_no_dependencies_installs_nothing(m: ManifestDependencies, r: Outcome)
    requires
        m.dependencies is None || m.dependencies->Some_0@.len() == 0,
        m.dev_dependencies is None || m.dev_dependencies->Some_0@.len() == 0,
        planned(Ok(m), r),
    ensures
        r is NothingToInstall,
        r.installs().len() == 0,
        r.exit_status() == 0,
{
    assert(m.collected().len() == 0);
    lemma_install_names_len(m.collected());
}

} // verus!
