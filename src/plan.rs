//! What a run does with the manifest it loaded: stop on an error, report that
//! nothing is needed, or install a list of type-declaration packages.

use vstd::prelude::*;
use crate::manifest::{texts, ManifestDependencies, collect_deps};
use crate::filter::{install_names, install_list};

verus! {

/// Why the manifest could not be had.
pub enum ManifestError {
    /// The manifest file is absent or cannot be read.
    ManifestNotFound,
    /// The manifest text is not a well-formed document of the expected
    /// shape; holds the parser's diagnostic.
    ManifestParseError(String),
}

/// The course a run takes once the manifest has been loaded or has failed to load.
pub enum Outcome {
    /// The manifest could not be had: report the error and stop with a
    /// failing status, installing nothing.
    Fatal(ManifestError),
    /// No type-declaration package is needed: report so and stop successfully.
    NothingToInstall,
    /// Install each of these type-declaration packages.
    Install(Vec<String>),
}

impl Outcome {
    /// The packages this outcome installs, in order.
    pub open spec fn installs(&self) -> Seq<Seq<char>> {
        match self {
            Outcome::Install(list) => texts(list@),
            _ => Seq::empty(),
        }
    }

    /// The status the process ends with.
    pub open spec fn exit_status(&self) -> int {
        match self {
            Outcome::Fatal(_) => 1,
            _ => 0,
        }
    }

    /// The status the process ends with: failure only for a fatal error.
    pub fn exit_code(&self) -> (r: i32)
        ensures
            r == self.exit_status(),
    {
        match self {
            Outcome::Fatal(_) => 1,
            _ => 0,
        }
    }

    /// The package-manager commands this outcome runs: one for each package
    /// it installs, none for the other outcomes.
    pub fn invocations(&self) -> (r: Vec<Vec<String>>)
        ensures
            invocations_for(r@, self.installs()),
    {
        match self {
            Outcome::Install(list) => install_invocations(list),
            _ => {
                let r: Vec<Vec<String>> = Vec::new();
                r
            },
        }
    }
}

/// The outcome owed to a load result: an error is fatal; otherwise the
/// install list is derived from the collected names, and an empty one means
/// there is nothing to install.
pub open spec fn planned(loaded: Result<ManifestDependencies, ManifestError>, r: Outcome) -> bool {
    match loaded {
        Err(e) => r == Outcome::Fatal(e),
        Ok(m) => {
            &&& (r is NothingToInstall || r is Install)
            &&& r.installs() == install_names(m.collected())
            &&& (r is NothingToInstall <==> install_names(m.collected()).len() == 0)
        },
    }
}

/// Decides the course of a run from what loading the manifest gave.
pub fn plan(loaded: Result<ManifestDependencies, ManifestError>) -> (r: Outcome)
    ensures
        planned(loaded, r),
{
    match loaded {
        Err(e) => Outcome::Fatal(e),
        Ok(m) => {
            let names = collect_deps(&m);
            let list = install_list(&names);
            assert(texts(list@).len() == list@.len());
            if list.len() == 0 {
                assert(install_names(m.collected()) =~= Seq::<Seq<char>>::empty());
                Outcome::NothingToInstall
            } else {
                Outcome::Install(list)
            }
        },
    }
}

/// The package manager's executable.
pub open spec fn manager_program() -> Seq<char> {
    seq!['n', 'p', 'm']
}

/// The package manager's install operation.
pub open spec fn install_operation() -> Seq<char> {
    seq!['i', 'n', 's', 't', 'a', 'l', 'l']
}

/// The flag that records a package as a development dependency.
pub open spec fn save_dev_flag() -> Seq<char> {
    seq!['-', '-', 's', 'a', 'v', 'e', '-', 'd', 'e', 'v']
}

/// The command line that installs one package as a development dependency:
/// program first, then its arguments.
pub open spec fn install_command_of(package: Seq<char>) -> Seq<Seq<char>> {
    seq![manager_program(), install_operation(), package, save_dev_flag()]
}

/// Exactly one command per package, in order, each installing that package.
pub open spec fn invocations_for(commands: Seq<Vec<String>>, packages: Seq<Seq<char>>) -> bool {
    &&& commands.len() == packages.len()
    &&& forall|i: int| 0 <= i < commands.len() ==> texts(#[trigger] commands[i]@) == install_command_of(packages[i])
}

/// The command line that installs `package` as a development dependency.
pub fn install_command(package: &str) -> (r: Vec<String>)
    ensures
        texts(r@) == install_command_of(package@),
{
    proof {
        reveal_strlit("npm");
        reveal_strlit("install");
        reveal_strlit("--save-dev");
    }
    let program: &str = "npm";
    let operation: &str = "install";
    let flag: &str = "--save-dev";
    assert(program@ =~= manager_program());
    assert(operation@ =~= install_operation());
    assert(flag@ =~= save_dev_flag());
    let mut r: Vec<String> = Vec::new();
    r.push(String::from_str(program));
    r.push(String::from_str(operation));
    r.push(String::from_str(package));
    r.push(String::from_str(flag));
    assert(texts(r@) =~= install_command_of(package@));
    r
}

/// One install command for each package of the list, in the list's order.
pub fn install_invocations(list: &Vec<String>) -> (r: Vec<Vec<String>>)
    ensures
        invocations_for(r@, texts(list@)),
{
    let mut r: Vec<Vec<String>> = Vec::new();
    let mut i: usize = 0;
    while i < list.len()
        invariant
            i <= list@.len(),
            invocations_for(r@, texts(list@).take(i as int)),
        decreases list@.len() - i,
    {
        let command = install_command(list[i].as_str());
        r.push(command);
        i = i + 1;
    }
    assert(texts(list@).take(list@.len() as int) =~= texts(list@));
    r
}

} // verus!
