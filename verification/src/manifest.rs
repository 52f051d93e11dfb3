//! The manifest of outside projects: which repository, at which revision.

use vstd::prelude::*;
use crate::text::same_text;

verus! {

/// One outside project: its name, where it lives, and the revision that is
/// pinned.
#[derive(Clone, Debug, PartialEq, Eq)]
pub struct Repo {
    pub name: String,
    pub url: String,
    pub commit: String,
}

/// The manifest: the outside projects in the order of the file. No two of
/// them have the same name.
#[derive(Debug)]
pub struct KnownGood {
    repos: Vec<Repo>,
}

/// No two entries of the list have the same name.
pub open spec fn unique_names(repos: Seq<Repo>) -> bool {
    forall|i: int, j: int|
        0 <= i < j < repos.len() ==> (#[trigger] repos[i]).name@ != (#[trigger] repos[j]).name@
}

/// An entry of the list has the given name.
pub open spec fn names(repos: Seq<Repo>, name: Seq<char>) -> bool {
    exists|i: int| 0 <= i < repos.len() && (#[trigger] repos[i]).name@ == name
}

impl View for KnownGood {
    type V = Seq<Repo>;

    closed spec fn view(&self) -> Seq<Repo> {
        self.repos@
    }
}

/// The place of the first entry with the given name, at or after `from`.
fn position_from(repos: &Vec<Repo>, name: &str, from: usize) -> (r: Option<usize>)
    requires
        from <= repos.len(),
    ensures
        match r {
            Some(at) => from <= at < repos.len() && repos@[at as int].name@ == name@ && forall|
                i: int,
            | from <= i < at ==> (#[trigger] repos@[i]).name@ != name@,
            None => forall|i: int| from <= i < repos.len() ==> (#[trigger] repos@[i]).name@ != name@,
        },
{
    let mut at: usize = from;
    while at < repos.len()
        invariant
            from <= at <= repos.len(),
            forall|i: int| from <= i < at ==> (#[trigger] repos@[i]).name@ != name@,
        decreases repos.len() - at,
    {
        if same_text(repos[at].name.as_str(), name) {
            return Some(at);
        }
        at = at + 1;
    }
    None
}

impl KnownGood {
    #[verifier::type_invariant]
    spec fn well_formed(self) -> bool {
        unique_names(self.repos@)
    }

    /// The manifest of the given projects, unless two of them share a name:
    /// such a list is no manifest.
    pub fn new(repos: Vec<Repo>) -> (r: Option<Self>)
        ensures
            r is Some <==> unique_names(repos@),
            r is Some ==> r->Some_0@ == repos@,
    {
        let mut at: usize = 0;
        while at < repos.len()
            invariant
                at <= repos.len(),
                forall|i: int, j: int|
                    0 <= i < j < repos.len() && i < at ==> (#[trigger] repos@[i]).name@ != (
                    #[trigger] repos@[j]).name@,
            decreases repos.len() - at,
        {
            let again = position_from(&repos, repos[at].name.as_str(), at + 1);
            if again.is_some() {
                assert(repos@[at as int].name@ == repos@[again->Some_0 as int].name@);
                return None;
            }
            at = at + 1;
        }
        Some(KnownGood { repos })
    }

    /// The number of projects.
    pub fn len(&self) -> (r: usize)
        ensures
            r == self@.len(),
    {
        self.repos.len()
    }

    /// The project of the given name: `Some` exactly where the manifest names
    /// it, and then the one entry that has this name.
    pub fn get_repo(&self, name: &str) -> (r: Option<&Repo>)
        ensures
            unique_names(self@),
            r is Some <==> names(self@, name@),
            r is Some ==> r->Some_0.name@ == name@ && self@.contains(*r->Some_0),
    {
        proof {
            use_type_invariant(self);
        }
        match position_from(&self.repos, name, 0) {
            Some(at) => {
                assert(self@[at as int] == self.repos@[at as int]);
                Some(&self.repos[at])
            },
            None => None,
        }
    }
}

} // verus!
