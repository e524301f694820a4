//! Which versions of a crate a dependency admits.

use vstd::prelude::*;

use crate::outside::{req_matches, semver_matches};

verus! {

/// How a version compares to the one in a requirement.
#[derive(Debug, Copy, Clone, PartialEq, Eq, Structural)]
pub enum Op {
    Exact,
    Greater,
    GreaterEq,
    Less,
    LessEq,
    Tilde,
    Caret,
    Wildcard,
}

/// One part of a requirement, such as `>=1.2`.
#[derive(Debug)]
pub struct Comparator {
    pub op: Op,
    pub major: u64,
    pub minor: Option<u64>,
    pub patch: Option<u64>,
    pub pre: semver::Prerelease,
}

/// A requirement, which a version meets by meeting each part.
#[derive(Debug)]
pub struct VersionReq {
    pub comparators: Vec<Comparator>,
}

/// The version of the target crate whose dependents are looked for. What a version says about
/// its build plays no part in requirements.
#[derive(Debug)]
pub struct TargetVersion {
    pub major: u64,
    pub minor: u64,
    pub patch: u64,
    pub pre: semver::Prerelease,
}

/// The part of a requirement once an exact version only says where compatible ones begin.
pub open spec fn loosened_part(c: Comparator) -> Comparator {
    if c.op is Exact {
        Comparator { op: Op::Caret, ..c }
    } else {
        c
    }
}

/// The requirement once exact versions only say where compatible ones begin.
pub open spec fn loosened(comparators: Seq<Comparator>) -> Seq<Comparator> {
    comparators.map_values(|c: Comparator| loosened_part(c))
}

/// The requirement, loosened, is met by a version.
pub open spec fn admits(comparators: Seq<Comparator>, version: TargetVersion) -> bool {
    semver_matches(loosened(comparators), version)
}

impl VersionReq {
    /// Takes an exact version for the first of the compatible ones, so that a crate that pins the
    /// target is tried too.
    pub fn loosen(&mut self)
        ensures
            final(self).comparators@ == loosened(old(self).comparators@),
    {
        let ghost before = self.comparators@;
        let mut i: usize = 0;
        while i < self.comparators.len()
            invariant
                i <= self.comparators.len(),
                self.comparators.len() == before.len(),
                forall|j: int| 0 <= j < i ==> #[trigger] self.comparators@[j] == loosened_part(before[j]),
                forall|j: int|
                    i <= j < self.comparators.len() ==> #[trigger] self.comparators@[j] == before[j],
            decreases self.comparators.len() - i,
        {
            if let Op::Exact = self.comparators[i].op {
                self.comparators[i].op = Op::Caret;
            }
            i = i + 1;
        }
        assert(self.comparators@ =~= loosened(before));
    }

    /// Whether the requirement, loosened, is met by a version.
    pub fn admits(&mut self, version: &TargetVersion) -> (r: bool)
        ensures
            final(self).comparators@ == loosened(old(self).comparators@),
            r == admits(old(self).comparators@, *version),
    {
        self.loosen();
        req_matches(self, version)
    }
}

/// Loosening leaves no part exact and changes nothing of a part but that.
pub proof fn law_loosening_changes_exact_parts_only(comparators: Seq<Comparator>, i: int)
    requires
        0 <= i < comparators.len(),
    ensures
        loosened(comparators).len() == comparators.len(),
        !(loosened(comparators)[i].op is Exact),
        loosened(comparators)[i] == (Comparator {
            op: loosened(comparators)[i].op,
            ..comparators[i]
        }),
        !(comparators[i].op is Exact) ==> loosened(comparators)[i] == comparators[i],
        comparators[i].op is Exact ==> loosened(comparators)[i].op is Caret,
{
}

/// A requirement that is loosened already stays as it is.
pub proof fn law_loosening_twice_is_loosening_once(comparators: Seq<Comparator>)
    ensures
        loosened(loosened(comparators)) == loosened(comparators),
{
    assert(loosened(loosened(comparators)) =~= loosened(comparators));
}

/// Of a requirement without exact parts, it is the requirement itself that a version has to meet.
pub proof fn law_requirements_that_are_not_exact_hold_as_they_are(
    comparators: Seq<Comparator>,
    version: TargetVersion,
)
    requires
        forall|i: int| 0 <= i < comparators.len() ==> !((#[trigger] comparators[i]).op is Exact),
    ensures
        admits(comparators, version) == semver_matches(comparators, version),
{
    assert(loosened(comparators) =~= comparators);
}

} // verus!
