//! The search for the project marker: which directories are looked at, and
//! when the search ends.
//!
//! Looking at a directory is the caller's part. The search starts at the
//! working directory and climbs; it ends at the first directory that holds
//! the marker, or after five directories, or where there is no parent.

use vstd::prelude::*;

verus! {

/// Number of directories looked at before the search gives up.
pub const MAX_LEVELS: u8 = 5;

/// The file whose presence marks the project root.
pub fn marker_name() -> (name: &'static str)
    ensures
        name@ == "pyproject.toml"@,
{
    "pyproject.toml"
}

/// The name of the convenience script written beside the marker.
pub fn script_name() -> (name: &'static str)
    ensures
        name@ == "run_generated.sh"@,
{
    "run_generated.sh"
}

/// What to do after a directory was looked at.
#[derive(Clone, Copy, Debug, PartialEq, Eq, Structural)]
pub enum Verdict {
    /// The directory just looked at is the project root.
    Found,
    /// Look at the parent next; where there is none, the search is over.
    Ascend,
    /// Stop: the marker was not found.
    GiveUp,
}

/// The verdict on a directory that is the `examined + 1`-th looked at.
pub open spec fn verdict_of(examined: int, holds_marker: bool) -> Verdict {
    if examined >= MAX_LEVELS {
        Verdict::GiveUp
    } else if holds_marker {
        Verdict::Found
    } else if examined + 1 >= MAX_LEVELS {
        Verdict::GiveUp
    } else {
        Verdict::Ascend
    }
}

/// The directory at which a search over `reports` ends with `Found`, where
/// `reports[i]` says whether the `i`-th directory on the way up holds the
/// marker: the first that does among the first five, if any.
pub open spec fn found_at(reports: Seq<bool>) -> Option<int> {
    if exists|i: int| is_first_marker(reports, i) {
        Some(choose|i: int| is_first_marker(reports, i))
    } else {
        None
    }
}

/// `i` is the first directory that holds the marker, and lies within the
/// levels that are searched.
pub open spec fn is_first_marker(reports: Seq<bool>, i: int) -> bool {
    &&& 0 <= i < reports.len()
    &&& i < MAX_LEVELS
    &&& reports[i]
    &&& forall|j: int| 0 <= j < i ==> !#[trigger] reports[j]
}

/// A search in progress: how many directories were looked at.
#[derive(Clone, Copy, Debug, PartialEq, Eq, Structural)]
pub struct MarkerSearch {
    pub examined: u8,
}

impl MarkerSearch {
    /// A search that has looked at nothing yet.
    pub fn new() -> (search: MarkerSearch)
        ensures
            search.examined == 0,
    {
        MarkerSearch { examined: 0 }
    }

    /// Takes the report on the next directory and says how to go on.
    pub fn step(&mut self, holds_marker: bool) -> (verdict: Verdict)
        ensures
            verdict == verdict_of(old(self).examined as int, holds_marker),
            final(self).examined == if old(self).examined < MAX_LEVELS {
                old(self).examined + 1
            } else {
                old(self).examined as int
            },
    {
        if self.examined >= MAX_LEVELS {
            return Verdict::GiveUp;
        }
        self.examined = self.examined + 1;
        if holds_marker {
            Verdict::Found
        } else if self.examined >= MAX_LEVELS {
            Verdict::GiveUp
        } else {
            Verdict::Ascend
        }
    }
}

/// The directory that a climb through `reports` finds, starting with
/// `examined` directories already looked at and `reports` being those that
/// follow.
pub open spec fn climb(examined: int, reports: Seq<bool>) -> Option<int>
    decreases reports.len(),
{
    if reports.len() == 0 {
        None
    } else {
        match verdict_of(examined, reports[0]) {
            Verdict::Found => Some(examined),
            Verdict::GiveUp => None,
            Verdict::Ascend => climb(examined + 1, reports.drop_first()),
        }
    }
}

/// Following the verdicts from the working directory upwards finds the
/// first directory that holds the marker among the first five, and nothing
/// where none of them does.
pub proof fn lemma_climb_finds_first_marker(reports: Seq<bool>)
    ensures
        climb(0, reports) == found_at(reports),
{
    assert(reports.skip(0) =~= reports);
    lemma_climb_from(0, reports, reports);
    if exists|i: int| is_first_marker(reports, i) {
        let i = choose|i: int| is_first_marker(reports, i);
        match climb(0, reports) {
            Some(k) => {
                if k < i {
                    assert(!reports[k]);
                } else if i < k {
                    assert(!reports[i]);
                }
            },
            None => {
                assert(!reports[i]);
            },
        }
    } else {
        match climb(0, reports) {
            Some(k) => {
                assert(is_first_marker(reports, k));
            },
            None => {},
        }
    }
}

proof fn lemma_climb_from(examined: int, rest: Seq<bool>, reports: Seq<bool>)
    requires
        0 <= examined <= reports.len(),
        rest == reports.skip(examined),
        forall|j: int| 0 <= j < examined ==> !#[trigger] reports[j],
        examined <= MAX_LEVELS,
    ensures
        match climb(examined, rest) {
            Some(k) => is_first_marker(reports, k),
            None => forall|j: int| 0 <= j < reports.len() && j < MAX_LEVELS ==> !#[trigger] reports[j],
        },
    decreases rest.len(),
{
    if rest.len() > 0 {
        assert(rest[0] == reports[examined]);
        match verdict_of(examined, rest[0]) {
            Verdict::Ascend => {
                assert(rest.drop_first() =~= reports.skip(examined + 1));
                assert forall|j: int| 0 <= j < examined + 1 implies !#[trigger] reports[j] by {
                    if j == examined {
                    }
                }
                lemma_climb_from(examined + 1, rest.drop_first(), reports);
            },
            _ => {},
        }
    }
}

} // verus!
