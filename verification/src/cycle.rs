//! The directed three-asset cycles and the order in which they are scanned.

use vstd::prelude::*;
use crate::matrix::ASSETS;

verus! {

/// How many directed cycles run through three assets.
pub const CYCLES: usize = 6;

/// A round trip `first -> second -> third -> first`, by matrix index.
#[derive(Clone, Copy, Debug, PartialEq, Eq, Structural)]
pub struct Cycle {
    pub first: usize,
    pub second: usize,
    pub third: usize,
}

impl Cycle {
    /// The three indices name three different assets.
    pub open spec fn directed(self) -> bool {
        &&& self.first < ASSETS
        &&& self.second < ASSETS
        &&& self.third < ASSETS
        &&& self.first != self.second
        &&& self.second != self.third
        &&& self.third != self.first
    }

    /// Dictionary order on the three indices.
    pub open spec fn precedes(self, other: Cycle) -> bool {
        ||| self.first < other.first
        ||| self.first == other.first && self.second < other.second
        ||| self.first == other.first && self.second == other.second && self.third < other.third
    }

    /// The indices in the order in which the cycle visits them.
    pub open spec fn path(self) -> Seq<usize> {
        seq![self.first, self.second, self.third]
    }

    pub fn to_path(&self) -> (r: Vec<usize>)
        ensures
            r@ == self.path(),
    {
        vec![self.first, self.second, self.third]
    }
}

/// Every directed cycle, in the order of the scan.
pub open spec fn scan_order() -> Seq<Cycle> {
    seq![
        Cycle { first: 0, second: 1, third: 2 },
        Cycle { first: 0, second: 2, third: 1 },
        Cycle { first: 1, second: 0, third: 2 },
        Cycle { first: 1, second: 2, third: 0 },
        Cycle { first: 2, second: 0, third: 1 },
        Cycle { first: 2, second: 1, third: 0 },
    ]
}

/// The scan visits directed cycles only.
pub proof fn scan_order_holds_cycles(n: int)
    requires
        0 <= n < CYCLES,
    ensures
        scan_order().len() == CYCLES,
        scan_order()[n].directed(),
{
}

/// The scan runs in dictionary order, so it visits no cycle twice.
pub proof fn scan_order_ascends(m: int, n: int)
    requires
        0 <= m < n < CYCLES,
    ensures
        scan_order()[m].precedes(scan_order()[n]),
{
}

/// The scan misses no directed cycle.
pub proof fn scan_order_is_complete(cycle: Cycle)
    requires
        cycle.directed(),
    ensures
        exists|n: int| 0 <= n < CYCLES && scan_order()[n] == cycle,
{
    let n: int = 2 * cycle.first + if cycle.second < cycle.third { 0int } else { 1int };
    assert(0 <= n < CYCLES && scan_order()[n] == cycle);
}

/// How many directed cycles start with `first` and continue with an index
/// below `second`.
spec fn seconds_seen(first: int, second: int) -> int {
    if second > first {
        second - 1
    } else {
        second
    }
}

/// Lists the directed cycles by running three nested counters over the
/// assets and keeping the combinations without a repeat.
pub fn directed_cycles() -> (r: Vec<Cycle>)
    ensures
        r@ == scan_order(),
{
    let mut found: Vec<Cycle> = Vec::new();
    let mut i: usize = 0;
    while i < ASSETS
        invariant
            i <= ASSETS,
            found@ =~= scan_order().take(2 * i),
        decreases ASSETS - i,
    {
        let mut j: usize = 0;
        while j < ASSETS
            invariant
                i < ASSETS,
                j <= ASSETS,
                found@ =~= scan_order().take(2 * i + seconds_seen(i as int, j as int)),
            decreases ASSETS - j,
        {
            let mut k: usize = 0;
            while k < ASSETS
                invariant
                    i < ASSETS,
                    j < ASSETS,
                    k <= ASSETS,
                    found@ =~= scan_order().take(
                        2 * i + seconds_seen(i as int, j as int) + if i != j && k > ASSETS - i - j {
                            1int
                        } else {
                            0int
                        },
                    ),
                decreases ASSETS - k,
            {
                if i != j && j != k && k != i {
                    found.push(Cycle { first: i, second: j, third: k });
                }
                k += 1;
            }
            j += 1;
        }
        i += 1;
    }
    assert(scan_order().take(6) =~= scan_order());
    found
}

} // verus!
