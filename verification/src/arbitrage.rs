//! The search for a profitable cycle.
//!
//! The host values every directed cycle: what an investment becomes after the
//! three conversions, and the gain over the investment. The search validates
//! the matrix and reports the first cycle, in scan order, whose final amount
//! is above the threshold.

use vstd::prelude::*;
use crate::amount::Amount;
use crate::cycle::{directed_cycles, scan_order, Cycle, CYCLES};
use crate::matrix::{table, valid_matrix, three_by_three, diagonal_is_one, rates_usable, validate, verdict, ValidationError, ASSETS};

verus! {

/// The three rates that a cycle compounds, in the order of the conversions.
#[derive(Clone, Copy, Debug, PartialEq, Eq, Structural)]
pub struct CycleRates {
    /// From the first asset to the second.
    pub outbound: Amount,
    /// From the second asset to the third.
    pub onward: Amount,
    /// From the third asset back to the first.
    pub homebound: Amount,
}

/// What the host computed for one cycle.
#[derive(Clone, Copy, Debug, PartialEq, Eq, Structural)]
pub struct CycleValuation {
    /// The investment after the three conversions.
    pub final_amount: Amount,
    /// The final amount less the investment.
    pub profit: Amount,
}

/// The result of a search.
#[derive(Clone, Debug, PartialEq, Eq)]
pub struct ArbitrageOpportunity {
    pub has_opportunity: bool,
    /// The cycle's matrix indices in the order of the conversions; empty
    /// when there is no opportunity.
    pub indices: Vec<usize>,
    /// In the unit of the investment; zero when there is no opportunity.
    pub profit: Amount,
}

/// An `ArbitrageOpportunity` as a mathematical value.
pub struct Finding {
    pub has_opportunity: bool,
    pub indices: Seq<usize>,
    pub profit: Amount,
}

impl View for ArbitrageOpportunity {
    type V = Finding;

    open spec fn view(&self) -> Finding {
        Finding { has_opportunity: self.has_opportunity, indices: self.indices@, profit: self.profit }
    }
}

impl Finding {
    /// No cycle is profitable.
    pub open spec fn nothing() -> Finding {
        Finding { has_opportunity: false, indices: Seq::empty(), profit: Amount { bits: 0 } }
    }

    /// The cycle at position `n` of the scan is profitable.
    pub open spec fn at(valuations: Seq<CycleValuation>, n: int) -> Finding {
        Finding { has_opportunity: true, indices: scan_order()[n].path(), profit: valuations[n].profit }
    }

    /// Either nothing, or a directed cycle.
    pub open spec fn well_formed(self) -> bool {
        if self.has_opportunity {
            exists|cycle: Cycle| cycle.directed() && self.indices == cycle.path()
        } else {
            self == Finding::nothing()
        }
    }
}

/// The cycle's final amount is above the threshold.
pub open spec fn qualifies(valuation: CycleValuation, threshold: Amount) -> bool {
    valuation.final_amount.greater_than(threshold)
}

/// Position `n` qualifies and no earlier position does.
pub open spec fn leads(valuations: Seq<CycleValuation>, threshold: Amount, n: int) -> bool {
    &&& 0 <= n < valuations.len()
    &&& qualifies(valuations[n], threshold)
    &&& forall|m: int| 0 <= m < n ==> !qualifies(#[trigger] valuations[m], threshold)
}

/// What the scan reports: the first qualifying cycle, however many qualify
/// and whatever the later ones would gain.
pub open spec fn selection(valuations: Seq<CycleValuation>, threshold: Amount) -> Finding {
    if exists|n: int| leads(valuations, threshold, n) {
        Finding::at(valuations, choose|n: int| leads(valuations, threshold, n))
    } else {
        Finding::nothing()
    }
}

/// What a search returns: the fault of the matrix if it has one, else what
/// the scan reports.
pub open spec fn detection(
    m: Seq<Seq<Amount>>,
    valuations: Seq<CycleValuation>,
    threshold: Amount,
) -> Result<Finding, ValidationError> {
    match verdict(m) {
        Err(fault) => Err(fault),
        Ok(_) => Ok(selection(valuations, threshold)),
    }
}

/// At most one position leads.
pub proof fn leader_is_unique(valuations: Seq<CycleValuation>, threshold: Amount, m: int, n: int)
    requires
        leads(valuations, threshold, m),
        leads(valuations, threshold, n),
    ensures
        m == n,
{
    if m < n {
        assert(!qualifies(valuations[m], threshold));
    } else if n < m {
        assert(!qualifies(valuations[n], threshold));
    }
}

/// Where a position leads, the scan reports the cycle at that position.
pub proof fn first_qualifying_cycle_is_reported(
    valuations: Seq<CycleValuation>,
    threshold: Amount,
    n: int,
)
    requires
        leads(valuations, threshold, n),
    ensures
        selection(valuations, threshold) == Finding::at(valuations, n),
{
    let chosen = choose|k: int| leads(valuations, threshold, k);
    leader_is_unique(valuations, threshold, chosen, n);
}

/// Where no final amount is above the threshold, the scan reports nothing.
pub proof fn nothing_qualifies_nothing_reported(valuations: Seq<CycleValuation>, threshold: Amount)
    requires
        forall|n: int| 0 <= n < valuations.len() ==> !qualifies(#[trigger] valuations[n], threshold),
    ensures
        selection(valuations, threshold) == Finding::nothing(),
{
}

/// The search accepts every matrix of three rows of three entries with ones
/// on the diagonal and finite rates above zero elsewhere.
pub proof fn valid_matrix_is_searched(
    m: Seq<Seq<Amount>>,
    valuations: Seq<CycleValuation>,
    threshold: Amount,
)
    requires
        valid_matrix(m),
    ensures
        detection(m, valuations, threshold) == Ok::<Finding, ValidationError>(
            selection(valuations, threshold),
        ),
{
}

/// A three-by-three matrix with a diagonal entry other than one is refused
/// for its diagonal, whatever stands off the diagonal.
pub proof fn faulty_diagonal_is_refused(
    m: Seq<Seq<Amount>>,
    valuations: Seq<CycleValuation>,
    threshold: Amount,
    i: int,
)
    requires
        three_by_three(m),
        0 <= i < ASSETS,
        !m[i][i].equals_one(),
    ensures
        detection(m, valuations, threshold) == Err::<Finding, ValidationError>(
            ValidationError::InvalidDiagonal,
        ),
{
}

/// A three-by-three matrix with a sound diagonal and an entry off the
/// diagonal that is zero, negative, infinite or not a number is refused for
/// its rate.
pub proof fn unusable_rate_is_refused(
    m: Seq<Seq<Amount>>,
    valuations: Seq<CycleValuation>,
    threshold: Amount,
    i: int,
    j: int,
)
    requires
        three_by_three(m),
        diagonal_is_one(m),
        0 <= i < ASSETS,
        0 <= j < ASSETS,
        i != j,
        !m[i][j].positive_finite(),
    ensures
        detection(m, valuations, threshold) == Err::<Finding, ValidationError>(
            ValidationError::InvalidRate,
        ),
{
}

/// On a valid matrix none of whose cycles ends above the threshold, the
/// search finds no opportunity: no indices and a profit of zero.
pub proof fn no_profitable_cycle_no_opportunity(
    m: Seq<Seq<Amount>>,
    valuations: Seq<CycleValuation>,
    threshold: Amount,
)
    requires
        valid_matrix(m),
        forall|n: int| 0 <= n < valuations.len() ==> !qualifies(#[trigger] valuations[n], threshold),
    ensures
        detection(m, valuations, threshold) == Ok::<Finding, ValidationError>(Finding::nothing()),
{
}

/// On a valid matrix exactly one of whose cycles ends above the threshold,
/// the search reports that cycle's indices and the profit valued for it.
pub proof fn only_profitable_cycle_is_reported(
    m: Seq<Seq<Amount>>,
    valuations: Seq<CycleValuation>,
    threshold: Amount,
    n: int,
)
    requires
        valid_matrix(m),
        0 <= n < valuations.len(),
        forall|k: int|
            0 <= k < valuations.len() ==> (qualifies(#[trigger] valuations[k], threshold) <==> k == n),
    ensures
        detection(m, valuations, threshold) == Ok::<Finding, ValidationError>(
            Finding::at(valuations, n),
        ),
{
    assert(leads(valuations, threshold, n));
    first_qualifying_cycle_is_reported(valuations, threshold, n);
}

/// Whatever the search reports is nothing or a directed cycle.
pub proof fn selection_is_well_formed(valuations: Seq<CycleValuation>, threshold: Amount)
    requires
        valuations.len() == CYCLES,
    ensures
        selection(valuations, threshold).well_formed(),
{
    if exists|n: int| leads(valuations, threshold, n) {
        let n = choose|n: int| leads(valuations, threshold, n);
        assert(scan_order()[n].directed());
    }
}

/// The postcondition of the search: `result` is what the search returns on
/// these inputs.
pub open spec fn detects(
    prices: &Vec<Vec<Amount>>,
    valuations: &[CycleValuation; CYCLES],
    threshold: Amount,
    result: Result<ArbitrageOpportunity, ValidationError>,
) -> bool {
    match result {
        Ok(found) => detection(table(prices), valuations@, threshold) == Ok::<
            Finding,
            ValidationError,
        >(found@),
        Err(fault) => detection(table(prices), valuations@, threshold) == Err::<
            Finding,
            ValidationError,
        >(fault),
    }
}

/// Two searches on the same inputs agree: both fail with the same fault, or
/// both report the same finding.
pub proof fn search_is_repeatable(
    prices: &Vec<Vec<Amount>>,
    valuations: &[CycleValuation; CYCLES],
    threshold: Amount,
    once: Result<ArbitrageOpportunity, ValidationError>,
    again: Result<ArbitrageOpportunity, ValidationError>,
)
    requires
        detects(prices, valuations, threshold, once),
        detects(prices, valuations, threshold, again),
    ensures
        match (once, again) {
            (Ok(a), Ok(b)) => a@ == b@,
            (Err(a), Err(b)) => a == b,
            _ => false,
        },
{
}

/// The rates along a cycle, where the matrix has an entry for each of the
/// three conversions.
pub open spec fn rates_along(m: Seq<Seq<Amount>>, cycle: Cycle) -> Option<CycleRates> {
    if cycle.first < m.len() && cycle.second < m.len() && cycle.third < m.len()
        && cycle.second < m[cycle.first as int].len()
        && cycle.third < m[cycle.second as int].len()
        && cycle.first < m[cycle.third as int].len() {
        Some(
            CycleRates {
                outbound: m[cycle.first as int][cycle.second as int],
                onward: m[cycle.second as int][cycle.third as int],
                homebound: m[cycle.third as int][cycle.first as int],
            },
        )
    } else {
        None
    }
}

/// Reads from the matrix the three rates that a cycle compounds.
pub fn cycle_rates(prices: &Vec<Vec<Amount>>, cycle: &Cycle) -> (r: Option<CycleRates>)
    ensures
        r == rates_along(table(prices), *cycle),
{
    let rows = prices.len();
    if cycle.first < rows && cycle.second < rows && cycle.third < rows {
        assert(table(prices)[cycle.first as int] == prices@[cycle.first as int]@);
        assert(table(prices)[cycle.second as int] == prices@[cycle.second as int]@);
        assert(table(prices)[cycle.third as int] == prices@[cycle.third as int]@);
        if cycle.second < prices[cycle.first].len() && cycle.third < prices[cycle.second].len()
            && cycle.first < prices[cycle.third].len() {
            return Some(
                CycleRates {
                    outbound: prices[cycle.first][cycle.second],
                    onward: prices[cycle.second][cycle.third],
                    homebound: prices[cycle.third][cycle.first],
                },
            );
        }
    }
    None
}

/// Scans the valuations in order and reports the first above the threshold.
pub fn select_opportunity(valuations: &[CycleValuation; CYCLES], threshold: Amount) -> (r:
    ArbitrageOpportunity)
    ensures
        r@ == selection(valuations@, threshold),
{
    let cycles = directed_cycles();
    let mut n: usize = 0;
    while n < CYCLES
        invariant
            n <= CYCLES,
            cycles@ == scan_order(),
            valuations@.len() == CYCLES,
            forall|m: int| 0 <= m < n ==> !qualifies(#[trigger] valuations@[m], threshold),
        decreases CYCLES - n,
    {
        if valuations[n].final_amount.exceeds(threshold) {
            proof {
                assert(leads(valuations@, threshold, n as int));
                first_qualifying_cycle_is_reported(valuations@, threshold, n as int);
            }
            return ArbitrageOpportunity {
                has_opportunity: true,
                indices: cycles[n].to_path(),
                profit: valuations[n].profit,
            };
        }
        n += 1;
    }
    ArbitrageOpportunity { has_opportunity: false, indices: Vec::new(), profit: Amount::zero() }
}

/// Searches a rate matrix for a profitable three-asset cycle.
///
/// `valuations` holds, for each directed cycle in scan order, what the
/// investment becomes along it and the gain; `threshold` is the amount that
/// a final amount must exceed. A matrix that fails validation is refused
/// before any valuation is read.
pub fn calc_triangle_arbitrage_opportunity(
    prices: &Vec<Vec<Amount>>,
    valuations: &[CycleValuation; CYCLES],
    threshold: Amount,
) -> (r: Result<ArbitrageOpportunity, ValidationError>)
    ensures
        detects(prices, valuations, threshold, r),
{
    match validate(prices) {
        Err(fault) => Err(fault),
        Ok(_) => Ok(select_opportunity(valuations, threshold)),
    }
}

} // verus!
