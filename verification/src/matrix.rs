//! Rate matrices and the checks a matrix must pass before it is searched.

use vstd::prelude::*;
use crate::amount::Amount;

verus! {

/// How many assets one search covers.
pub const ASSETS: usize = 3;

/// Why a rate matrix was turned away.
#[derive(Clone, Copy, Debug, PartialEq, Eq, Structural)]
pub enum ValidationError {
    /// The matrix is not three rows of three entries.
    WrongDimension,
    /// An entry on the diagonal is not exactly one.
    InvalidDiagonal,
    /// An entry off the diagonal is not a finite number above zero.
    InvalidRate,
}

/// The entries of a matrix, row by row: entry `(i, j)` is how much of asset
/// `j` one unit of asset `i` buys.
pub open spec fn table(prices: &Vec<Vec<Amount>>) -> Seq<Seq<Amount>> {
    Seq::new(prices@.len(), |i: int| prices@[i]@)
}

pub open spec fn three_by_three(m: Seq<Seq<Amount>>) -> bool {
    &&& m.len() == ASSETS
    &&& forall|i: int| 0 <= i < ASSETS ==> (#[trigger] m[i]).len() == ASSETS
}

pub open spec fn diagonal_is_one(m: Seq<Seq<Amount>>) -> bool {
    forall|i: int| 0 <= i < ASSETS ==> (#[trigger] m[i])[i].equals_one()
}

pub open spec fn rates_usable(m: Seq<Seq<Amount>>) -> bool {
    forall|i: int, j: int|
        0 <= i < ASSETS && 0 <= j < ASSETS && i != j ==> (#[trigger] m[i][j]).positive_finite()
}

/// A matrix fit for the search.
pub open spec fn valid_matrix(m: Seq<Seq<Amount>>) -> bool {
    three_by_three(m) && diagonal_is_one(m) && rates_usable(m)
}

/// The outcome of validation. The shape is judged first, then the whole
/// diagonal, then the rates: a matrix with a fault on its diagonal is
/// reported as such whatever stands off the diagonal.
pub open spec fn verdict(m: Seq<Seq<Amount>>) -> Result<(), ValidationError> {
    if !three_by_three(m) {
        Err(ValidationError::WrongDimension)
    } else if !diagonal_is_one(m) {
        Err(ValidationError::InvalidDiagonal)
    } else if !rates_usable(m) {
        Err(ValidationError::InvalidRate)
    } else {
        Ok(())
    }
}

impl ValidationError {
    /// A one-line description of the fault.
    pub fn message(&self) -> (r: String)
        ensures
            r@ == match *self {
                ValidationError::WrongDimension => "Invalid matrix dimension"@,
                ValidationError::InvalidDiagonal => "Invalid conversion rate at diagonal"@,
                ValidationError::InvalidRate => "Invalid conversion rate"@,
            },
    {
        match self {
            ValidationError::WrongDimension => "Invalid matrix dimension".to_owned(),
            ValidationError::InvalidDiagonal => "Invalid conversion rate at diagonal".to_owned(),
            ValidationError::InvalidRate => "Invalid conversion rate".to_owned(),
        }
    }
}

fn has_shape(prices: &Vec<Vec<Amount>>) -> (r: bool)
    ensures
        r == three_by_three(table(prices)),
{
    if prices.len() != ASSETS {
        return false;
    }
    let mut i: usize = 0;
    while i < ASSETS
        invariant
            i <= ASSETS,
            prices@.len() == ASSETS,
            forall|r: int| 0 <= r < i ==> (#[trigger] table(prices)[r]).len() == ASSETS,
        decreases ASSETS - i,
    {
        if prices[i].len() != ASSETS {
            assert(table(prices)[i as int].len() != ASSETS);
            return false;
        }
        i += 1;
    }
    true
}

fn diagonal_holds(prices: &Vec<Vec<Amount>>) -> (r: bool)
    requires
        three_by_three(table(prices)),
    ensures
        r == diagonal_is_one(table(prices)),
{
    let mut i: usize = 0;
    while i < ASSETS
        invariant
            i <= ASSETS,
            three_by_three(table(prices)),
            forall|r: int| 0 <= r < i ==> (#[trigger] table(prices)[r])[r].equals_one(),
        decreases ASSETS - i,
    {
        assert(table(prices)[i as int].len() == ASSETS);
        if !prices[i][i].is_one() {
            assert(!table(prices)[i as int][i as int].equals_one());
            return false;
        }
        i += 1;
    }
    true
}

fn rates_hold(prices: &Vec<Vec<Amount>>) -> (r: bool)
    requires
        three_by_three(table(prices)),
    ensures
        r == rates_usable(table(prices)),
{
    let mut i: usize = 0;
    while i < ASSETS
        invariant
            i <= ASSETS,
            three_by_three(table(prices)),
            forall|r: int, c: int|
                0 <= r < i && 0 <= c < ASSETS && r != c ==> (#[trigger] table(prices)[r][c]).positive_finite(),
        decreases ASSETS - i,
    {
        let mut j: usize = 0;
        while j < ASSETS
            invariant
                i < ASSETS,
                j <= ASSETS,
                three_by_three(table(prices)),
                forall|r: int, c: int|
                    0 <= r < i && 0 <= c < ASSETS && r != c ==> (#[trigger] table(prices)[r][c]).positive_finite(),
                forall|c: int|
                    0 <= c < j && c != i ==> (#[trigger] table(prices)[i as int][c]).positive_finite(),
            decreases ASSETS - j,
        {
            assert(table(prices)[i as int].len() == ASSETS);
            if i != j && !prices[i][j].is_positive_finite() {
                assert(!table(prices)[i as int][j as int].positive_finite());
                return false;
            }
            j += 1;
        }
        i += 1;
    }
    true
}

/// Checks a matrix before it is searched.
pub fn validate(prices: &Vec<Vec<Amount>>) -> (r: Result<(), ValidationError>)
    ensures
        r == verdict(table(prices)),
{
    if !has_shape(prices) {
        Err(ValidationError::WrongDimension)
    } else if !diagonal_holds(prices) {
        Err(ValidationError::InvalidDiagonal)
    } else if !rates_hold(prices) {
        Err(ValidationError::InvalidRate)
    } else {
        Ok(())
    }
}

} // verus!
