//! Building a rate matrix one quote at a time.
//!
//! The builder names the next pair to ask the oracle about; the host asks and
//! hands the answer back. The diagonal is never asked for. The first failed
//! quote ends the build.

use vstd::prelude::*;
use crate::amount::{Amount, ONE_BITS};
use crate::matrix::{diagonal_is_one, three_by_three, table, verdict, ValidationError, ASSETS};
use crate::oracle::{OracleError, OracleFault};

verus! {

/// A build in progress, as a mathematical value.
pub struct BuildState {
    /// The number of assets.
    pub size: nat,
    /// The answers so far, by pair.
    pub recorded: Map<(int, int), Amount>,
    /// The quote that ended the build, if one did.
    pub failure: Option<OracleError>,
}

impl BuildState {
    /// A build of `size` assets before the first answer.
    pub open spec fn start(size: nat) -> BuildState {
        BuildState { size, recorded: Map::empty(), failure: None }
    }

    /// The pair `(i, j)` lies off the diagonal and has no answer yet.
    pub open spec fn open_at(self, i: int, j: int) -> bool {
        &&& 0 <= i < self.size
        &&& 0 <= j < self.size
        &&& i != j
        &&& !self.recorded.contains_key((i, j))
    }

    /// The pair `(i, j)` is the first without an answer, row by row.
    pub open spec fn first_open(self, i: int, j: int) -> bool {
        &&& self.open_at(i, j)
        &&& forall|r: int, c: int| #[trigger] self.open_at(r, c) ==> i < r || (i == r && j <= c)
    }

    /// Every pair off the diagonal has its answer.
    pub open spec fn complete(self) -> bool {
        forall|r: int, c: int| !#[trigger] self.open_at(r, c)
    }

    /// The pair to ask about next: none once a quote has failed or every
    /// pair is answered.
    pub open spec fn pending(self) -> Option<(int, int)> {
        if self.failure.is_some() || self.complete() {
            None
        } else {
            Some(choose|pair: (int, int)| self.first_open(pair.0, pair.1))
        }
    }

    /// The build after the oracle's answer for the pending pair. A rate is
    /// recorded as it is, be it zero or negative, unless it is infinite or
    /// not a number; that, like a failed quote, ends the build. With nothing
    /// pending the answer is dropped.
    pub open spec fn after(self, answer: Result<Amount, OracleFault>) -> BuildState {
        match self.pending() {
            None => self,
            Some(pair) => {
                let failed = |fault: OracleFault|
                    BuildState {
                        failure: Some(
                            OracleError { base: pair.0 as usize, target: pair.1 as usize, fault },
                        ),
                        ..self
                    };
                match answer {
                    Ok(rate) => if rate.finite() {
                        BuildState { recorded: self.recorded.insert(pair, rate), ..self }
                    } else {
                        failed(OracleFault::NonFinitePrice)
                    },
                    Err(fault) => failed(fault),
                }
            },
        }
    }

    /// Every recorded rate is a finite number.
    pub open spec fn rates_finite(self) -> bool {
        forall|pair: (int, int)| #[trigger]
            self.recorded.contains_key(pair) ==> self.recorded[pair].finite()
    }

    /// The matrix of a complete build: one on the diagonal, the recorded
    /// answer everywhere else.
    pub open spec fn matrix(self) -> Seq<Seq<Amount>> {
        Seq::new(
            self.size,
            |i: int|
                Seq::new(
                    self.size,
                    |j: int|
                        if i == j {
                            Amount { bits: ONE_BITS }
                        } else {
                            self.recorded[(i, j)]
                        },
                ),
        )
    }

    /// What the build yields when it is closed: the failure if there was
    /// one, a missing price for the pending pair if the build is closed
    /// early, the matrix otherwise.
    pub open spec fn outcome(self) -> Result<Seq<Seq<Amount>>, OracleError> {
        match self.failure {
            Some(error) => Err(error),
            None => match self.pending() {
                Some(pair) => Err(
                    OracleError {
                        base: pair.0 as usize,
                        target: pair.1 as usize,
                        fault: OracleFault::MissingPrice,
                    },
                ),
                None => Ok(self.matrix()),
            },
        }
    }
}

/// At most one pair is the first without an answer.
pub proof fn first_open_is_unique(state: BuildState, i: int, j: int, r: int, c: int)
    requires
        state.first_open(i, j),
        state.first_open(r, c),
    ensures
        i == r,
        j == c,
{
}

/// The matrix of a complete build for three assets has the shape and the
/// diagonal that the search asks for, and every entry is finite: the search
/// can refuse it for nothing but a rate that is not above zero.
pub proof fn built_matrix_is_refused_only_for_a_rate(state: BuildState)
    requires
        state.size == ASSETS,
        state.complete(),
        state.rates_finite(),
    ensures
        three_by_three(state.matrix()),
        diagonal_is_one(state.matrix()),
        forall|i: int, j: int|
            0 <= i < ASSETS && 0 <= j < ASSETS ==> (#[trigger] state.matrix()[i][j]).finite(),
        verdict(state.matrix()) == Ok::<(), ValidationError>(()) || verdict(state.matrix()) == Err::<
            (),
            ValidationError,
        >(ValidationError::InvalidRate),
        verdict(state.matrix()).is_ok() <==> forall|i: int, j: int|
            0 <= i < ASSETS && 0 <= j < ASSETS && i != j ==> (#[trigger] state.recorded[(i, j)]).rank()
                > 0,
{
    let m = state.matrix();
    assert forall|i: int, j: int| 0 <= i < ASSETS && 0 <= j < ASSETS implies (#[trigger] m[i][j]).finite() by {
        if i != j {
            assert(!state.open_at(i, j));
            assert(state.recorded.contains_key((i, j)));
        }
    }
    assert forall|i: int, j: int| 0 <= i < ASSETS && 0 <= j < ASSETS && i != j implies m[i][j]
        == #[trigger] state.recorded[(i, j)] by {}
    if verdict(m).is_ok() {
        assert forall|i: int, j: int| 0 <= i < ASSETS && 0 <= j < ASSETS && i != j implies (
        #[trigger] state.recorded[(i, j)]).rank() > 0 by {
            assert(m[i][j].positive_finite());
        }
    }
}

/// Builds the square matrix of the rates among `size` assets.
pub struct RateMatrixBuilder {
    size: usize,
    /// The rows that are full.
    rows: Vec<Vec<Amount>>,
    /// The row being filled; it ends just before the pending pair.
    current: Vec<Amount>,
    failure: Option<OracleError>,
}

impl RateMatrixBuilder {
    #[verifier::type_invariant]
    spec fn consistent(self) -> bool {
        &&& self.rows@.len() <= self.size
        &&& forall|r: int|
            0 <= r < self.rows@.len() ==> (#[trigger] self.rows@[r])@.len() == self.size
        &&& forall|r: int|
            0 <= r < self.rows@.len() ==> (#[trigger] self.rows@[r])@[r].bits == ONE_BITS
        &&& self.rows@.len() < self.size ==> {
            &&& self.current@.len() < self.size
            &&& self.current@.len() != self.rows@.len()
            &&& self.rows@.len() < self.current@.len() ==> self.current@[self.rows@.len() as int].bits
                == ONE_BITS
        }
        &&& self.rows@.len() == self.size ==> self.current@.len() == 0
        &&& forall|r: int, c: int|
            0 <= r < self.rows@.len() && 0 <= c < self.size ==> (#[trigger] self.rows@[r]@[c]).finite()
        &&& forall|c: int| 0 <= c < self.current@.len() ==> (#[trigger] self.current@[c]).finite()
    }

    /// The entry at `(i, j)`, where the builder holds one.
    spec fn held(self, i: int, j: int) -> Amount {
        if i < self.rows@.len() {
            self.rows@[i]@[j]
        } else {
            self.current@[j]
        }
    }

    /// The pair `(i, j)` lies off the diagonal, before the pending pair.
    spec fn answered(self, i: int, j: int) -> bool {
        &&& 0 <= i < self.size
        &&& 0 <= j < self.size
        &&& i != j
        &&& (i < self.rows@.len() || (i == self.rows@.len() && j < self.current@.len()))
    }

    pub closed spec fn view(&self) -> BuildState {
        BuildState {
            size: self.size as nat,
            recorded: Map::new(
                |pair: (int, int)| self.answered(pair.0, pair.1),
                |pair: (int, int)| self.held(pair.0, pair.1),
            ),
            failure: self.failure,
        }
    }

    /// While rows are missing, the pair at the end of the row being filled
    /// is the first without an answer; once all rows are full, no pair is
    /// without one.
    proof fn cursor_is_first_open(self)
        requires
            self.consistent(),
        ensures
            self.rows@.len() < self.size ==> self@.first_open(
                self.rows@.len() as int,
                self.current@.len() as int,
            ),
            self.rows@.len() == self.size ==> self@.complete(),
            self.failure.is_none() && self.rows@.len() < self.size ==> self@.pending() == Some(
                (self.rows@.len() as int, self.current@.len() as int),
            ),
            self@.rates_finite(),
    {
        let state = self@;
        assert forall|pair: (int, int)| #[trigger] state.recorded.contains_key(pair) implies state.recorded[pair].finite() by {
            assert(self.answered(pair.0, pair.1));
            if pair.0 < self.rows@.len() {
                assert(self.rows@[pair.0]@[pair.1].finite());
            } else {
                assert(self.current@[pair.1].finite());
            }
        }
        assert forall|r: int, c: int| state.open_at(r, c) <==> 0 <= r < self.size && 0 <= c
            < self.size && r != c && !self.answered(r, c) by {
            assert(state.recorded.contains_key((r, c)) <==> self.answered(r, c));
        }
        if self.rows@.len() < self.size {
            let i = self.rows@.len() as int;
            let j = self.current@.len() as int;
            assert(state.open_at(i, j));
            assert(state.first_open(i, j));
            if self.failure.is_none() {
                let chosen = choose|pair: (int, int)| state.first_open(pair.0, pair.1);
                assert(state.first_open((i, j).0, (i, j).1));
                first_open_is_unique(state, chosen.0, chosen.1, i, j);
            }
        }
    }

    /// A builder for `size` assets, with nothing answered yet.
    pub fn new(size: usize) -> (r: Self)
        ensures
            r@ == BuildState::start(size as nat),
            r@.rates_finite(),
    {
        let mut rows: Vec<Vec<Amount>> = Vec::new();
        let mut current: Vec<Amount> = Vec::new();
        if size > 0 {
            current.push(Amount::one());
            if size == 1 {
                rows.push(current);
                current = Vec::new();
            }
        }
        let r = RateMatrixBuilder { size, rows, current, failure: None };
        assert(r@.recorded =~= Map::empty());
        r
    }

    /// The number of assets.
    pub fn size(&self) -> (r: usize)
        ensures
            r == self@.size,
    {
        self.size
    }

    /// The pair to ask the oracle about next, as base and target.
    pub fn pending(&self) -> (r: Option<(usize, usize)>)
        ensures
            self@.rates_finite(),
            match r {
                Some(pair) => self@.pending() == Some((pair.0 as int, pair.1 as int)),
                None => self@.pending().is_none(),
            },
    {
        proof {
            use_type_invariant(self);
            self.cursor_is_first_open();
        }
        if self.failure.is_some() || self.rows.len() >= self.size {
            None
        } else {
            Some((self.rows.len(), self.current.len()))
        }
    }

    /// Takes the oracle's answer for the pending pair.
    pub fn record(self, answer: Result<Amount, OracleFault>) -> (next: Self)
        ensures
            next@ == self@.after(answer),
            next@.rates_finite(),
    {
        proof {
            use_type_invariant(&self);
            self.cursor_is_first_open();
        }
        if self.failure.is_some() || self.rows.len() >= self.size {
            return self;
        }
        let base = self.rows.len();
        let target = self.current.len();
        let rate = match answer {
            Ok(rate) => {
                if rate.is_finite() {
                    rate
                } else {
                    return self.fail(base, target, OracleFault::NonFinitePrice);
                }
            },
            Err(fault) => {
                return self.fail(base, target, fault);
            },
        };
        let ghost before = self;
        let size = self.size;
        let mut rows = self.rows;
        let mut current = self.current;
        current.push(rate);
        if current.len() == base && current.len() < size {
            current.push(Amount::one());
        }
        if current.len() == size {
            rows.push(current);
            current = Vec::new();
        }
        let next = RateMatrixBuilder { size, rows, current, failure: None };
        assert(next@.recorded =~= before@.recorded.insert((base as int, target as int), rate));
        next
    }

    fn fail(self, base: usize, target: usize, fault: OracleFault) -> (next: Self)
        requires
            self@.failure.is_none(),
        ensures
            next@ == (BuildState { failure: Some(OracleError { base, target, fault }), ..self@ }),
    {
        proof {
            use_type_invariant(&self);
        }
        let next = RateMatrixBuilder {
            size: self.size,
            rows: self.rows,
            current: self.current,
            failure: Some(OracleError { base, target, fault }),
        };
        assert(next@.recorded =~= self@.recorded);
        next
    }

    /// Closes the build. A partial matrix is never handed out.
    pub fn finish(self) -> (r: Result<Vec<Vec<Amount>>, OracleError>)
        ensures
            self@.rates_finite(),
            match r {
                Ok(prices) => self@.outcome() == Ok::<Seq<Seq<Amount>>, OracleError>(table(&prices)),
                Err(error) => self@.outcome() == Err::<Seq<Seq<Amount>>, OracleError>(error),
            },
    {
        proof {
            use_type_invariant(&self);
            self.cursor_is_first_open();
        }
        match self.failure {
            Some(error) => Err(error),
            None => {
                if self.rows.len() < self.size {
                    Err(
                        OracleError {
                            base: self.rows.len(),
                            target: self.current.len(),
                            fault: OracleFault::MissingPrice,
                        },
                    )
                } else {
                    let prices = self.rows;
                    proof {
                        assert forall|i: int| 0 <= i < self.size implies #[trigger] table(&prices)[i]
                            =~= self@.matrix()[i] by {
                            assert(self.rows@[i]@.len() == self.size);
                            assert forall|j: int| 0 <= j < self.size implies table(&prices)[i][j]
                                == self@.matrix()[i][j] by {
                                if i != j {
                                    assert(self.answered(i, j));
                                }
                            }
                        }
                        assert(table(&prices) =~= self@.matrix());
                    }
                    Ok(prices)
                }
            },
        }
    }
}

} // verus!
