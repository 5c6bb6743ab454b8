use dex::{validate, Amount, OracleError, OracleFault, RateMatrixBuilder, ValidationError};

fn amount(value: f64) -> Amount {
    Amount::from_bits(value.to_bits())
}

fn number(amount: Amount) -> f64 {
    f64::from_bits(amount.to_bits())
}

/// Runs a build to its end against an oracle given as a function of the pair.
fn build(
    size: usize,
    oracle: impl Fn(usize, usize) -> Result<f64, OracleFault>,
) -> (Result<Vec<Vec<Amount>>, OracleError>, Vec<(usize, usize)>) {
    let mut builder = RateMatrixBuilder::new(size);
    let mut asked = Vec::new();
    while let Some((base, target)) = builder.pending() {
        asked.push((base, target));
        builder = builder.record(oracle(base, target).map(amount));
    }
    (builder.finish(), asked)
}

#[test]
fn pairs_are_asked_row_by_row_without_the_diagonal() {
    let (_, asked) = build(3, |_, _| Ok(2.0));
    assert_eq!(asked, vec![(0, 1), (0, 2), (1, 0), (1, 2), (2, 0), (2, 1)]);
    let (_, asked) = build(2, |_, _| Ok(2.0));
    assert_eq!(asked, vec![(0, 1), (1, 0)]);
    let (_, asked) = build(4, |_, _| Ok(2.0));
    assert_eq!(asked.len(), 12);
    assert_eq!(asked[3], (1, 0));
    assert_eq!(asked[11], (3, 2));
}

#[test]
fn each_answer_lands_at_its_pair() {
    let (built, _) = build(3, |base, target| Ok((10 * base + target) as f64));
    let prices = built.unwrap();
    assert_eq!(prices.len(), 3);
    for i in 0..3 {
        assert_eq!(prices[i].len(), 3);
        for j in 0..3 {
            let expected = if i == j { 1.0 } else { (10 * i + j) as f64 };
            assert_eq!(number(prices[i][j]), expected);
        }
    }
}

#[test]
fn diagonal_is_exactly_one() {
    let (built, _) = build(3, |_, _| Ok(0.5));
    let prices = built.unwrap();
    for i in 0..3 {
        assert_eq!(prices[i][i].to_bits(), 1.0f64.to_bits());
    }
    assert_eq!(validate(&prices), Ok(()));
}

#[test]
fn failed_quote_ends_the_build_without_a_matrix() {
    let (built, asked) = build(3, |base, target| {
        if (base, target) == (1, 2) {
            Err(OracleFault::Network)
        } else {
            Ok(1.5)
        }
    });
    assert_eq!(built, Err(OracleError { base: 1, target: 2, fault: OracleFault::Network }));
    assert_eq!(asked, vec![(0, 1), (0, 2), (1, 0), (1, 2)]);
}

#[test]
fn each_fault_is_carried_with_its_pair() {
    for fault in [
        OracleFault::Network,
        OracleFault::MalformedResponse,
        OracleFault::MissingPrice,
        OracleFault::NonFinitePrice,
    ] {
        let (built, _) = build(3, |_, _| Err(fault));
        assert_eq!(built, Err(OracleError { base: 0, target: 1, fault }));
    }
}

#[test]
fn price_that_is_not_finite_ends_the_build() {
    for bad in [f64::INFINITY, f64::NEG_INFINITY, f64::NAN] {
        let (built, _) = build(3, |base, target| if (base, target) == (2, 0) { Ok(bad) } else { Ok(1.0) });
        assert_eq!(
            built,
            Err(OracleError { base: 2, target: 0, fault: OracleFault::NonFinitePrice })
        );
    }
}

#[test]
fn zero_and_negative_prices_are_recorded_for_validation_to_refuse() {
    let (built, _) = build(3, |base, target| if (base, target) == (0, 2) { Ok(0.0) } else { Ok(1.0) });
    let prices = built.unwrap();
    assert_eq!(number(prices[0][2]), 0.0);
    assert_eq!(validate(&prices), Err(ValidationError::InvalidRate));
    let (built, _) = build(3, |base, target| if (base, target) == (2, 1) { Ok(-3.0) } else { Ok(1.0) });
    let prices = built.unwrap();
    assert_eq!(number(prices[2][1]), -3.0);
    assert_eq!(validate(&prices), Err(ValidationError::InvalidRate));
}

#[test]
fn closing_early_reports_the_pending_pair_as_missing() {
    let builder = RateMatrixBuilder::new(3).record(Ok(amount(1.0)));
    assert_eq!(builder.pending(), Some((0, 2)));
    assert_eq!(
        builder.finish(),
        Err(OracleError { base: 0, target: 2, fault: OracleFault::MissingPrice })
    );
}

#[test]
fn answers_after_the_end_are_dropped() {
    let (built, _) = build(2, |_, _| Ok(2.0));
    let expected = built.unwrap();
    let mut builder = RateMatrixBuilder::new(2);
    builder = builder.record(Ok(amount(2.0)));
    builder = builder.record(Ok(amount(2.0)));
    assert_eq!(builder.pending(), None);
    builder = builder.record(Ok(amount(9.0)));
    builder = builder.record(Err(OracleFault::Network));
    assert_eq!(builder.finish(), Ok(expected));

    let mut failed = RateMatrixBuilder::new(2).record(Err(OracleFault::MissingPrice));
    assert_eq!(failed.pending(), None);
    failed = failed.record(Ok(amount(1.0)));
    assert_eq!(
        failed.finish(),
        Err(OracleError { base: 0, target: 1, fault: OracleFault::MissingPrice })
    );
}

#[test]
fn small_builds_ask_nothing() {
    let (built, asked) = build(0, |_, _| Ok(1.0));
    assert!(asked.is_empty());
    assert_eq!(built, Ok(vec![]));
    let (built, asked) = build(1, |_, _| Ok(1.0));
    assert!(asked.is_empty());
    assert_eq!(built, Ok(vec![vec![amount(1.0)]]));
    assert_eq!(RateMatrixBuilder::new(5).size(), 5);
}
