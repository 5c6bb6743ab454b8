use dex::{
    calc_triangle_arbitrage_opportunity, cycle_rates, directed_cycles, select_opportunity, validate,
    Amount, ArbitrageOpportunity, Cycle, CycleValuation, ValidationError,
};

fn amount(value: f64) -> Amount {
    Amount::from_bits(value.to_bits())
}

fn number(amount: Amount) -> f64 {
    f64::from_bits(amount.to_bits())
}

fn matrix(rows: [[f64; 3]; 3]) -> Vec<Vec<Amount>> {
    rows.iter().map(|row| row.iter().map(|rate| amount(*rate)).collect()).collect()
}

/// Values every directed cycle the way a host does: in floating point.
fn value_cycles(prices: &Vec<Vec<Amount>>, investment: f64) -> [CycleValuation; 6] {
    let mut valued = [CycleValuation { final_amount: amount(0.0), profit: amount(0.0) }; 6];
    for (n, cycle) in directed_cycles().iter().enumerate() {
        let rates = cycle_rates(prices, cycle).expect("a three by three matrix");
        let final_amount = investment
            * number(rates.outbound)
            * number(rates.onward)
            * number(rates.homebound);
        valued[n] = CycleValuation {
            final_amount: amount(final_amount),
            profit: amount(final_amount - investment),
        };
    }
    valued
}

fn detect(
    rows: [[f64; 3]; 3],
    investment: f64,
    min_profit_ratio: f64,
) -> Result<ArbitrageOpportunity, ValidationError> {
    let prices = matrix(rows);
    let valued = match validate(&prices) {
        Ok(()) => value_cycles(&prices, investment),
        Err(_) => [CycleValuation { final_amount: amount(0.0), profit: amount(0.0) }; 6],
    };
    let threshold = amount(investment * (1.0 + min_profit_ratio));
    calc_triangle_arbitrage_opportunity(&prices, &valued, threshold)
}

#[test]
fn flat_rates_hold_no_opportunity() {
    let found = detect([[1.0, 1.0, 1.0], [1.0, 1.0, 1.0], [1.0, 1.0, 1.0]], 1000.0, 0.01).unwrap();
    assert!(!found.has_opportunity);
    assert!(found.indices.is_empty());
    assert_eq!(number(found.profit), 0.0);
    assert_eq!(found.profit.to_bits(), 0);
}

#[test]
fn two_percent_cycle_is_an_opportunity() {
    let rows = [[1.0, 1.0, 1.0], [1.0, 1.0, 1.02], [1.0, 1.0 / 1.02, 1.0]];
    let found = detect(rows, 1000.0, 0.01).unwrap();
    assert!(found.has_opportunity);
    assert_eq!(found.indices, vec![0, 1, 2]);
    assert_eq!(number(found.profit), 1000.0 * 1.0 * 1.02 * 1.0 - 1000.0);
    assert!((number(found.profit) - 20.0).abs() < 1e-9);
}

#[test]
fn first_cycle_in_scan_order_wins_over_a_richer_one() {
    // 0 -> 1 -> 2 -> 0 gains 5 %, 0 -> 2 -> 1 -> 0 gains 50 %: the scan meets the former first.
    let rows = [[1.0, 1.05, 1.5], [1.0, 1.0, 1.0], [1.0, 1.0, 1.0]];
    let found = detect(rows, 1000.0, 0.01).unwrap();
    assert!(found.has_opportunity);
    assert_eq!(found.indices, vec![0, 1, 2]);
    assert_eq!(number(found.profit), 1000.0 * 1.05 * 1.0 * 1.0 - 1000.0);
}

#[test]
fn reverse_direction_is_found_when_the_forward_one_loses() {
    let rows = [[1.0, 0.9, 1.05], [1.0, 1.0, 1.0], [1.0, 1.0, 1.0]];
    let found = detect(rows, 1000.0, 0.01).unwrap();
    assert!(found.has_opportunity);
    assert_eq!(found.indices, vec![0, 2, 1]);
    assert_eq!(number(found.profit), 1000.0 * 1.05 * 1.0 * 1.0 - 1000.0);
}

#[test]
fn gain_at_the_threshold_is_no_opportunity() {
    let threshold = amount(1010.0);
    let at = CycleValuation { final_amount: amount(1010.0), profit: amount(10.0) };
    let found = select_opportunity(&[at; 6], threshold);
    assert!(!found.has_opportunity);
    assert!(found.indices.is_empty());
    assert_eq!(found.profit, Amount::zero());
}

#[test]
fn only_qualifying_cycle_is_reported_with_its_profit() {
    let below = CycleValuation { final_amount: amount(1000.0), profit: amount(0.0) };
    let above = CycleValuation { final_amount: amount(1010.5), profit: amount(10.5) };
    let expected = [[0, 1, 2], [0, 2, 1], [1, 0, 2], [1, 2, 0], [2, 0, 1], [2, 1, 0]];
    for n in 0..6 {
        let mut valued = [below; 6];
        valued[n] = above;
        let found = select_opportunity(&valued, amount(1010.0));
        assert!(found.has_opportunity);
        assert_eq!(found.indices, expected[n].to_vec());
        assert_eq!(number(found.profit), 10.5);
    }
}

#[test]
fn valuation_that_is_not_a_number_never_qualifies() {
    let nan = CycleValuation { final_amount: amount(f64::NAN), profit: amount(f64::NAN) };
    let found = select_opportunity(&[nan; 6], amount(0.0));
    assert!(!found.has_opportunity);
}

#[test]
fn scan_order_is_the_dictionary_order_of_the_six_cycles() {
    let cycles = directed_cycles();
    let expected = [(0, 1, 2), (0, 2, 1), (1, 0, 2), (1, 2, 0), (2, 0, 1), (2, 1, 0)];
    assert_eq!(cycles.len(), 6);
    for (cycle, (first, second, third)) in cycles.iter().zip(expected) {
        assert_eq!(*cycle, Cycle { first, second, third });
        assert_eq!(cycle.to_path(), vec![first, second, third]);
    }
}

#[test]
fn cycle_rates_follow_the_conversions() {
    let prices = matrix([[1.0, 2.0, 3.0], [4.0, 1.0, 6.0], [7.0, 8.0, 1.0]]);
    let rates = cycle_rates(&prices, &Cycle { first: 1, second: 2, third: 0 }).unwrap();
    assert_eq!(number(rates.outbound), 6.0);
    assert_eq!(number(rates.onward), 7.0);
    assert_eq!(number(rates.homebound), 2.0);
    assert_eq!(cycle_rates(&prices, &Cycle { first: 0, second: 1, third: 3 }), None);
    let ragged = vec![vec![amount(1.0)], vec![amount(1.0), amount(1.0)]];
    assert_eq!(cycle_rates(&ragged, &Cycle { first: 0, second: 1, third: 0 }), None);
}

#[test]
fn diagonal_other_than_one_is_refused() {
    for i in 0..3 {
        let mut rows = [[1.0, 2.0, 0.5], [0.5, 1.0, 4.0], [2.0, 0.25, 1.0]];
        rows[i][i] = 1.0000001;
        assert_eq!(detect(rows, 1000.0, 0.01), Err(ValidationError::InvalidDiagonal));
        rows[i][i] = 0.0;
        assert_eq!(detect(rows, 1000.0, 0.01), Err(ValidationError::InvalidDiagonal));
        rows[i][i] = f64::NAN;
        assert_eq!(detect(rows, 1000.0, 0.01), Err(ValidationError::InvalidDiagonal));
    }
}

#[test]
fn diagonal_fault_is_reported_before_a_rate_fault() {
    let rows = [[1.0, -1.0, 0.0], [0.5, 1.0, 4.0], [2.0, 0.25, 2.0]];
    assert_eq!(detect(rows, 1000.0, 0.01), Err(ValidationError::InvalidDiagonal));
}

#[test]
fn rate_that_is_not_above_zero_is_refused() {
    for i in 0..3 {
        for j in 0..3 {
            if i == j {
                continue;
            }
            for bad in [0.0, -0.0, -1.5, f64::NEG_INFINITY, f64::INFINITY, f64::NAN] {
                let mut rows = [[1.0, 2.0, 0.5], [0.5, 1.0, 4.0], [2.0, 0.25, 1.0]];
                rows[i][j] = bad;
                assert_eq!(detect(rows, 1000.0, 0.01), Err(ValidationError::InvalidRate));
            }
        }
    }
}

#[test]
fn valid_matrix_is_never_refused() {
    let rows = [[1.0, 5e-324, 1e300], [f64::MAX, 1.0, 0.3], [7.0, f64::MIN_POSITIVE, 1.0]];
    assert!(detect(rows, 1000.0, 0.01).is_ok());
}

#[test]
fn matrix_of_another_shape_is_refused() {
    let valued = [CycleValuation { final_amount: amount(0.0), profit: amount(0.0) }; 6];
    let one = amount(1.0);
    let shapes: Vec<Vec<Vec<Amount>>> = vec![
        vec![],
        vec![vec![one, one], vec![one, one]],
        vec![vec![one; 3], vec![one; 3]],
        vec![vec![one; 3], vec![one; 2], vec![one; 3]],
        vec![vec![one; 4]; 4],
        vec![vec![one; 3], vec![one; 3], vec![one; 4]],
    ];
    for prices in shapes {
        assert_eq!(validate(&prices), Err(ValidationError::WrongDimension));
        assert_eq!(
            calc_triangle_arbitrage_opportunity(&prices, &valued, amount(1.0)),
            Err(ValidationError::WrongDimension)
        );
    }
}

#[test]
fn search_gives_the_same_result_twice() {
    let rows = [[1.0, 1.0, 1.0], [1.0, 1.0, 1.02], [1.0, 1.0 / 1.02, 1.0]];
    assert_eq!(detect(rows, 1000.0, 0.01), detect(rows, 1000.0, 0.01));
    let bad = [[1.0, 1.0, 1.0], [1.0, 1.0, -1.0], [1.0, 1.0, 1.0]];
    assert_eq!(detect(bad, 1000.0, 0.01), detect(bad, 1000.0, 0.01));
}

#[test]
fn validation_messages() {
    assert_eq!(ValidationError::InvalidDiagonal.message(), "Invalid conversion rate at diagonal");
    assert_eq!(ValidationError::InvalidRate.message(), "Invalid conversion rate");
    assert_eq!(ValidationError::WrongDimension.message(), "Invalid matrix dimension");
}
