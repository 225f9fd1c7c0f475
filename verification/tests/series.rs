use series_diag::oracle::closed_form_fraction;
use series_diag::terms::{term_denominators_ascending, term_denominators_descending};

fn sum_ascending_f32(n: u32) -> f32 {
    let mut s: f32 = 0.0;
    for d in term_denominators_ascending(n) {
        s += 1.0 / (d as f32);
    }
    s
}

fn sum_descending_f32(n: u32) -> f32 {
    let mut s: f32 = 0.0;
    for d in term_denominators_descending(n) {
        s += 1.0 / (d as f32);
    }
    s
}

fn oracle_f64(n: u32) -> f64 {
    let (num, den) = closed_form_fraction(n);
    num as f64 / den as f64
}

#[test]
fn term_denominators_small_n() {
    assert_eq!(term_denominators_ascending(0), Vec::<u64>::new());
    assert_eq!(term_denominators_ascending(1), Vec::<u64>::new());
    assert_eq!(term_denominators_ascending(2), vec![3]);
    assert_eq!(term_denominators_ascending(5), vec![3, 8, 15, 24]);
    assert_eq!(term_denominators_descending(5), vec![24, 15, 8, 3]);
    assert_eq!(term_denominators_descending(2), vec![3]);
    assert_eq!(term_denominators_descending(1), Vec::<u64>::new());
}

#[test]
fn descending_is_reverse_of_ascending() {
    for n in [2u32, 3, 10, 100, 10000] {
        let asc = term_denominators_ascending(n);
        let desc = term_denominators_descending(n);
        let mut rev = asc.clone();
        rev.reverse();
        assert_eq!(desc, rev);
        let mut asc_sorted = asc.clone();
        let mut desc_sorted = desc.clone();
        asc_sorted.sort();
        desc_sorted.sort();
        assert_eq!(asc_sorted, desc_sorted);
    }
}

#[test]
fn oracle_fraction_n100() {
    let (num, den) = closed_form_fraction(100);
    assert_eq!(num, 29898);
    assert_eq!(den, 40400);
    let value = oracle_f64(100);
    assert!((value - 0.740049504950495).abs() < 1e-15);
}

#[test]
fn oracle_matches_direct_formula() {
    for n in 2u32..=2000 {
        let fraction = oracle_f64(n);
        let formula = 0.5 * (1.5 - 1.0 / (n as f64) - 1.0 / ((n + 1) as f64));
        assert!(
            (fraction - formula).abs() <= 1e-15 * formula.abs(),
            "n={}: fraction {} vs formula {}",
            n,
            fraction,
            formula
        );
    }
}

#[test]
fn scenario_n100_both_orders_near_oracle() {
    let oracle = oracle_f64(100);
    let asc = sum_ascending_f32(100) as f64;
    let desc = sum_descending_f32(100) as f64;
    assert!((oracle - asc).abs() < 1e-6, "ascending error {}", oracle - asc);
    assert!((oracle - desc).abs() < 1e-6, "descending error {}", oracle - desc);
}

#[test]
fn scenario_n10000_order_dependent_error() {
    let oracle = oracle_f64(10000);
    let err_asc = (oracle - sum_ascending_f32(10000) as f64).abs();
    let err_desc = (oracle - sum_descending_f32(10000) as f64).abs();
    // The two orders sum the same terms yet land measurably apart; adding the
    // small tail terms first (descending index) loses less to rounding here.
    assert!(err_asc != err_desc, "errors unexpectedly equal: {}", err_asc);
    assert!(
        err_desc < err_asc,
        "descending error {} not below ascending error {}",
        err_desc,
        err_asc
    );
    assert!(err_asc < 1e-3, "ascending error unexpectedly large: {}", err_asc);
    assert!(err_desc < 1e-6, "descending error unexpectedly large: {}", err_desc);
}

#[test]
fn error_grows_with_n_for_fixed_order() {
    let err = |n: u32| (oracle_f64(n) - sum_ascending_f32(n) as f64).abs();
    let e100 = err(100);
    let e10000 = err(10000);
    let e1000000 = err(1000000);
    assert!(e100 <= e10000 && e10000 <= e1000000);
}

#[test]
fn accumulators_are_idempotent() {
    for n in [2u32, 100, 10000] {
        assert_eq!(term_denominators_ascending(n), term_denominators_ascending(n));
        assert_eq!(term_denominators_descending(n), term_denominators_descending(n));
        assert_eq!(closed_form_fraction(n), closed_form_fraction(n));
        assert_eq!(
            sum_ascending_f32(n).to_bits(),
            sum_ascending_f32(n).to_bits()
        );
        assert_eq!(
            sum_descending_f32(n).to_bits(),
            sum_descending_f32(n).to_bits()
        );
    }
}

#[test]
fn scenario_harmonic_order_error() {
    let mut asc: f32 = 0.0;
    for i in 1u32..=1_000_000 {
        asc += 1.0 / (i as f32);
    }
    let mut desc: f32 = 0.0;
    for i in (1u32..=1_000_000).rev() {
        desc += 1.0 / (i as f32);
    }
    let mut double: f64 = 0.0;
    for i in 1u32..=1_000_000 {
        double += 1.0 / (i as f64);
    }
    let diff = (asc as f64 - desc as f64).abs();
    assert!(diff > 0.0, "orders agree unexpectedly");
    // The double-precision total is not bracketed by the two single-precision
    // sums here, but it is far closer to the larger, descending-order one.
    assert!(
        (double - desc as f64).abs() < (double - asc as f64).abs(),
        "double {} not closer to descending {} than to ascending {}",
        double,
        desc,
        asc
    );
}
