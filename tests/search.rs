use golden_section::search::SearchState;
use golden_section::{
    golden_section_search, golden_section_trace, SearchError, UnimodalProblem, Value, MIN_XTOL,
    TICKS_PER_UNIT,
};

const U: i64 = TICKS_PER_UNIT;

fn problem(x_offset: i64, scale_factor: i64) -> UnimodalProblem {
    UnimodalProblem { x_offset, scale_factor }
}

#[test]
fn minimizer_near_offset_on_symmetric_bracket() {
    let p = problem(0, -U);
    let (x, v) = golden_section_search(&p, -10 * U, 10 * U, U / 100).unwrap();
    assert!(x.abs() <= U / 100, "estimate {} too far from 0", x);
    assert!(v.is_less_than(&p.calc(5 * U)));
}

#[test]
fn minimizer_converges_as_tolerance_shrinks() {
    let p = problem(3 * U, -U);
    for xtol in [U, U / 10, U / 1000, 100, 2] {
        let (x, _) = golden_section_search(&p, -50 * U, 50 * U, xtol).unwrap();
        assert!((x - 3 * U).abs() <= xtol, "xtol {}: estimate {}", xtol, x);
    }
}

#[test]
fn pole_with_negative_scale_is_found() {
    let p = problem(5 * U, -2 * U);
    let (x, v) = golden_section_search(&p, -200 * U, 200 * U, 2 * U).unwrap();
    assert!((x - 5 * U).abs() <= 2 * U, "estimate {}", x);
    assert!(v.is_less_than(&p.calc(-150 * U)));
    assert!(v.is_less_than(&p.calc(150 * U)));
}

#[test]
fn positive_scale_moves_away_from_pole() {
    // With a positive scale the pole is a maximum; the smallest value on
    // the bracket lies at its end farthest from the pole.
    let p = problem(5 * U, 2 * U);
    let (x, v) = golden_section_search(&p, -200 * U, 200 * U, 2 * U).unwrap();
    assert!(x <= -198 * U, "estimate {}", x);
    assert!(v.is_less_than(&p.calc(4 * U)));
}

#[test]
fn search_is_deterministic() {
    let p = problem(-17 * U, -7 * U);
    let a = golden_section_search(&p, -200 * U, 200 * U, 1000);
    let b = golden_section_search(&p, -200 * U, 200 * U, 1000);
    assert_eq!(a, b);
    let ta = golden_section_trace(&p, -200 * U, 200 * U, 1000);
    let tb = golden_section_trace(&p, -200 * U, 200 * U, 1000);
    assert_eq!(ta, tb);
}

#[test]
fn narrow_bracket_is_not_narrowed() {
    let p = problem(0, -3);
    assert_eq!(
        golden_section_search(&p, 0, 10, 10),
        Ok((5, Value::Finite { num: -3, den: 5 }))
    );
    assert_eq!(golden_section_trace(&p, 0, 10, 10), Ok(vec![]));
    assert_eq!(
        golden_section_search(&p, -7, -4, 3),
        Ok((-6, Value::Finite { num: -3, den: 6 }))
    );
}

#[test]
fn final_bracket_within_tolerance() {
    let p = problem(11 * U, 4 * U);
    for xtol in [2, 17, 1000, U] {
        let t = golden_section_trace(&p, -200 * U, 200 * U, xtol).unwrap();
        let (lo, hi) = *t.last().unwrap();
        assert!(hi - lo <= xtol);
        assert!(lo < hi);
        for &(a, b) in &t[..t.len() - 1] {
            assert!(b - a > xtol);
        }
    }
}

fn golden_shrink(after: i64, before: i64) -> bool {
    let num: i128 = 381_966_011_250_105_152;
    let den: i128 = 1_000_000_000_000_000_000;
    (after as i128) * den <= (den - num) * (before as i128) + 3 * den
}

#[test]
fn each_iteration_shrinks_by_golden_fraction() {
    for (offset, scale, xtol) in [(-31 * U, -9 * U, 100), (7 * U, 3 * U, 2), (0, 0, 2), (49 * U, -U, 5)] {
        let p = problem(offset, scale);
        let t = golden_section_trace(&p, -200 * U, 200 * U, xtol).unwrap();
        let mut prev = (-200 * U, 200 * U);
        for &(lo, hi) in &t {
            assert!(prev.0 <= lo && hi <= prev.1);
            assert!(hi - lo < prev.1 - prev.0);
            assert!(golden_shrink(hi - lo, prev.1 - prev.0), "{:?} after {:?}", (lo, hi), prev);
            prev = (lo, hi);
        }
        assert!(t.len() > 10);
    }
}

#[test]
fn first_iteration_cuts_at_golden_point() {
    let p = problem(0, -U);
    let t = golden_section_trace(&p, -1000, 1000, 2).unwrap();
    // lower probe at -1000 + 763, upper probe at 1000 - 763
    assert_eq!(t[0], (-237, 1000));
}

#[test]
fn reversed_or_empty_bracket_is_refused() {
    let p = problem(0, -U);
    assert_eq!(golden_section_search(&p, 5, 5, 10), Err(SearchError::InvalidBracket));
    assert_eq!(golden_section_search(&p, 10, -10, 10), Err(SearchError::InvalidBracket));
    assert_eq!(golden_section_trace(&p, 10, -10, 10), Err(SearchError::InvalidBracket));
}

#[test]
fn small_tolerance_is_refused() {
    let p = problem(0, -U);
    assert_eq!(MIN_XTOL, 2);
    assert_eq!(golden_section_search(&p, -10, 10, 1), Err(SearchError::InvalidTolerance));
    assert_eq!(golden_section_search(&p, -10, 10, 0), Err(SearchError::InvalidTolerance));
    assert_eq!(golden_section_search(&p, -10, 10, -5), Err(SearchError::InvalidTolerance));
    assert_eq!(golden_section_trace(&p, -10, 10, 0), Err(SearchError::InvalidTolerance));
}

#[test]
fn whole_grid_bracket_is_searched() {
    let p = problem(0, -1);
    let (x, _) = golden_section_search(&p, i64::MIN, i64::MAX, 2).unwrap();
    assert!(x.abs() <= 2);
}

#[test]
fn search_state_is_plain_data() {
    let s = SearchState {
        lower_bound: 0,
        upper_bound: 10,
        lower_probe: 3,
        upper_probe: 7,
        lower_value: Value::NegInf,
        upper_value: Value::PosInf,
    };
    assert_eq!(s, s.clone());
}

#[test]
fn exact_trace_with_pole_at_lower_end() {
    // The probes crowd against the pole at the lower end; at width twelve
    // the reused probe has drifted and both probes are placed afresh.
    let p = problem(0, -1);
    let t = golden_section_trace(&p, 0, 1000, 2).unwrap();
    assert_eq!(
        t,
        vec![
            (0, 619),
            (0, 381),
            (0, 236),
            (0, 145),
            (0, 90),
            (0, 55),
            (0, 34),
            (0, 21),
            (0, 12),
            (0, 8),
            (0, 4),
            (0, 3),
            (0, 2)
        ]
    );
    assert_eq!(
        golden_section_search(&p, 0, 1000, 2),
        Ok((1, Value::Finite { num: -1, den: 1 }))
    );
}

#[test]
fn exact_trace_with_pole_inside() {
    let p = problem(333, -1);
    let t = golden_section_trace(&p, 0, 1000, 2).unwrap();
    assert_eq!(
        t,
        vec![
            (0, 619),
            (236, 619),
            (236, 473),
            (236, 381),
            (291, 381),
            (291, 347),
            (312, 347),
            (326, 347),
            (326, 339),
            (330, 339),
            (330, 336),
            (332, 336),
            (332, 335),
            (332, 334)
        ]
    );
    assert_eq!(golden_section_search(&p, 0, 1000, 2), Ok((333, Value::NegInf)));
}

#[test]
fn exact_result_with_positive_scale() {
    let p = problem(500, 5);
    let t = golden_section_trace(&p, -1000, 1000, 10).unwrap();
    assert_eq!(t.len(), 11);
    assert_eq!(t[0], (-1000, 237));
    assert_eq!(t[10], (-1000, -991));
    assert_eq!(
        golden_section_search(&p, -1000, 1000, 10),
        Ok((-996, Value::Finite { num: 5, den: 1496 }))
    );
}
