use fennec::series::{differentiate, Differentiate};

#[test]
fn test_deltas() {
    let series: Vec<(i64, i64)> = vec![(2, 100), (3, 200), (5, 600)];
    let diff: Vec<_> = series.deltas();
    assert_eq!(diff, vec![(2..3, 100), (3..5, 400)]);
}

#[test]
fn deltas_of_short_series_are_empty() {
    let empty: Vec<(i64, i64)> = vec![];
    assert!(empty.deltas().is_empty());
    let single: Vec<(i64, i64)> = vec![(1, 5)];
    assert!(single.deltas().is_empty());
}

#[test]
fn deltas_telescope() {
    let series: Vec<(i64, i64)> = vec![(0, 10), (4, -3), (6, 7), (9, 7), (10, 1)];
    let deltas = series.deltas();
    let total: i64 = deltas.iter().map(|(_, delta)| delta).sum();
    assert_eq!(total, 1 - 10);
    for pair in deltas.windows(2) {
        assert_eq!(pair[0].0.end, pair[1].0.start);
    }
}

#[test]
fn differentiate_divides_by_key_span() {
    let deltas = vec![(2..3, 100), (3..5, 400), (5..9, -10), (9..7, 7)];
    assert_eq!(differentiate(&deltas), vec![(2..3, 100), (3..5, 200), (5..9, -2), (9..7, -3)]);
}

#[test]
fn differentiate_rounds_towards_zero() {
    let deltas = vec![(0..3, 10), (0..3, -10), (3..0, 10), (3..0, -10)];
    assert_eq!(differentiate(&deltas), vec![(0..3, 3), (0..3, -3), (3..0, -3), (3..0, 3)]);
}
