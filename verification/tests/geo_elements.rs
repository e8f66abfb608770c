//! The owned collection holding line strings of the `geo-types` geometry
//! library as its elements.

use geo_traits::MultiLineString;
use geo_traits::MultiLineStringTrait;
use geo_types::Coord;
use geo_types::LineString;

fn line(points: &[(i64, i64)]) -> LineString<i64> {
    LineString::new(points.iter().map(|&(x, y)| Coord { x, y }).collect())
}

#[test]
fn geo_elements_indexed_access() {
    let a = line(&[(0, 0), (10, 0)]);
    let b = line(&[(5, 5), (5, 15), (15, 15)]);
    let m = MultiLineString::new(vec![a.clone(), b.clone()]);
    assert_eq!(m.num_line_strings(), 2);
    assert_eq!(m.line_string(0), Some(&a));
    assert_eq!(m.line_string(1), Some(&b));
    assert_eq!(m.line_string(2), None);
    assert_eq!(m.line_string_unchecked(1), &b);
}

#[test]
fn geo_elements_round_trip_in_order() {
    let original = vec![
        line(&[(0, 0), (1, 1)]),
        line(&[(2, 2), (3, 3)]),
        line(&[(4, 4), (5, 5), (6, 6)]),
    ];
    let m = MultiLineString::new(original.clone());
    let read_back: Vec<LineString<i64>> =
        m.line_strings().collect().into_iter().cloned().collect();
    assert_eq!(read_back, original);
}

#[test]
fn geo_float_elements_iteration() {
    let a: LineString<f64> = LineString::new(vec![
        Coord { x: 0.0, y: 0.0 },
        Coord { x: 2.5, y: 0.5 },
    ]);
    let b: LineString<f64> = LineString::new(vec![
        Coord { x: 1.0, y: 1.0 },
        Coord { x: 1.0, y: 4.0 },
    ]);
    let m = MultiLineString::new(vec![a.clone(), b.clone()]);
    let mut iter = m.line_strings();
    assert_eq!(iter.len(), 2);
    assert_eq!(iter.next_back(), Some(&b));
    assert_eq!(iter.next(), Some(&a));
    assert_eq!(iter.next(), None);
}
