use alacritty::index::{Column, Line, Point, RangeInclusive};

#[test]
fn test_range() {
    let mut range = RangeInclusive::new(1u8, 10);
    let mut values = Vec::new();
    while let Some(v) = range.next() {
        values.push(v);
    }
    assert_eq!(values, vec![1, 2, 3, 4, 5, 6, 7, 8, 9, 10]);
}

#[test]
fn location_ordering() {
    assert!(Point::new(Line(0), Column(0)) == Point::new(Line(0), Column(0)));
    assert!(Point::new(Line(1), Column(0)) > Point::new(Line(0), Column(0)));
    assert!(Point::new(Line(0), Column(1)) > Point::new(Line(0), Column(0)));
    assert!(Point::new(Line(1), Column(1)) > Point::new(Line(0), Column(0)));
    assert!(Point::new(Line(1), Column(1)) > Point::new(Line(0), Column(1)));
    assert!(Point::new(Line(1), Column(1)) > Point::new(Line(1), Column(0)));
}
