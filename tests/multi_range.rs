use gcd::multi_range::MultiRange;

#[test]
fn test_covered() {
    let mut mr = MultiRange::new();

    mr.insert(1..5);

    println!("{:?}", mr.pairs());

    assert!(!mr.covered(0));
    assert!(mr.covered(1));
    assert!(mr.covered(4));
    assert!(!mr.covered(5));
}

#[test]
fn test_add_start() {
    let mut mr = MultiRange::new();
    mr.insert(5..10);

    mr.insert(5..6);
    assert_eq!(mr.pairs(), vec![(5, 10)]);

    mr.insert(6..7);
    assert_eq!(mr.pairs(), vec![(5, 10)]);

    mr.insert(5..13);
    assert_eq!(mr.pairs(), vec![(5, 13)]);

    mr.insert(10..15);
    assert_eq!(mr.pairs(), vec![(5, 15)]);

    mr.insert(20..25);

    mr.insert(10..30);
    assert_eq!(mr.pairs(), vec![(5, 30)]);
}

#[test]
fn test_add_end() {
    let mut mr = MultiRange::new();
    mr.insert(10..15);

    mr.insert(10..14);
    assert_eq!(mr.pairs(), vec![(10, 15)]);

    mr.insert(11..14);
    assert_eq!(mr.pairs(), vec![(10, 15)]);

    mr.insert(9..15);
    assert_eq!(mr.pairs(), vec![(9, 15)]);

    mr.insert(7..11);
    assert_eq!(mr.pairs(), vec![(7, 15)]);

    mr.insert(5..6);

    mr.insert(2..15);
    assert_eq!(mr.pairs(), vec![(2, 15)]);
}

#[test]
fn test_add_disjoint() {
    let mut mr = MultiRange::new();
    mr.insert(5..10);

    mr.insert(1..2);
    assert_eq!(mr.pairs(), vec![(1, 2), (5, 10)]);

    mr.insert(11..15);
    assert_eq!(mr.pairs(), vec![(1, 2), (5, 10), (11, 15)]);

    mr.insert(0..20);
    assert_eq!(mr.pairs(), vec![(0, 20)]);
}

#[test]
fn merge_of_touching_ranges_in_any_order() {
    let mut a = MultiRange::new();
    a.insert(5..10);
    a.insert(10..15);
    a.insert(20..25);
    a.insert(10..30);
    assert_eq!(a.pairs(), vec![(5, 30)]);

    let mut b = MultiRange::new();
    b.insert(10..30);
    b.insert(20..25);
    b.insert(5..10);
    b.insert(10..15);
    b.insert(10..15);
    assert_eq!(b.pairs(), a.pairs());
}

#[test]
fn empty_range_changes_nothing() {
    let mut mr = MultiRange::new();
    mr.insert(3..3);
    assert_eq!(mr.pairs(), vec![]);
    mr.insert(4..6);
    #[allow(clippy::reversed_empty_ranges)]
    mr.insert(9..2);
    assert_eq!(mr.pairs(), vec![(4, 6)]);
}

#[test]
fn extend_adds_a_length() {
    let mut mr = MultiRange::new();
    mr.extend(4, 3);
    assert_eq!(mr.pairs(), vec![(4, 7)]);
    mr.extend(7, 0);
    assert_eq!(mr.pairs(), vec![(4, 7)]);
    mr.extend(8, 2);
    assert_eq!(mr.pairs(), vec![(4, 7), (8, 10)]);
}

#[test]
fn covered_range_within_one_interval() {
    let mut mr = MultiRange::new();
    mr.insert(1..5);
    mr.insert(6..9);
    assert!(mr.covered(1..5));
    assert!(mr.covered(2..4));
    assert!(!mr.covered(0..3));
    assert!(!mr.covered(4..7));
    assert!(!mr.covered(1..6));
    assert!(mr.covered(6..9));
    assert!(mr.covered(3..3));
    assert!(!mr.covered(9..10));
}
