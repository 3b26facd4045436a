use limit::Limit;

#[test]
fn from_bound_ints() {
    assert_eq!(5i32.limit(3..), 5);
    assert_eq!(2i32.limit(3..), 3);
    assert_eq!(3i32.limit(3..), 3);
    assert_eq!((-10i32).limit(0..), 0);
}

#[test]
fn to_inclusive_bound_ints() {
    assert_eq!(9i32.limit(..=7), 7);
    assert_eq!(5i32.limit(..=7), 5);
    assert_eq!(7i32.limit(..=7), 7);
    assert_eq!(255u8.limit(..=10), 10);
}

#[test]
fn inclusive_bound_ints() {
    assert_eq!(5i32.limit(3..=7), 5);
    assert_eq!(2i32.limit(3..=7), 3);
    assert_eq!(9i32.limit(3..=7), 7);
}

#[test]
fn inclusive_bound_degenerate() {
    assert_eq!(5i32.limit(5..=5), 5);
    assert_eq!(4i32.limit(5..=5), 5);
    assert_eq!(6i32.limit(5..=5), 5);
}

#[test]
fn full_bound_identity() {
    assert_eq!(5i32.limit(..), 5);
    assert_eq!(i32::MIN.limit(..), i32::MIN);
    assert_eq!(i32::MAX.limit(..), i32::MAX);
    assert_eq!(u64::MAX.limit(..), u64::MAX);
}

#[test]
fn from_bound_agrees_with_max() {
    let values = [i32::MIN, -7, -1, 0, 1, 6, i32::MAX];
    for v in values {
        for start in values {
            assert_eq!(v.limit(start..), v.max(start));
        }
    }
}

#[test]
fn to_inclusive_bound_agrees_with_min() {
    let values = [i32::MIN, -7, -1, 0, 1, 6, i32::MAX];
    for v in values {
        for end in values {
            assert_eq!(v.limit(..=end), v.min(end));
        }
    }
}

#[test]
fn inclusive_bound_lands_in_range() {
    let values = [i64::MIN, -3, 0, 4, 9, i64::MAX];
    for v in values {
        for start in values {
            for end in values {
                if start <= end {
                    let r = v.limit(start..=end);
                    assert!(start <= r && r <= end);
                    if start <= v && v <= end {
                        assert_eq!(r, v);
                    }
                }
            }
        }
    }
}

#[test]
fn other_ordered_types() {
    assert_eq!('c'.limit('a'..='b'), 'b');
    assert_eq!('c'.limit('d'..), 'd');
    assert_eq!("pear".limit(..), "pear");
    assert_eq!("ab".limit("m"..), "m");
    assert_eq!("q".limit(..="m"), "m");
    assert_eq!(false.limit(true..=true), true);
}
