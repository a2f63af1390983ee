use asset_balances::{calculate_limit_offset, LIMIT};

#[test]
fn limit_offset() {
    let total = 1000;
    assert_eq!((100, 0), calculate_limit_offset(total, None, None, None, None));
    assert_eq!((100, 101), calculate_limit_offset(total, Some(100), None, None, None));
    assert_eq!((100, 99), calculate_limit_offset(total, None, Some(200), None, None));
    assert_eq!((50, 101), calculate_limit_offset(total, Some(100), None, Some(50), None));
    assert_eq!((50, 149), calculate_limit_offset(total, None, Some(200), None, Some(50)));
    assert_eq!((50, 0), calculate_limit_offset(total, None, None, Some(50), None));
    assert_eq!((100, total - 100), calculate_limit_offset(total, None, None, None, Some(100)));
}

#[test]
fn no_arguments_takes_the_first_rows() {
    assert_eq!((0, 0), calculate_limit_offset(0, None, None, None, None));
    assert_eq!((7, 0), calculate_limit_offset(7, None, None, None, None));
    assert_eq!((100, 0), calculate_limit_offset(100, None, None, None, None));
    assert_eq!((100, 0), calculate_limit_offset(101, None, None, None, None));
}

#[test]
fn after_alone_starts_past_the_cursor() {
    assert_eq!((9, 11), calculate_limit_offset(20, Some(10), None, None, None));
    assert_eq!((0, 20), calculate_limit_offset(20, Some(19), None, None, None));
    assert_eq!((0, 20), calculate_limit_offset(20, Some(50), None, None, None));
    assert_eq!((0, 20), calculate_limit_offset(20, Some(usize::MAX), None, None, None));
}

#[test]
fn before_alone_ends_before_the_cursor() {
    assert_eq!((9, 0), calculate_limit_offset(20, None, Some(10), None, None));
    assert_eq!((0, 0), calculate_limit_offset(20, None, Some(0), None, None));
    assert_eq!((0, 0), calculate_limit_offset(20, None, Some(1), None, None));
    assert_eq!((100, 399), calculate_limit_offset(1000, None, Some(500), None, None));
    assert_eq!((20, 0), calculate_limit_offset(20, None, Some(21), None, None));
}

#[test]
fn before_overrides_after() {
    assert_eq!((100, 99), calculate_limit_offset(1000, Some(500), Some(200), None, None));
    assert_eq!((9, 0), calculate_limit_offset(1000, Some(5), Some(10), None, None));
}

#[test]
fn first_only_shrinks_from_the_end() {
    assert_eq!((30, 0), calculate_limit_offset(1000, None, None, Some(30), None));
    assert_eq!((100, 0), calculate_limit_offset(1000, None, None, Some(500), None));
    assert_eq!((5, 0), calculate_limit_offset(5, None, None, Some(50), None));
    assert_eq!((0, 101), calculate_limit_offset(1000, Some(100), None, Some(0), None));
}

#[test]
fn last_only_shrinks_from_the_start() {
    assert_eq!((10, 990), calculate_limit_offset(1000, None, None, None, Some(10)));
    assert_eq!((100, 500), calculate_limit_offset(1000, None, None, None, Some(500)));
    assert_eq!((5, 0), calculate_limit_offset(5, None, None, None, Some(50)));
    assert_eq!((0, 1000), calculate_limit_offset(1000, None, None, None, Some(0)));
}

#[test]
fn first_then_last() {
    assert_eq!((10, 40), calculate_limit_offset(1000, None, None, Some(50), Some(10)));
    assert_eq!((3, 8), calculate_limit_offset(1000, Some(4), None, Some(6), Some(3)));
}

#[test]
fn empty_row_set_gives_an_empty_window() {
    assert_eq!((0, 0), calculate_limit_offset(0, Some(3), Some(9), Some(4), Some(2)));
    assert_eq!((0, 0), calculate_limit_offset(0, None, None, None, Some(5)));
}

#[test]
fn limit_never_exceeds_the_page_size() {
    for total in [0usize, 1, 99, 100, 101, 5000] {
        for after in [None, Some(0usize), Some(50), Some(4000)] {
            for before in [None, Some(0usize), Some(150), Some(4500)] {
                for first in [None, Some(0usize), Some(20), Some(1000)] {
                    for last in [None, Some(0usize), Some(7), Some(1000)] {
                        let (limit, offset) = calculate_limit_offset(total, after, before, first, last);
                        assert!(limit <= LIMIT);
                        assert!(offset + limit <= total);
                        assert_eq!((limit, offset), calculate_limit_offset(total, after, before, first, last));
                    }
                }
            }
        }
    }
}
