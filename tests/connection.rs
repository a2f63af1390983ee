use asset_balances::{assemble, decode_arguments, decode_cursor, encode_cursor, PageArgs, PageError, Window};

#[test]
fn page_in_the_middle_has_both_neighbours() {
    let window = Window { limit: 3, offset: 4 };
    let page = assemble(window, vec!["e", "f", "g"], 10, |s: &str| s.to_uppercase());
    assert!(page.has_previous_page);
    assert!(page.has_next_page);
    assert_eq!(page.edges.len(), 3);
    assert_eq!(page.edges[0].position, 4);
    assert_eq!(page.edges[0].node, "E");
    assert_eq!(page.edges[2].position, 6);
    assert_eq!(page.edges[2].node, "G");
    assert_eq!(page.edges[1].cursor(), "5");
}

#[test]
fn first_page_has_no_previous() {
    let page = assemble(Window { limit: 2, offset: 0 }, vec![1u32, 2], 5, |n: u32| n * 10);
    assert!(!page.has_previous_page);
    assert!(page.has_next_page);
    assert_eq!(page.edges[1].node, 20);
}

#[test]
fn last_page_has_no_next() {
    let page = assemble(Window { limit: 100, offset: 8 }, vec![1u32, 2], 10, |n: u32| n);
    assert!(page.has_previous_page);
    assert!(!page.has_next_page);
}

#[test]
fn short_fetch_keeps_next_page_open() {
    let page = assemble(Window { limit: 5, offset: 0 }, vec![1u32, 2], 10, |n: u32| n);
    assert!(page.has_next_page);
    let empty = assemble(Window { limit: 0, offset: 0 }, Vec::<u32>::new(), 0, |n: u32| n);
    assert!(!empty.has_previous_page);
    assert!(!empty.has_next_page);
    assert!(empty.edges.is_empty());
}

#[test]
fn cursors_are_decimal_positions() {
    assert_eq!(encode_cursor(0), "0");
    assert_eq!(encode_cursor(149), "149");
    assert_eq!(decode_cursor("149"), Some(149));
    assert_eq!(decode_cursor("+7"), Some(7));
    assert_eq!(decode_cursor(&encode_cursor(usize::MAX)), Some(usize::MAX));
    assert_eq!(decode_cursor(""), None);
    assert_eq!(decode_cursor("+"), None);
    assert_eq!(decode_cursor("-1"), None);
    assert_eq!(decode_cursor("12a"), None);
    assert_eq!(decode_cursor("99999999999999999999999"), None);
}

#[test]
fn arguments_are_decoded() {
    let args = decode_arguments(Some("100"), None, Some(50), None).unwrap();
    assert_eq!(args, PageArgs { after: Some(100), before: None, first: Some(50), last: None });
    let window = args.window(1000);
    assert_eq!(window, Window { limit: 50, offset: 101 });
    let none = decode_arguments(None, None, None, None).unwrap();
    assert_eq!(none.window(1000), Window { limit: 100, offset: 0 });
}

#[test]
fn argument_errors() {
    assert_eq!(decode_arguments(Some("x"), Some("y"), Some(-1), Some(-1)), Err(PageError::NegativeFirst));
    assert_eq!(decode_arguments(Some("x"), Some("y"), Some(1), Some(-1)), Err(PageError::NegativeLast));
    assert_eq!(decode_arguments(Some("x"), Some("y"), None, None), Err(PageError::InvalidBefore));
    assert_eq!(decode_arguments(Some("x"), Some("3"), None, None), Err(PageError::InvalidAfter));
}
