use cch24_core::quotes::{plan_first_page, plan_token_page};

#[test]
fn test_first_page_full_fetch_keeps_three_and_hands_out_token() {
    let plan = plan_first_page(4);
    assert_eq!(plan.keep, 3);
    assert!(plan.make_token);
    assert_eq!(plan.page, 1);
}

#[test]
fn test_first_page_short_fetch_is_returned_whole() {
    let plan = plan_first_page(3);
    assert_eq!(plan.keep, 3);
    assert!(!plan.make_token);
    assert_eq!(plan.page, 1);
    let plan = plan_first_page(0);
    assert_eq!(plan.keep, 0);
    assert!(!plan.make_token);
}

#[test]
fn test_token_page_advances_cursor_while_full() {
    let plan = plan_token_page(4, 1);
    assert_eq!(plan.keep, 4);
    assert!(plan.make_token);
    assert_eq!(plan.page, 2);
}

#[test]
fn test_token_page_retires_token_on_short_fetch() {
    let plan = plan_token_page(2, 5);
    assert_eq!(plan.keep, 2);
    assert!(!plan.make_token);
    assert_eq!(plan.page, 6);
}
