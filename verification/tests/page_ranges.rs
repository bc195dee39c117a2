use typst_nif::page_range::{parse, PageRange, PageRangeError, Violation};

fn range(start: usize, end: usize) -> PageRange {
    PageRange { start, end }
}

fn refused(selector: &str, total: usize, violation: Violation, token: &str) {
    assert_eq!(
        parse(selector, total),
        Err(PageRangeError { violation, token: token.to_string(), total })
    );
}

#[test]
fn selector_with_ranges_and_single_pages() {
    assert_eq!(parse("1-3,5,7-9", 10), Ok(vec![range(1, 3), range(5, 5), range(7, 9)]));
}

#[test]
fn zero_is_out_of_bounds() {
    refused("0-2", 10, Violation::OutOfBounds, "0-2");
    refused("0", 10, Violation::OutOfBounds, "0");
}

#[test]
fn start_after_end_is_refused() {
    refused("5-3", 10, Violation::Reversed, "5-3");
}

#[test]
fn page_beyond_total_is_out_of_bounds() {
    refused("11", 10, Violation::OutOfBounds, "11");
    refused("3-11", 10, Violation::OutOfBounds, "3-11");
    refused("11-12", 10, Violation::OutOfBounds, "11-12");
}

#[test]
fn bounds_are_included() {
    assert_eq!(parse("1", 1), Ok(vec![range(1, 1)]));
    assert_eq!(parse("10", 10), Ok(vec![range(10, 10)]));
    assert_eq!(parse("1-10", 10), Ok(vec![range(1, 10)]));
    assert_eq!(parse("4-4", 10), Ok(vec![range(4, 4)]));
}

#[test]
fn nothing_fits_an_empty_document() {
    refused("1", 0, Violation::OutOfBounds, "1");
}

#[test]
fn whitespace_around_tokens_is_trimmed() {
    assert_eq!(parse(" 1-3 ,\t5\n, 7-9  ", 10), Ok(vec![range(1, 3), range(5, 5), range(7, 9)]));
    assert_eq!(parse("\u{a0}2\u{2003}", 10), Ok(vec![range(2, 2)]));
}

#[test]
fn whitespace_within_a_token_is_malformed() {
    refused("1 - 3", 10, Violation::Malformed, "1 - 3");
    refused("1 2", 10, Violation::Malformed, "1 2");
}

#[test]
fn order_and_duplicates_are_kept() {
    assert_eq!(
        parse("7-9,1-3,2,2,1-3", 10),
        Ok(vec![range(7, 9), range(1, 3), range(2, 2), range(2, 2), range(1, 3)])
    );
}

#[test]
fn malformed_tokens_are_named() {
    refused("", 10, Violation::Malformed, "");
    refused("   ", 10, Violation::Malformed, "");
    refused("1,,2", 10, Violation::Malformed, "");
    refused("1,", 10, Violation::Malformed, "");
    refused("a", 10, Violation::Malformed, "a");
    refused("1-", 10, Violation::Malformed, "1-");
    refused("-3", 10, Violation::Malformed, "-3");
    refused("1-2-3", 10, Violation::Malformed, "1-2-3");
    refused("+1", 10, Violation::Malformed, "+1");
    refused("1, x7 ,3", 10, Violation::Malformed, "x7");
    refused("٣", 10, Violation::Malformed, "٣");
}

#[test]
fn first_violation_ends_the_parse() {
    refused("1,0,x", 10, Violation::OutOfBounds, "0");
    refused("1,x,0", 10, Violation::Malformed, "x");
    refused("5-3,11", 10, Violation::Reversed, "5-3");
}

#[test]
fn malformed_comes_before_out_of_bounds_and_that_before_reversed() {
    refused("0-x", 10, Violation::Malformed, "0-x");
    refused("12-11", 10, Violation::OutOfBounds, "12-11");
    refused("5-0", 10, Violation::OutOfBounds, "5-0");
}

#[test]
fn numbers_too_large_for_the_machine_are_out_of_bounds() {
    let huge = "340282366920938463463374607431768211456";
    refused(huge, usize::MAX, Violation::OutOfBounds, huge);
    refused("1-99999999999999999999999999", 10, Violation::OutOfBounds, "1-99999999999999999999999999");
    refused("99999999999999999999999999x", 10, Violation::Malformed, "99999999999999999999999999x");
}

#[test]
fn leading_zeros_do_not_matter() {
    assert_eq!(parse("007", 10), Ok(vec![range(7, 7)]));
    assert_eq!(parse("01-010", 10), Ok(vec![range(1, 10)]));
}

#[test]
fn messages_name_the_token() {
    assert_eq!(parse("x", 3).unwrap_err().message(), "invalid page range `x`");
    assert_eq!(
        parse("4", 3).unwrap_err().message(),
        "page range `4` is out of bounds: the document has 3 pages"
    );
    assert_eq!(parse("3-2", 3).unwrap_err().message(), "page range `3-2` starts after it ends");
    assert_eq!(
        parse("1234567890", 120).unwrap_err().message(),
        "page range `1234567890` is out of bounds: the document has 120 pages"
    );
}
