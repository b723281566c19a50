use substreams_bridge::package::{Module, Package};
use substreams_bridge::range::{read_block_range, resolve_block_range, RangeError};

fn package_with(name: &str, initial_block: u64) -> Package {
    Package::new(vec![Module { name: name.to_string(), initial_block }]).unwrap()
}

#[test]
fn empty_expression_gives_initial_block_and_no_stop() {
    assert!(matches!(resolve_block_range(100, ""), Ok((100, 0))));
}

#[test]
fn stop_only_with_colon() {
    assert!(matches!(resolve_block_range(100, ":50"), Ok((100, 50))));
}

#[test]
fn relative_start_and_relative_stop() {
    assert!(matches!(resolve_block_range(100, "+10:+5"), Ok((110, 115))));
}

#[test]
fn absolute_start_and_stop() {
    assert!(matches!(resolve_block_range(100, "200:300"), Ok((200, 300))));
}

#[test]
fn non_numeric_start_is_a_parse_error() {
    match resolve_block_range(100, "abc:10") {
        Err(RangeError::InvalidStart(token)) => assert_eq!(token, "abc"),
        _ => panic!("expected an invalid start"),
    }
}

#[test]
fn expression_without_colon_is_the_stop() {
    assert!(matches!(resolve_block_range(7, "42"), Ok((7, 42))));
    assert!(matches!(resolve_block_range(7, "+3"), Ok((7, 10))));
    assert!(matches!(resolve_block_range(7, "-"), Ok((7, 0))));
}

#[test]
fn negative_start_is_accepted() {
    assert!(matches!(resolve_block_range(7, "-5:"), Ok((-5, 0))));
    assert!(matches!(resolve_block_range(7, "-5:+10"), Ok((-5, 5))));
    assert!(matches!(resolve_block_range(7, "-9223372036854775808:1"), Ok((i64::MIN, 1))));
}

#[test]
fn non_numeric_stop_is_a_parse_error() {
    match resolve_block_range(100, "1:1x") {
        Err(RangeError::InvalidStop(token)) => assert_eq!(token, "1x"),
        _ => panic!("expected an invalid stop"),
    }
    assert!(matches!(resolve_block_range(100, "1:-5"), Err(RangeError::InvalidStop(_))));
    assert!(matches!(resolve_block_range(100, "1:+"), Err(RangeError::InvalidStop(_))));
    assert!(matches!(resolve_block_range(100, "1:2:3"), Err(RangeError::InvalidStop(_))));
}

#[test]
fn literals_beyond_64_bits_are_rejected() {
    assert!(matches!(
        resolve_block_range(0, "9223372036854775808:"),
        Err(RangeError::InvalidStart(_))
    ));
    assert!(matches!(
        resolve_block_range(0, ":18446744073709551616"),
        Err(RangeError::InvalidStop(_))
    ));
    assert!(matches!(
        resolve_block_range(0, ":18446744073709551615"),
        Ok((0, 18446744073709551615))
    ));
}

#[test]
fn sums_beyond_64_bits_are_out_of_range() {
    assert!(matches!(
        resolve_block_range(9223372036854775807, "+1:"),
        Err(RangeError::StartOutOfRange)
    ));
    assert!(matches!(
        resolve_block_range(18446744073709551615, ""),
        Err(RangeError::StartOutOfRange)
    ));
    assert!(matches!(
        resolve_block_range(1, ":+18446744073709551615"),
        Err(RangeError::StopOutOfRange)
    ));
    assert!(matches!(resolve_block_range(0, "-10:+5"), Err(RangeError::StopOutOfRange)));
}

#[test]
fn repeated_plus_signs_are_one_relative_token() {
    assert!(matches!(resolve_block_range(100, "++5:"), Ok((105, 0))));
}

#[test]
fn range_of_a_declared_module() {
    let pkg = package_with("map_events", 100);
    assert!(matches!(read_block_range(&pkg, "map_events", None), Ok((100, 0))));
    assert!(matches!(read_block_range(&pkg, "map_events", Some("+10:+5")), Ok((110, 115))));
}

#[test]
fn range_of_an_unknown_module() {
    let pkg = package_with("map_events", 100);
    match read_block_range(&pkg, "other", Some("1:2")) {
        Err(RangeError::ModuleNotFound(name)) => assert_eq!(name, "other"),
        _ => panic!("expected a module that is not found"),
    }
}

#[test]
fn range_error_messages() {
    assert_eq!(
        RangeError::ModuleNotFound("m".to_string()).message(),
        "module 'm' not found in package"
    );
    assert_eq!(
        RangeError::InvalidStart("abc".to_string()).message(),
        "argument <start> is not a valid integer: abc"
    );
    assert_eq!(
        RangeError::InvalidStop("1x".to_string()).message(),
        "argument <stop> is not a valid integer: 1x"
    );
    assert_eq!(RangeError::StartOutOfRange.message(), "argument <start> is out of range");
    assert_eq!(RangeError::StopOutOfRange.message(), "argument <stop> is out of range");
}
