use msb::error::ErrorKind;
use msb::parse::{parse_i64, parse_u64, read_file_as_i64, read_file_as_u64, trim_slice};

#[test]
fn trim_removes_surrounding_whitespace() {
    assert_eq!(trim_slice(b"  123\n"), b"123");
    assert_eq!(trim_slice(b"\t x y \r\n"), b"x y");
    assert_eq!(trim_slice(b""), b"");
    assert_eq!(trim_slice(b" \n\t "), b"");
    assert_eq!(trim_slice(b"abc"), b"abc");
}

#[test]
fn parse_u64_accepts_plain_decimals() {
    assert_eq!(parse_u64(b"0").unwrap(), 0);
    assert_eq!(parse_u64(b"123").unwrap(), 123);
    assert_eq!(parse_u64(b"+7").unwrap(), 7);
    assert_eq!(parse_u64(b"18446744073709551615").unwrap(), u64::MAX);
    assert_eq!(parse_u64(b"00042").unwrap(), 42);
}

#[test]
fn parse_u64_rejects_malformed_input() {
    assert_eq!(parse_u64(b"").unwrap_err().kind, ErrorKind::Parse);
    assert_eq!(parse_u64(b"+").unwrap_err().kind, ErrorKind::Parse);
    assert_eq!(parse_u64(b"12a").unwrap_err().kind, ErrorKind::Parse);
    assert_eq!(parse_u64(b"-5").unwrap_err().kind, ErrorKind::Parse);
    assert_eq!(parse_u64(b" 5").unwrap_err().kind, ErrorKind::Parse);
    // One past u64::MAX.
    assert_eq!(parse_u64(b"18446744073709551616").unwrap_err().kind, ErrorKind::Parse);
}

#[test]
fn parse_i64_handles_signs_and_limits() {
    assert_eq!(parse_i64(b"0").unwrap(), 0);
    assert_eq!(parse_i64(b"-5").unwrap(), -5);
    assert_eq!(parse_i64(b"+5").unwrap(), 5);
    assert_eq!(parse_i64(b"9223372036854775807").unwrap(), i64::MAX);
    assert_eq!(parse_i64(b"-9223372036854775808").unwrap(), i64::MIN);
    assert_eq!(parse_i64(b"9223372036854775808").unwrap_err().kind, ErrorKind::Parse);
    assert_eq!(parse_i64(b"-9223372036854775809").unwrap_err().kind, ErrorKind::Parse);
    assert_eq!(parse_i64(b"-").unwrap_err().kind, ErrorKind::Parse);
    assert_eq!(parse_i64(b"1 2").unwrap_err().kind, ErrorKind::Parse);
}

#[test]
fn read_file_parsers_trim_first() {
    assert_eq!(read_file_as_u64(b" 4690000\n").unwrap(), 4690000);
    assert_eq!(read_file_as_i64(b"\t-12000 \n").unwrap(), -12000);
    assert_eq!(read_file_as_u64(b"\n\n").unwrap_err().kind, ErrorKind::Parse);
}
