use toss::config::{parse_chunk_size, DEFAULT_CHUNK_SIZE};
use toss::error::TransferError;

#[test]
fn default_chunk_size_is_one_mebibyte() {
    assert_eq!(DEFAULT_CHUNK_SIZE, 1_048_576);
    assert_eq!(DEFAULT_CHUNK_SIZE, 1024 * 1024);
}

#[test]
fn reads_decimal_sizes() {
    assert_eq!(parse_chunk_size("1048576"), Ok(1_048_576));
    assert_eq!(parse_chunk_size("0"), Ok(0));
    assert_eq!(parse_chunk_size("7"), Ok(7));
    assert_eq!(parse_chunk_size("12"), Ok(12));
    assert_eq!(parse_chunk_size("4096"), Ok(4096));
}

#[test]
fn accepts_leading_plus_and_zeros() {
    assert_eq!(parse_chunk_size("+5"), Ok(5));
    assert_eq!(parse_chunk_size("007"), Ok(7));
    assert_eq!(parse_chunk_size("+000"), Ok(0));
}

#[test]
fn rejects_what_is_no_number() {
    for text in ["", "+", "-", "-1", "12a", "a12", " 1", "1 ", "1_000", "0x10", "1.5", "++1", "1+", "١٢"] {
        assert_eq!(parse_chunk_size(text), Err(TransferError::ConfigurationError), "{:?}", text);
    }
}

#[test]
fn largest_size_is_accepted_and_the_next_is_not() {
    let largest = usize::MAX.to_string();
    assert_eq!(parse_chunk_size(&largest), Ok(usize::MAX));
    let mut digits: Vec<u8> = largest.into_bytes();
    let mut i = digits.len();
    loop {
        i -= 1;
        if digits[i] == b'9' {
            digits[i] = b'0';
        } else {
            digits[i] += 1;
            break;
        }
    }
    let next = String::from_utf8(digits).unwrap();
    assert_eq!(parse_chunk_size(&next), Err(TransferError::ConfigurationError));
    assert_eq!(
        parse_chunk_size("99999999999999999999999999999999999999999"),
        Err(TransferError::ConfigurationError)
    );
}

#[test]
fn agrees_with_the_standard_parser() {
    let samples = [
        "", "0", "1", "+1", "-0", "+", "10", "0010", "18446744073709551615",
        "18446744073709551616", "4294967295", "4294967296", "abc", "12 ", "+-1", "1e3", "٣",
        "1048576", "+1048576", "00000000000000000000000000001",
    ];
    for text in samples {
        let expected = text.parse::<usize>().ok();
        assert_eq!(parse_chunk_size(text).ok(), expected, "{:?}", text);
    }
}
