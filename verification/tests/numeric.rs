use softether_exporter::error::NumericError;
use softether_exporter::numeric::{parse_byte_count, parse_connection_pair, parse_count, parse_packet_count};

#[test]
fn packet_count_round_trips_each_locale() {
    assert_eq!(parse_packet_count("7,262,679,895 packets"), Ok(7262679895));
    assert_eq!(parse_packet_count("7,262,679,895 パケット"), Ok(7262679895));
    assert_eq!(parse_packet_count("7,262,679,895 数据包"), Ok(7262679895));
    assert_eq!(parse_packet_count("0 packets"), Ok(0));
}

#[test]
fn byte_count_round_trips_each_locale() {
    assert_eq!(parse_byte_count("4,153,388,417,848 bytes"), Ok(4153388417848));
    assert_eq!(parse_byte_count("4,153,388,417,848 バイト"), Ok(4153388417848));
    assert_eq!(parse_byte_count("4,153,388,417,848 字节"), Ok(4153388417848));
}

#[test]
fn bare_numbers_parse_without_a_unit() {
    assert_eq!(parse_packet_count("322,784"), Ok(322784));
    assert_eq!(parse_byte_count("82,691,861"), Ok(82691861));
    assert_eq!(parse_count("18965"), Ok(18965));
    assert_eq!(parse_count("1,234"), Ok(1234));
}

#[test]
fn malformed_numbers_are_rejected() {
    assert_eq!(parse_count("abc"), Err(NumericError::MalformedNumber));
    assert_eq!(parse_count(""), Err(NumericError::MalformedNumber));
    assert_eq!(parse_packet_count("12 parcels"), Err(NumericError::MalformedNumber));
    // The unit word must match exactly: a partial word is no unit.
    assert_eq!(parse_packet_count("12 packet"), Err(NumericError::MalformedNumber));
    // A unit alone leaves no digits.
    assert_eq!(parse_byte_count(" bytes"), Err(NumericError::MalformedNumber));
    // Too large for a 64-bit counter.
    assert_eq!(parse_count("99,999,999,999,999,999,999,999"), Err(NumericError::MalformedNumber));
}

#[test]
fn connection_pair_with_separator() {
    assert_eq!(parse_connection_pair("2 / 2"), Ok((2, 2)));
    assert_eq!(parse_connection_pair("1/8"), Ok((1, 8)));
}

#[test]
fn connection_pair_without_separator_is_zero() {
    assert_eq!(parse_connection_pair("なし"), Ok((0, 0)));
    assert_eq!(parse_connection_pair("None"), Ok((0, 0)));
    assert_eq!(parse_connection_pair(""), Ok((0, 0)));
}

#[test]
fn connection_pair_rejects_non_numeric_halves() {
    assert_eq!(parse_connection_pair("x / 2"), Err(NumericError::MalformedConnectionPair));
    assert_eq!(parse_connection_pair("2 / y"), Err(NumericError::MalformedConnectionPair));
    assert_eq!(parse_connection_pair("/"), Err(NumericError::MalformedConnectionPair));
}
