use growatt::text::decimal_string;
use growatt::utils::from_str;
use growatt::{GrowattError, When};

#[test]
fn state_of_charge_is_read_from_its_string() {
    assert_eq!(from_str("42"), Ok(42));
}

#[test]
fn state_of_charge_that_is_no_number_is_malformed() {
    assert_eq!(from_str("abc"), Err(GrowattError::MalformedResponse));
}

#[test]
fn from_str_reads_plain_decimals() {
    assert_eq!(from_str("0"), Ok(0));
    assert_eq!(from_str("7"), Ok(7));
    assert_eq!(from_str("100"), Ok(100));
    assert_eq!(from_str("007"), Ok(7));
    assert_eq!(from_str("0000000000000000000012"), Ok(12));
    assert_eq!(from_str("+5"), Ok(5));
    assert_eq!(from_str("+0"), Ok(0));
}

#[test]
fn from_str_reads_up_to_the_largest_value() {
    assert_eq!(from_str("4294967295"), Ok(u32::MAX));
    assert_eq!(from_str("+4294967295"), Ok(u32::MAX));
    assert_eq!(from_str("4294967296"), Err(GrowattError::MalformedResponse));
    assert_eq!(from_str("4294967300"), Err(GrowattError::MalformedResponse));
    assert_eq!(from_str("42949672950"), Err(GrowattError::MalformedResponse));
    assert_eq!(from_str("99999999999999999999999999"), Err(GrowattError::MalformedResponse));
}

#[test]
fn from_str_rejects_everything_else() {
    let rejected = [
        "", "+", "-", "-1", "-0", "++1", "+-1", " 42", "42 ", "4 2", "42%", "4.2", "42.0", "1e3",
        "0x10", "1_000", "٤٢", "４２", "4\u{0}", "\t4", "NaN", "null",
    ];
    for text in rejected {
        assert_eq!(from_str(text), Err(GrowattError::MalformedResponse), "on {:?}", text);
    }
}

#[test]
fn from_str_agrees_with_the_standard_parser() {
    let samples = [
        "", "0", "1", "9", "10", "42", "+42", "-42", "+", "-", "00", "0042", "4294967295",
        "4294967296", "4294967294", "429496729", "42949672955", "18446744073709551616", "12a",
        "a12", "1 2", " 12", "12 ", "+ 12", "++12", "12+", "٣", "1٣",
    ];
    for text in samples {
        let expected = text.parse::<u32>().map_err(|_| GrowattError::MalformedResponse);
        assert_eq!(from_str(text), expected, "on {:?}", text);
    }
}

#[test]
fn when_keeps_its_nanoseconds() {
    assert_eq!(When::from_nanos(0).as_nanos(), 0);
    assert_eq!(When::from_nanos(1_700_000_000_123_456_789).as_nanos(), 1_700_000_000_123_456_789);
    assert_eq!(When::from_nanos(-5).as_nanos(), -5);
    assert_eq!(i64::from(When::from_nanos(i64::MAX)), i64::MAX);
    assert_eq!(i64::from(When::from_nanos(i64::MIN)), i64::MIN);
    let copy = When::from_nanos(17);
    let same = copy;
    assert_eq!(i64::from(copy), i64::from(same));
}

#[test]
fn when_follows_a_clock_reading() {
    assert!(When::from_reading(None).is_none());
    let read = When::from_reading(Some(99)).unwrap();
    assert_eq!(read.as_nanos(), 99);
}

#[test]
fn when_counts_the_time_since_the_epoch_in_nanoseconds() {
    assert_eq!(When::from_elapsed(0, 0).unwrap().as_nanos(), 0);
    assert_eq!(When::from_elapsed(1, 5).unwrap().as_nanos(), 1_000_000_005);
    assert_eq!(
        When::from_elapsed(1_700_000_000, 123_456_789).unwrap().as_nanos(),
        1_700_000_000_123_456_789
    );
    assert_eq!(When::from_elapsed(86_399, 999_999_999).unwrap().as_nanos(), 86_399_999_999_999);
    assert_eq!(When::from_elapsed(86_400, 0).unwrap().as_nanos(), 86_400_000_000_000);
}

#[test]
fn when_stops_where_the_count_no_longer_fits() {
    assert_eq!(When::from_elapsed(9_223_372_036, 854_775_807).unwrap().as_nanos(), i64::MAX);
    assert!(When::from_elapsed(9_223_372_036, 854_775_808).is_none());
    assert!(When::from_elapsed(9_223_372_036, 999_999_999).is_none());
    assert!(When::from_elapsed(9_223_372_037, 0).is_none());
    assert!(When::from_elapsed(8_210_298_412_800, 0).is_none());
    assert!(When::from_elapsed(i64::MAX as u64, 0).is_none());
    assert!(When::from_elapsed(u64::MAX, 0).is_none());
    assert!(When::from_elapsed(u64::MAX, u32::MAX).is_none());
}

#[test]
fn when_counts_nanoseconds_beyond_a_second_as_seconds() {
    assert_eq!(When::from_elapsed(0, 1_000_000_000).unwrap().as_nanos(), 1_000_000_000);
    assert_eq!(When::from_elapsed(59, 1_500_000_000).unwrap().as_nanos(), 60_500_000_000);
    assert_eq!(When::from_elapsed(7, u32::MAX).unwrap().as_nanos(), 11_294_967_295);
    assert_eq!(When::from_elapsed(9_223_372_035, 1_854_775_807).unwrap().as_nanos(), i64::MAX);
    assert!(When::from_elapsed(9_223_372_035, 1_854_775_808).is_none());
}

#[test]
fn when_is_written_as_a_count_of_nanoseconds() {
    assert_eq!(When::from_nanos(0).to_text(), "0 ns");
    assert_eq!(When::from_nanos(7).to_text(), "7 ns");
    assert_eq!(When::from_nanos(-7).to_text(), "-7 ns");
    assert_eq!(When::from_nanos(1_700_000_000_123_456_789).to_text(), "1700000000123456789 ns");
    assert_eq!(When::from_nanos(i64::MAX).to_text(), "9223372036854775807 ns");
    assert_eq!(When::from_nanos(i64::MIN).to_text(), "-9223372036854775808 ns");
}

#[test]
fn decimal_string_agrees_with_the_standard_formatter() {
    let samples = [
        0, 1, 9, 10, 11, 99, 100, 101, 1_000, 12_345, 1_000_000_007, -1, -9, -10, -100, -12_345,
        i64::MAX, i64::MAX - 1, i64::MIN, i64::MIN + 1, 4_294_967_295, 4_294_967_296,
    ];
    for n in samples {
        assert_eq!(decimal_string(n), format!("{}", n));
    }
}

#[test]
fn decimal_string_is_read_back_by_from_str() {
    for n in [0u32, 5, 10, 42, 100, 65_535, 4_294_967_295] {
        assert_eq!(from_str(&decimal_string(n as i64)), Ok(n));
    }
}

#[test]
fn when_now_is_in_this_century() {
    let now = When::now().unwrap();
    assert!(now.as_nanos() > 1_577_836_800_000_000_000);
    assert!(now.as_nanos() < 4_102_444_800_000_000_000);
    let later = When::now().unwrap();
    assert!(later.as_nanos() >= now.as_nanos() - 60_000_000_000);
}
