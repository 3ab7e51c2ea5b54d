use rss_telegram_bot::text::{chars_of, decimal_string, parse_i64, parse_u16, signed_decimal_string};
use rss_telegram_bot::{get_user_id_and_pin_from_name, RssState};

#[test]
fn name_decodes_to_owner_and_pin() {
    assert_eq!(get_user_id_and_pin_from_name("12345-6789.json"), Some((12345, 6789)));
    assert_eq!(get_user_id_and_pin_from_name("0-0.json"), Some((0, 0)));
    assert_eq!(get_user_id_and_pin_from_name("+7-+8.json"), Some((7, 8)));
}

#[test]
fn name_without_suffix_or_hyphen_is_rejected() {
    assert_eq!(get_user_id_and_pin_from_name("12345-6789"), None);
    assert_eq!(get_user_id_and_pin_from_name("12345-6789.txt"), None);
    assert_eq!(get_user_id_and_pin_from_name("123456789.json"), None);
    assert_eq!(get_user_id_and_pin_from_name(".json"), None);
    assert_eq!(get_user_id_and_pin_from_name(""), None);
    assert_eq!(get_user_id_and_pin_from_name("json"), None);
}

#[test]
fn name_with_bad_numbers_is_rejected() {
    assert_eq!(get_user_id_and_pin_from_name("abc-1234.json"), None);
    assert_eq!(get_user_id_and_pin_from_name("12-x.json"), None);
    assert_eq!(get_user_id_and_pin_from_name("12-.json"), None);
    assert_eq!(get_user_id_and_pin_from_name("-1234.json"), None);
    assert_eq!(get_user_id_and_pin_from_name("12-65536.json"), None);
    assert_eq!(get_user_id_and_pin_from_name("12-34-56.json"), None);
    assert_eq!(get_user_id_and_pin_from_name("9223372036854775808-1.json"), None);
    assert_eq!(get_user_id_and_pin_from_name("é-1.json"), None);
}

#[test]
fn name_at_the_limits() {
    assert_eq!(
        get_user_id_and_pin_from_name("9223372036854775807-65535.json"),
        Some((9223372036854775807, 65535))
    );
    assert_eq!(get_user_id_and_pin_from_name("007-0042.json"), Some((7, 42)));
}

#[test]
fn negative_owner_does_not_decode() {
    assert_eq!(get_user_id_and_pin_from_name("-5-1234.json"), None);
}

#[test]
fn path_is_built_from_owner_and_pin() {
    assert_eq!(RssState::file_path(12345, 6789), "sources/12345-6789.json");
    assert_eq!(RssState::file_path(-5, 1), "sources/-5-1.json");
    assert_eq!(RssState::file_path(0, 0), "sources/0-0.json");
    assert_eq!(
        RssState::file_path(i64::MIN, u16::MAX),
        "sources/-9223372036854775808-65535.json"
    );
}

#[test]
fn path_round_trips_through_name() {
    let path = RssState::file_path(987654321, 4321);
    let name = path.strip_prefix("sources/").unwrap();
    assert_eq!(get_user_id_and_pin_from_name(name), Some((987654321, 4321)));
}

#[test]
fn decimal_strings() {
    assert_eq!(decimal_string(0), "0");
    assert_eq!(decimal_string(9), "9");
    assert_eq!(decimal_string(10), "10");
    assert_eq!(decimal_string(1024), "1024");
    assert_eq!(decimal_string(u64::MAX), "18446744073709551615");
    assert_eq!(signed_decimal_string(-1), "-1");
    assert_eq!(signed_decimal_string(i64::MAX), "9223372036854775807");
    assert_eq!(signed_decimal_string(i64::MIN), "-9223372036854775808");
}

#[test]
fn parse_signed_numbers() {
    assert_eq!(parse_i64(&chars_of("0")), Some(0));
    assert_eq!(parse_i64(&chars_of("-0")), Some(0));
    assert_eq!(parse_i64(&chars_of("+15")), Some(15));
    assert_eq!(parse_i64(&chars_of("-15")), Some(-15));
    assert_eq!(parse_i64(&chars_of("-9223372036854775808")), Some(i64::MIN));
    assert_eq!(parse_i64(&chars_of("-9223372036854775809")), None);
    assert_eq!(parse_i64(&chars_of("9223372036854775807")), Some(i64::MAX));
    assert_eq!(parse_i64(&chars_of("9223372036854775808")), None);
    assert_eq!(parse_i64(&chars_of("99999999999999999999999999")), None);
    assert_eq!(parse_i64(&chars_of("")), None);
    assert_eq!(parse_i64(&chars_of("-")), None);
    assert_eq!(parse_i64(&chars_of("+")), None);
    assert_eq!(parse_i64(&chars_of("1 ")), None);
    assert_eq!(parse_i64(&chars_of("--1")), None);
    assert_eq!(parse_i64(&chars_of("1a")), None);
}

#[test]
fn parse_unsigned_numbers() {
    assert_eq!(parse_u16(&chars_of("0")), Some(0));
    assert_eq!(parse_u16(&chars_of("65535")), Some(65535));
    assert_eq!(parse_u16(&chars_of("65536")), None);
    assert_eq!(parse_u16(&chars_of("000065535")), Some(65535));
    assert_eq!(parse_u16(&chars_of("+12")), Some(12));
    assert_eq!(parse_u16(&chars_of("-12")), None);
    assert_eq!(parse_u16(&chars_of("-0")), None);
    assert_eq!(parse_u16(&chars_of("")), None);
    assert_eq!(parse_u16(&chars_of("12.5")), None);
}

#[test]
fn parse_agrees_with_std() {
    for s in ["0", "-0", "+0", "12", "-12", "+", "-", "", "a", "1a", "٣", "65535", "65536", "00001"] {
        assert_eq!(parse_i64(&chars_of(s)), s.parse::<i64>().ok());
        assert_eq!(parse_u16(&chars_of(s)), s.parse::<u16>().ok());
    }
}
