use framework::db::RowId;
use framework::error::Error;
use framework::row::decode_row_ids;
use framework::text::{
    chars_of, format_i64, format_usize, parse_i64, parse_number_list, same_text, string_of,
};

#[test]
fn chars_and_strings_round_trip() {
    let chars = chars_of("héllo");
    assert_eq!(chars, vec!['h', 'é', 'l', 'l', 'o']);
    assert_eq!(string_of(&chars, 0, 5), "héllo");
    assert_eq!(string_of(&chars, 1, 3), "él");
    assert_eq!(string_of(&chars, 2, 2), "");
}

#[test]
fn same_text_compares_characters() {
    assert!(same_text("", ""));
    assert!(same_text("table", "table"));
    assert!(!same_text("table", "tabla"));
    assert!(!same_text("table", "tables"));
    assert!(!same_text("tables", "table"));
}

#[test]
fn format_i64_writes_decimal() {
    assert_eq!(format_i64(0), "0");
    assert_eq!(format_i64(7), "7");
    assert_eq!(format_i64(10), "10");
    assert_eq!(format_i64(-1), "-1");
    assert_eq!(format_i64(1234567890), "1234567890");
    assert_eq!(format_i64(i64::MAX), "9223372036854775807");
    assert_eq!(format_i64(i64::MIN), "-9223372036854775808");
    assert_eq!(format_usize(0), "0");
    assert_eq!(format_usize(4096), "4096");
}

#[test]
fn parse_i64_reads_decimal() {
    assert_eq!(parse_i64("0"), Some(0));
    assert_eq!(parse_i64("42"), Some(42));
    assert_eq!(parse_i64("-42"), Some(-42));
    assert_eq!(parse_i64("+42"), Some(42));
    assert_eq!(parse_i64("007"), Some(7));
    assert_eq!(parse_i64("-0"), Some(0));
    assert_eq!(parse_i64("9223372036854775807"), Some(i64::MAX));
    assert_eq!(parse_i64("-9223372036854775808"), Some(i64::MIN));
}

#[test]
fn parse_i64_refuses_what_is_no_number() {
    assert_eq!(parse_i64(""), None);
    assert_eq!(parse_i64("-"), None);
    assert_eq!(parse_i64("+"), None);
    assert_eq!(parse_i64("+-1"), None);
    assert_eq!(parse_i64(" 1"), None);
    assert_eq!(parse_i64("1 "), None);
    assert_eq!(parse_i64("1a"), None);
    assert_eq!(parse_i64("١٢"), None);
    assert_eq!(parse_i64("9223372036854775808"), None);
    assert_eq!(parse_i64("-9223372036854775809"), None);
    assert_eq!(parse_i64("99999999999999999999999999999999999999999999"), None);
}

#[test]
fn parse_agrees_with_format() {
    for v in [0i64, 1, -1, 9, 10, 99, 100, -100, 123456789, i64::MAX, i64::MIN] {
        assert_eq!(parse_i64(format_i64(v).as_str()), Some(v));
    }
}

#[test]
fn number_list_of_the_empty_text_is_empty() {
    assert_eq!(parse_number_list(&chars_of("")), Some(vec![]));
}

#[test]
fn number_list_splits_at_commas() {
    assert_eq!(parse_number_list(&chars_of("5")), Some(vec![5]));
    assert_eq!(parse_number_list(&chars_of("1,2,3")), Some(vec![1, 2, 3]));
    assert_eq!(parse_number_list(&chars_of("-1,+2")), Some(vec![-1, 2]));
}

#[test]
fn number_list_refuses_a_segment_that_is_no_number() {
    assert_eq!(parse_number_list(&chars_of(",")), None);
    assert_eq!(parse_number_list(&chars_of("1,")), None);
    assert_eq!(parse_number_list(&chars_of(",1")), None);
    assert_eq!(parse_number_list(&chars_of("1,,2")), None);
    assert_eq!(parse_number_list(&chars_of("1, 2")), None);
    assert_eq!(parse_number_list(&chars_of("a")), None);
}

#[test]
fn a_row_identity_shows_as_its_number() {
    assert_eq!(RowId(1).to_string(), "1");
    assert_eq!(RowId(-12).to_string(), "-12");
    assert_eq!(format!("Inserted new row (id: {}) in table {}.", RowId(1).to_string(), "trainer"),
        "Inserted new row (id: 1) in table trainer.");
}

#[test]
fn decode_row_ids_gives_identities_or_a_database_error() {
    assert_eq!(decode_row_ids("").unwrap(), vec![]);
    assert_eq!(decode_row_ids("3,1,2").unwrap(), vec![RowId(3), RowId(1), RowId(2)]);
    assert!(matches!(decode_row_ids("3,x"), Err(Error::DatabaseError(_))));
    assert!(matches!(decode_row_ids("3,"), Err(Error::DatabaseError(_))));
}
