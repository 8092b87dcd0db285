use aws_resource_id::general::order::{compare_bytes, Order};
use aws_resource_id::general::{parse_unique_part, short_type_name, AmiKind, SnapshotKind};
use aws_resource_id::text::{byte_is_alphanumeric, decimal_string, starts_with, str_eq};
use aws_resource_id::{
    Error, GeneralResourceError, GeneralResourceErrorDetail, RegionError, ResourceKind, UniquePart,
};

#[test]
fn alphanumeric_bytes_are_digits_and_letters() {
    for b in 0..=255u8 {
        assert_eq!(
            byte_is_alphanumeric(b),
            (b as char).is_ascii_alphanumeric(),
            "byte {}",
            b
        );
    }
    for b in [b'/', b':', b'@', b'[', b'`', b'{', b'-', b' ', 0u8, 127, 128, 255] {
        assert!(!byte_is_alphanumeric(b));
    }
    for b in [b'0', b'9', b'A', b'Z', b'a', b'z'] {
        assert!(byte_is_alphanumeric(b));
    }
}

#[test]
fn decimal_notation() {
    assert_eq!(decimal_string(0), "0");
    assert_eq!(decimal_string(7), "7");
    assert_eq!(decimal_string(9), "9");
    assert_eq!(decimal_string(10), "10");
    assert_eq!(decimal_string(18), "18");
    assert_eq!(decimal_string(100), "100");
    assert_eq!(decimal_string(12345), "12345");
    assert_eq!(decimal_string(usize::MAX), usize::MAX.to_string());
}

#[test]
fn strings_are_compared_by_their_text() {
    assert!(str_eq("", ""));
    assert!(str_eq("us-east-1", "us-east-1"));
    assert!(!str_eq("us-east-1", "us-east-2"));
    assert!(!str_eq("us-east-1", "us-east-"));
    assert!(!str_eq("us-east-", "us-east-1"));
    assert!(!str_eq("us-east-1", "US-EAST-1"));
    assert!(str_eq("\u{e9}t\u{e9}", "\u{e9}t\u{e9}"));
    assert!(!str_eq("\u{e9}", "e"));
}

#[test]
fn prefixes_of_strings() {
    assert!(starts_with("ami-12345678", "ami-"));
    assert!(starts_with("ami-", "ami-"));
    assert!(starts_with("ami-", ""));
    assert!(starts_with("", ""));
    assert!(!starts_with("", "ami-"));
    assert!(!starts_with("ami", "ami-"));
    assert!(!starts_with("amx-12345678", "ami-"));
    assert!(!starts_with(" ami-12345678", "ami-"));
    assert!(starts_with("\u{e9}t\u{e9}", "\u{e9}t"));
    assert!(!starts_with("\u{e9}t\u{e9}", "\u{e8}"));
    assert!(!starts_with("et", "\u{e9}"));
}

#[test]
fn bytes_are_ordered_by_length_then_content() {
    assert_eq!(compare_bytes(b"", b""), Order::Same);
    assert_eq!(compare_bytes(b"abc", b"abc"), Order::Same);
    assert_eq!(compare_bytes(b"abc", b"abd"), Order::Before);
    assert_eq!(compare_bytes(b"abd", b"abc"), Order::After);
    assert_eq!(compare_bytes(b"b", b"ab"), Order::Before);
    assert_eq!(compare_bytes(b"ab", b"b"), Order::After);
    assert_eq!(compare_bytes(b"zzzzzzzz", b"00000000000000000"), Order::Before);
    assert_eq!(compare_bytes(&[0, 255], &[1, 0]), Order::Before);
}

#[test]
fn unique_part_of_a_string() {
    match parse_unique_part("snap-1234abcd", "snap-") {
        Ok(unique) => {
            assert_eq!(unique, UniquePart::C8(*b"1234abcd"));
            assert_eq!(unique.as_slice(), b"1234abcd");
        }
        Err(e) => panic!("rejected: {}", e.to_string()),
    }
    match parse_unique_part("snap-1a2b3c4d5e6f7j8h9", "snap-") {
        Ok(unique) => {
            assert_eq!(unique, UniquePart::C17(*b"1a2b3c4d5e6f7j8h9"));
            assert_eq!(unique.as_slice(), b"1a2b3c4d5e6f7j8h9");
        }
        Err(e) => panic!("rejected: {}", e.to_string()),
    }
    assert!(matches!(
        parse_unique_part("snap-1234abcd", "ami-"),
        Err(GeneralResourceErrorDetail::WrongPrefix("ami-"))
    ));
    assert!(matches!(
        parse_unique_part("snap-1234abc", "snap-"),
        Err(GeneralResourceErrorDetail::IdLength(7))
    ));
    assert!(matches!(
        parse_unique_part("snap-1234abc_", "snap-"),
        Err(GeneralResourceErrorDetail::NonAsciiAlphanumeric)
    ));
    assert!(matches!(
        parse_unique_part("12345678", ""),
        Ok(UniquePart::C8(_))
    ));
}

#[test]
fn unique_parts_are_ordered_short_before_long() {
    let short = UniquePart::C8(*b"zzzzzzzz");
    let long = UniquePart::C17(*b"00000000000000000");
    assert!(short < long);
    assert_eq!(short.cmp(&long), std::cmp::Ordering::Less);
    assert!(UniquePart::C8(*b"1234abcd") < UniquePart::C8(*b"1234abce"));
    assert!(UniquePart::C8(*b"1234abcd") == UniquePart::C8(*b"1234abcd"));
    assert!(UniquePart::C8(*b"1234abcd") != UniquePart::C8(*b"1234abcf"));
}

#[test]
fn kinds_have_a_prefix_and_a_name() {
    assert_eq!(AmiKind::prefix(), "ami-");
    assert_eq!(AmiKind::name(), "AwsAmiId");
    assert_eq!(SnapshotKind::prefix(), "snap-");
    assert_eq!(short_type_name::<AmiKind>(), "AwsAmiId");
    assert_eq!(short_type_name::<SnapshotKind>(), "AwsSnapshotId");
}

#[test]
fn errors_are_made_from_their_parts_and_wrapped() {
    let e = GeneralResourceError::new(
        "AwsAmiId",
        "ami-123",
        GeneralResourceErrorDetail::IdLength(3),
    );
    assert_eq!(e.target_type(), "AwsAmiId");
    assert_eq!(e.input(), "ami-123");
    assert!(matches!(
        e.error_detail(),
        GeneralResourceErrorDetail::IdLength(3)
    ));
    assert_eq!(
        e.to_string(),
        "failed to initialize AwsAmiId from \"ami-123\": the unique part must be 8 or 17, not 3 characters long"
    );
    let wrapped = Error::from(e);
    assert!(matches!(wrapped, Error::General(_)));
    assert_eq!(
        wrapped.to_string(),
        "failed to initialize AwsAmiId from \"ami-123\": the unique part must be 8 or 17, not 3 characters long"
    );
    let wrapped = Error::from(RegionError::new("nowhere"));
    assert!(matches!(wrapped, Error::Region(_)));
    assert_eq!(wrapped.to_string(), "Unknown region: nowhere");
    assert_eq!(
        GeneralResourceErrorDetail::WrongPrefix("vol-").to_string(),
        "incorrect prefix, expected \"vol-\""
    );
    assert_eq!(
        GeneralResourceErrorDetail::NonAsciiAlphanumeric.to_string(),
        "the unique part contains non ascii alphanumeric characters"
    );
}
