use aws_resource_id::general_resource::{
    short_type_name, AwsAmiId, AwsResourceId, AwsSnapshotId, Error, ErrorDetail,
};

fn ami(s: &str) -> AwsAmiId {
    AwsAmiId::try_from(s).unwrap()
}

#[test]
fn general_resource_test_fmt_display() {
    assert_eq!(ami("ami-12345678").to_string(), "ami-12345678");
}

#[test]
fn general_resource_test_fmt_debug() {
    assert_eq!(
        ami("ami-12345678").debug_string(),
        r#"AwsAmiId("ami-12345678")"#
    );
}

#[test]
fn general_resource_test_wrong_prefix() {
    let result = AwsAmiId::try_from("amx-12345678");
    assert!(result.is_err());
    assert_eq!(
        result.unwrap_err().to_string(),
        "initialization of `AwsAmiId` by \"amx-12345678\" errored with: wrong prefix, expected ami-"
    );
}

#[test]
fn general_resource_test_error_wrong_length() {
    let result = AwsAmiId::try_from("ami-1234567");
    assert!(result.is_err());
    assert_eq!(
        result.unwrap_err().to_string(),
        "initialization of `AwsAmiId` by \"ami-1234567\" errored with: the unique part must be 8 or 17 characters, not 7 long"
    );

    let result = AwsAmiId::try_from("ami-123456789012345678");
    assert!(result.is_err());
    assert_eq!(
        result.unwrap_err().to_string(),
        "initialization of `AwsAmiId` by \"ami-123456789012345678\" errored with: the unique part must be 8 or 17 characters, not 18 long"
    );
}

#[test]
fn general_resource_test_error_non_alphanumeric() {
    let result = AwsAmiId::try_from("ami-1234567!");
    assert!(result.is_err());
    assert_eq!(
        result.unwrap_err().to_string(),
        "initialization of `AwsAmiId` by \"ami-1234567!\" errored with: the unique part contains non ascii alfanumeric characters"
    );
}

#[test]
fn test_valid_ids() {
    assert!(AwsAmiId::try_from("ami-1234abcd").is_ok());
    assert!(AwsAmiId::try_from("ami-1a2b3c4d5e6f7j8h9").is_ok());
    assert!(AwsSnapshotId::try_from("snap-1234abcd").is_ok());
    assert!(AwsSnapshotId::try_from("snap-1a2b3c4d5e6f7j8h9").is_ok());
}

#[test]
fn snapshot_ids_have_their_own_prefix_and_name() {
    let id = AwsSnapshotId::try_from("snap-1234abcd".to_string()).unwrap();
    assert_eq!(id.to_string(), "snap-1234abcd");
    assert_eq!(id.debug_string(), "AwsSnapshotId(\"snap-1234abcd\")");
    assert_eq!(id.unique_part(), b"1234abcd");
    let s: String = id.into();
    assert_eq!(s, "snap-1234abcd");
    assert_eq!(short_type_name::<AwsSnapshotId>(), "AwsSnapshotId");
    assert_eq!(short_type_name::<AwsAmiId>(), "AwsAmiId");
    assert_eq!(
        AwsSnapshotId::try_from("ami-1234abcd").unwrap_err().to_string(),
        "initialization of `AwsSnapshotId` by \"ami-1234abcd\" errored with: wrong prefix, expected snap-"
    );
}

#[test]
fn errors_are_made_from_their_parts() {
    let e = Error::new("AwsAmiId", "ami-", ErrorDetail::IdLength(0));
    assert_eq!(e.target_type(), "AwsAmiId");
    assert_eq!(e.input(), "ami-");
    assert!(matches!(e.error_detail(), ErrorDetail::IdLength(0)));
    assert_eq!(
        e.to_string(),
        "initialization of `AwsAmiId` by \"ami-\" errored with: the unique part must be 8 or 17 characters, not 0 long"
    );
    assert_eq!(
        ErrorDetail::WrongPrefix("snap-").to_string(),
        "wrong prefix, expected snap-"
    );
}

#[test]
fn alphanumeric_part_as_a_slice() {
    assert_eq!(AwsResourceId::C8(*b"1234abcd").as_slice(), b"1234abcd");
    assert_eq!(
        AwsResourceId::C17(*b"1a2b3c4d5e6f7j8h9").as_slice(),
        b"1a2b3c4d5e6f7j8h9"
    );
}

#[test]
fn alphabet_is_checked_before_length_in_both_modules() {
    assert!(matches!(
        AwsAmiId::try_from("ami-12!").unwrap_err().error_detail(),
        ErrorDetail::NonAsciiAlphanumeric
    ));
}

#[test]
fn ids_are_ordered_by_their_alphanumeric_part() {
    let short = ami("ami-zzzzzzzz");
    let long = ami("ami-00000000000000000");
    assert!(short < long);
    assert_eq!(short.cmp(&long), std::cmp::Ordering::Less);
    assert!(ami("ami-1234abcd") < ami("ami-1234abce"));
    assert_eq!(ami("ami-1234abcd"), ami("ami-1234abcd"));
    assert_ne!(ami("ami-1234abcd"), ami("ami-1234abce"));
    assert!(AwsResourceId::C8(*b"zzzzzzzz") < AwsResourceId::C17(*b"00000000000000000"));
    assert_eq!(
        AwsResourceId::C8(*b"1234abcd").partial_cmp(&AwsResourceId::C8(*b"1234abcd")),
        Some(std::cmp::Ordering::Equal)
    );
}

#[test]
fn round_trip_through_text_for_both_types() {
    for text in ["ami-1234abcd", "ami-1a2b3c4d5e6f7j8h9"] {
        assert_eq!(ami(text).to_string(), text);
        assert_eq!(ami(&ami(text).to_string()), ami(text));
    }
    for text in ["snap-1234abcd", "snap-1a2b3c4d5e6f7j8h9"] {
        let id = AwsSnapshotId::try_from(text).unwrap();
        assert_eq!(id.to_string(), text);
        assert_eq!(AwsSnapshotId::try_from(id.to_string()).unwrap(), id);
    }
}
