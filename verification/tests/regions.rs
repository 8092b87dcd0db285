use aws_resource_id::{AwsRegionId, Error, RegionError};

#[test]
fn test_all_regions_covered() {
    let all_regions = [
        "af-south-1",
        "ap-east-1",
        "ap-northeast-1",
        "ap-northeast-2",
        "ap-northeast-3",
        "ap-south-1",
        "ap-south-2",
        "ap-southeast-1",
        "ap-southeast-2",
        "ap-southeast-3",
        "ap-southeast-4",
        "ca-central-1",
        "ca-west-1",
        "eu-central-1",
        "eu-central-2",
        "eu-north-1",
        "eu-south-1",
        "eu-south-2",
        "eu-west-1",
        "eu-west-2",
        "eu-west-3",
        "il-central-1",
        "me-central-1",
        "me-south-1",
        "sa-east-1",
        "us-east-1",
        "us-east-2",
        "us-west-1",
        "us-west-2",
    ];
    assert_eq!(all_regions.len(), 29);

    for region_str in all_regions {
        let region = AwsRegionId::try_from(region_str).unwrap();
        assert_eq!(region.as_ref(), region_str);
    }
}

#[test]
fn region_test_eq() {
    assert_eq!(
        AwsRegionId::try_from("us-east-1").unwrap(),
        AwsRegionId::try_from("us-east-1").unwrap(),
    );
    assert_ne!(
        AwsRegionId::try_from("us-east-1").unwrap(),
        AwsRegionId::try_from("eu-west-2").unwrap(),
    );
}

#[test]
fn test_valid_regions() {
    assert_eq!(
        AwsRegionId::try_from("us-east-1").unwrap(),
        AwsRegionId::UsEast1
    );
    assert_eq!(
        AwsRegionId::try_from("eu-west-2").unwrap(),
        AwsRegionId::EuWest2
    );
}

#[test]
fn test_invalid_region() {
    assert!(AwsRegionId::try_from("invalid-region").is_err());
}

#[test]
fn test_display() {
    assert_eq!(AwsRegionId::UsWest2.to_string(), "us-west-2");
    assert_eq!(AwsRegionId::EuCentral1.to_string(), "eu-central-1");
}

#[test]
fn test_into_str() {
    let s: &str = AwsRegionId::EuCentral1.into();
    assert_eq!(s, "eu-central-1");
}

#[test]
fn region_test_into_string() {
    let s: String = AwsRegionId::EuCentral1.into();
    assert_eq!(s, "eu-central-1");
}

#[test]
fn test_asref_str() {
    let s: &str = AwsRegionId::EuCentral1.as_ref();
    assert_eq!(s, "eu-central-1");
}

#[test]
fn region_test_tryfrom_str() {
    assert_eq!(
        AwsRegionId::try_from("eu-central-1").unwrap(),
        AwsRegionId::EuCentral1
    );
}

#[test]
fn region_test_tryfrom_string() {
    assert_eq!(
        AwsRegionId::try_from("eu-central-1".to_string()).unwrap(),
        AwsRegionId::EuCentral1
    );
}

#[test]
fn region_test_tryfrom_refstring() {
    assert_eq!(
        AwsRegionId::try_from(&"eu-central-1".to_string()).unwrap(),
        AwsRegionId::EuCentral1
    );
}

#[test]
fn region_test_fromstr() {
    assert_eq!(
        "eu-central-1".parse::<AwsRegionId>().unwrap(),
        AwsRegionId::EuCentral1
    );
    assert_eq!(
        "eu-central-1".to_string().parse::<AwsRegionId>().unwrap(),
        AwsRegionId::EuCentral1
    );
}

fn all_regions() -> Vec<(AwsRegionId, &'static str)> {
    vec![
        (AwsRegionId::AfSouth1, "af-south-1"),
        (AwsRegionId::ApEast1, "ap-east-1"),
        (AwsRegionId::ApNortheast1, "ap-northeast-1"),
        (AwsRegionId::ApNortheast2, "ap-northeast-2"),
        (AwsRegionId::ApNortheast3, "ap-northeast-3"),
        (AwsRegionId::ApSouth1, "ap-south-1"),
        (AwsRegionId::ApSouth2, "ap-south-2"),
        (AwsRegionId::ApSoutheast1, "ap-southeast-1"),
        (AwsRegionId::ApSoutheast2, "ap-southeast-2"),
        (AwsRegionId::ApSoutheast3, "ap-southeast-3"),
        (AwsRegionId::ApSoutheast4, "ap-southeast-4"),
        (AwsRegionId::CaCentral1, "ca-central-1"),
        (AwsRegionId::CaWest1, "ca-west-1"),
        (AwsRegionId::EuCentral1, "eu-central-1"),
        (AwsRegionId::EuCentral2, "eu-central-2"),
        (AwsRegionId::EuNorth1, "eu-north-1"),
        (AwsRegionId::EuSouth1, "eu-south-1"),
        (AwsRegionId::EuSouth2, "eu-south-2"),
        (AwsRegionId::EuWest1, "eu-west-1"),
        (AwsRegionId::EuWest2, "eu-west-2"),
        (AwsRegionId::EuWest3, "eu-west-3"),
        (AwsRegionId::IlCentral1, "il-central-1"),
        (AwsRegionId::MeCentral1, "me-central-1"),
        (AwsRegionId::MeSouth1, "me-south-1"),
        (AwsRegionId::SaEast1, "sa-east-1"),
        (AwsRegionId::UsEast1, "us-east-1"),
        (AwsRegionId::UsEast2, "us-east-2"),
        (AwsRegionId::UsWest1, "us-west-1"),
        (AwsRegionId::UsWest2, "us-west-2"),
    ]
}

#[test]
fn every_region_has_its_code() {
    let all = all_regions();
    assert_eq!(all.len(), 29);
    for (region, code) in all {
        assert_eq!(region.as_str(), code);
        assert_eq!(region.to_string(), code);
        let owned: String = region.into();
        assert_eq!(owned, code);
    }
}

#[test]
fn every_region_is_found_by_its_code() {
    for (region, code) in all_regions() {
        assert_eq!(AwsRegionId::try_from(code).unwrap(), region);
        assert_eq!(AwsRegionId::try_from(region.as_str()).unwrap(), region);
        assert_eq!(region.to_string().parse::<AwsRegionId>().unwrap(), region);
    }
}

#[test]
fn codes_are_pairwise_different() {
    let all = all_regions();
    for (i, (a, code_a)) in all.iter().enumerate() {
        for (j, (b, code_b)) in all.iter().enumerate() {
            assert_eq!(i == j, a == b);
            assert_eq!(i == j, code_a == code_b);
        }
    }
}

#[test]
fn near_misses_are_rejected() {
    for input in [
        "",
        " us-east-1",
        "us-east-1 ",
        "us-east-1\n",
        "US-EAST-1",
        "Us-East-1",
        "us-north-1",
        "us-east-3",
        "us-east",
        "us-east-",
        "us-east-10",
        "us_east_1",
        "useast1",
        "ap-southeast-5",
        "eu-west-1a",
        "us-e\u{e1}st-1",
    ] {
        match AwsRegionId::try_from(input) {
            Ok(region) => panic!("{:?} was accepted as {:?}", input, region),
            Err(Error::Region(e)) => {
                assert_eq!(e.input(), input);
                assert_eq!(e.to_string(), format!("Unknown region: {}", input));
            }
            Err(Error::General(e)) => panic!("a resource error for a region: {}", e.to_string()),
        }
    }
}

#[test]
fn unknown_region_error_text() {
    assert_eq!(
        AwsRegionId::try_from("us-north-1").unwrap_err().to_string(),
        "Unknown region: us-north-1"
    );
    assert_eq!(
        RegionError::new("mars-1").to_string(),
        "Unknown region: mars-1"
    );
    let wrapped: Error = RegionError::new("mars-1").into();
    assert_eq!(wrapped.to_string(), "Unknown region: mars-1");
}

#[test]
fn regions_are_ordered_as_they_are_listed() {
    let all = all_regions();
    for pair in all.windows(2) {
        assert!(pair[0].0 < pair[1].0);
    }
}
