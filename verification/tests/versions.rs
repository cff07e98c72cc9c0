use anchoring::models::TechnologyVersion;
use anchoring::version_order::version_compare;
use anchoring::versions::{
    compare_versions, find_closest_index, find_closest_version, find_latest_index, parse_version,
    version_distance, VersionOrder,
};
use std::cmp::Ordering;

fn stored(names: &[&str]) -> Vec<TechnologyVersion> {
    names
        .iter()
        .enumerate()
        .map(|(i, name)| TechnologyVersion {
            id: i as u128,
            technology_id: 1,
            version: name.to_string(),
            created_at: 0,
            updated_at: 0,
        })
        .collect()
}

#[test]
fn versions_are_read_as_numbers_between_dots() {
    assert_eq!(parse_version("1.2.3"), vec![1, 2, 3]);
    assert_eq!(parse_version("10"), vec![10]);
    assert_eq!(parse_version("1.x.3"), vec![1, 0, 3]);
    assert_eq!(parse_version(""), vec![0]);
    assert_eq!(parse_version("1..2"), vec![1, 0, 2]);
    assert_eq!(parse_version("1.-2"), vec![1, 0]);
    assert_eq!(parse_version("4294967295.4294967296"), vec![u32::MAX, 0]);
    assert_eq!(parse_version("v1.2"), vec![0, 2]);
}

#[test]
fn versions_compare_by_number_not_by_text() {
    assert_eq!(version_compare("1.2.3", "1.10"), Ordering::Less);
    assert_eq!(version_compare("1.10", "1.9.9"), Ordering::Greater);
    assert_eq!(version_compare("2", "10"), Ordering::Less);
    assert_eq!(compare_versions("1.2.3", "1.10"), VersionOrder::Older);
    assert_eq!(compare_versions("3.0", "2.99"), VersionOrder::Newer);
}

#[test]
fn missing_parts_count_as_zero() {
    assert_eq!(version_compare("1.0", "1"), Ordering::Equal);
    assert_eq!(version_compare("1", "1.0.0"), Ordering::Equal);
    assert_eq!(version_compare("1.0.1", "1"), Ordering::Greater);
    assert_eq!(version_compare("", "0"), Ordering::Equal);
    assert_eq!(version_compare("beta", "0.0"), Ordering::Equal);
}

#[test]
fn distance_weighs_each_place_ten_times_the_next() {
    assert_eq!(version_distance(&vec![1, 2, 3], &vec![1, 2, 3]), 0);
    assert_eq!(version_distance(&vec![1, 2, 3], &vec![1, 2, 5]), 2);
    assert_eq!(version_distance(&vec![1, 2, 3], &vec![1, 4, 3]), 20);
    assert_eq!(version_distance(&vec![1, 2, 3], &vec![3, 2, 3]), 200);
    assert_eq!(version_distance(&vec![2], &vec![1, 5]), 10 + 5);
    assert_eq!(version_distance(&vec![], &vec![]), 0);
    assert_eq!(version_distance(&vec![u32::MAX], &vec![0]), 0xFFFF_FFFF);
    assert_eq!(version_distance(&vec![0; 40], &vec![1; 40]), 0xFFFF_FFFF);
}

#[test]
fn closest_version_is_the_one_at_least_distance() {
    let versions = stored(&["1.0", "2.0", "3.0"]);
    assert_eq!(find_closest_index(&versions, "2.1", true), Some(1));
    assert_eq!(find_closest_index(&versions, "2.9", true), Some(1));
    assert_eq!(find_closest_index(&versions, "3.1", true), Some(2));
    assert_eq!(find_closest_index(&versions, "0.1", false), Some(0));
    assert_eq!(find_closest_version(&versions, "2.1", true).unwrap().version, "2.0");
}

#[test]
fn equally_close_versions_are_told_apart_by_direction() {
    let versions = stored(&["1.0", "3.0"]);
    assert_eq!(find_closest_index(&versions, "2.0", true), Some(1));
    assert_eq!(find_closest_index(&versions, "2.0", false), Some(0));
    let reversed = stored(&["3.0", "1.0"]);
    assert_eq!(find_closest_index(&reversed, "2.0", true), Some(0));
    assert_eq!(find_closest_index(&reversed, "2.0", false), Some(1));
}

#[test]
fn no_version_is_close_where_there_is_none() {
    assert_eq!(find_closest_index(&[], "1.0", true), None);
    assert!(find_closest_version(&[], "1.0", true).is_none());
    let far_away = stored(&["4294967295"]);
    assert_eq!(find_closest_index(&far_away, "0", true), None);
}

#[test]
fn latest_version_is_the_newest_and_of_equals_the_last() {
    assert_eq!(find_latest_index(&stored(&["1.0", "1.10", "1.9"])), Some(1));
    assert_eq!(find_latest_index(&stored(&["2", "2.0", "1"])), Some(1));
    assert_eq!(find_latest_index(&[]), None);
}

#[test]
fn parts_are_read_as_plain_decimal_numbers() {
    assert_eq!(version_compare("1.+2", "1.2"), std::cmp::Ordering::Equal);
    assert_eq!(version_compare("1.02", "1.2"), std::cmp::Ordering::Equal);
    assert_eq!(version_compare("1.-2", "1.0"), std::cmp::Ordering::Equal);
    assert_eq!(version_compare("1. 2", "1.0"), std::cmp::Ordering::Equal);
    assert_eq!(version_compare("1.+", "1.0"), std::cmp::Ordering::Equal);
    assert_eq!(version_compare("1.4294967295", "1.4294967294"), std::cmp::Ordering::Greater);
    assert_eq!(version_compare("1.4294967296", "1.0"), std::cmp::Ordering::Equal);
}
