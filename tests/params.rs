use cdn77_client::outcome::Stream;
use cdn77_client::params::{parse_optional_location_ids, parse_paths, parse_resource_ids_optional, parse_u64, split_list};
use cdn77_client::EXIT_CODE_INVALID_INPUT;

#[test]
fn resource_ids_keep_order_and_drop_empty_items() {
    let r = parse_resource_ids_optional(&Some(" 1, 22 ,,333,".to_string()));
    assert_eq!(r.unwrap(), Some(vec![1, 22, 333]));
}

#[test]
fn resource_ids_absent_stay_absent() {
    assert_eq!(parse_resource_ids_optional(&None).unwrap(), None);
}

#[test]
fn resource_ids_only_separators_give_empty_list() {
    let r = parse_resource_ids_optional(&Some(" , ,".to_string()));
    assert_eq!(r.unwrap(), Some(vec![]));
}

#[test]
fn resource_ids_with_non_numeric_item_are_rejected() {
    let e = parse_resource_ids_optional(&Some("1,abc,3".to_string())).unwrap_err();
    assert_eq!(e.exit_code, EXIT_CODE_INVALID_INPUT);
    assert_eq!(e.stream, Stream::Stderr);
    assert_eq!(e.message, "At least one resource id is malformed");
}

#[test]
fn resource_ids_negative_item_is_rejected() {
    assert!(parse_resource_ids_optional(&Some("-1".to_string())).is_err());
}

#[test]
fn resource_ids_inner_space_is_rejected() {
    assert!(parse_resource_ids_optional(&Some("1 2".to_string())).is_err());
}

#[test]
fn resource_ids_largest_value_fits() {
    let r = parse_resource_ids_optional(&Some("18446744073709551615".to_string()));
    assert_eq!(r.unwrap(), Some(vec![u64::MAX]));
}

#[test]
fn resource_ids_overflow_is_rejected() {
    assert!(parse_resource_ids_optional(&Some("18446744073709551616".to_string())).is_err());
}

#[test]
fn u64_parse_follows_std() {
    for s in ["0", "007", "+5", "+", "", "-0", "12a", "99999999999999999999", "4294967296"] {
        assert_eq!(parse_u64(s), s.parse::<u64>().ok(), "input {:?}", s);
    }
}

#[test]
fn location_ids_are_trimmed_text() {
    let r = parse_optional_location_ids(&Some(" prague ,, london".to_string()));
    assert_eq!(r, Some(vec!["prague".to_string(), "london".to_string()]));
    assert_eq!(parse_optional_location_ids(&None), None);
}

#[test]
fn split_list_trims_unicode_whitespace() {
    assert_eq!(split_list("\u{3000}a\t,\n b\u{A0}"), vec!["a".to_string(), "b".to_string()]);
}

#[test]
fn empty_path_list_is_invalid_input() {
    let e = parse_paths("").unwrap_err();
    assert_eq!(e.exit_code, 2);
    assert_eq!(e.message, "Please specify at least one path");
}

#[test]
fn path_list_of_commas_and_spaces_is_invalid_input() {
    let e = parse_paths(" ,, \t, ").unwrap_err();
    assert_eq!(e.exit_code, 2);
}

#[test]
fn single_path_gives_one_item() {
    assert_eq!(parse_paths("/images/logo.png").unwrap(), vec!["/images/logo.png".to_string()]);
}

#[test]
fn several_paths_are_trimmed() {
    assert_eq!(parse_paths(" /a/* , /b,").unwrap(), vec!["/a/*".to_string(), "/b".to_string()]);
}
