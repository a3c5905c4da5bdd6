use sadl::filename::{build_file_name, make_download_file_name, PREFIX_LEN};
use sadl::numfmt::{i64_to_dec_string, u64_to_dec_string, usize_to_dec_string};
use sadl::track::{display_row, Performer, TrackItem};

fn sample_track() -> TrackItem {
    TrackItem {
        title: String::from("T"),
        id: 7,
        isrc: String::from("X1"),
        performer: Performer { name: String::from("P"), id: 11 },
    }
}

#[test]
fn decimal_rendering_unsigned() {
    assert_eq!(u64_to_dec_string(0), "0");
    assert_eq!(u64_to_dec_string(7), "7");
    assert_eq!(u64_to_dec_string(1234), "1234");
    assert_eq!(u64_to_dec_string(u64::MAX), "18446744073709551615");
    assert_eq!(usize_to_dec_string(42), "42");
}

#[test]
fn decimal_rendering_signed() {
    assert_eq!(i64_to_dec_string(7), "7");
    assert_eq!(i64_to_dec_string(-5), "-5");
    assert_eq!(i64_to_dec_string(i64::MIN), "-9223372036854775808");
    assert_eq!(i64_to_dec_string(i64::MAX), "9223372036854775807");
}

#[test]
fn file_name_joins_fields_with_underscores() {
    let name = build_file_name(String::from("AAA"), 7, "X1", "T", "P");
    assert_eq!(name, "AAA_7_X1_T_P.flac");
}

#[test]
fn file_name_contains_marker_after_any_prefix() {
    let track = sample_track();
    let name = make_download_file_name(&track);
    assert!(name.contains("_7_X1_T_P"));
    assert!(name.ends_with("_7_X1_T_P.flac"));
    assert_eq!(&name[PREFIX_LEN..], "_7_X1_T_P.flac");
}

#[test]
fn prefix_is_thirty_alphanumeric_chars() {
    let track = sample_track();
    let name = make_download_file_name(&track);
    let prefix: Vec<char> = name.chars().take(PREFIX_LEN).collect();
    assert_eq!(prefix.len(), PREFIX_LEN);
    for c in prefix {
        assert!(c.is_ascii_alphanumeric());
    }
}

#[test]
fn random_prefixes_leave_suffix_fixed() {
    let track = sample_track();
    let a = make_download_file_name(&track);
    let b = make_download_file_name(&track);
    assert_eq!(&a[PREFIX_LEN..], &b[PREFIX_LEN..]);
}

#[test]
fn performer_displays_as_its_name() {
    let p = Performer { name: String::from("P"), id: 11 };
    assert_eq!(p.display_name(), "P");
}

#[test]
fn display_row_lists_position_and_fields() {
    let track = sample_track();
    let row = display_row(0, &track);
    assert_eq!(row, vec!["1", "7", "T", "X1", "P"]);
    let row = display_row(9, &track);
    assert_eq!(row[0], "10");
}
