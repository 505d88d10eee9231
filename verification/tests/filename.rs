use krusty_grab::filename::{
    save_file_name, timestamped_file_name, STAMP_FIRST, STAMP_LAST, STAMP_PATTERN,
};
use krusty_grab::krustygrab::Format;

#[test]
fn name_is_stamp_dot_extension() {
    assert_eq!(save_file_name("2024_01_02-03_04_05", Format::Png), "2024_01_02-03_04_05.png");
    assert_eq!(save_file_name("x", Format::Jpeg), "x.jpg");
    assert_eq!(save_file_name("", Format::Gif), ".gif");
}

#[test]
fn stamp_is_written_year_first() {
    assert_eq!(STAMP_PATTERN, "%Y_%m_%d-%H_%M_%S");
    assert_eq!(
        timestamped_file_name(0, Format::Png),
        Some("1970_01_01-00_00_00.png".to_string())
    );
    assert_eq!(
        timestamped_file_name(1431648000, Format::Jpeg),
        Some("2015_05_15-00_00_00.jpg".to_string())
    );
    assert_eq!(
        timestamped_file_name(1700000000, Format::Gif),
        Some("2023_11_14-22_13_20.gif".to_string())
    );
    assert_eq!(
        timestamped_file_name(-1, Format::Png),
        Some("1969_12_31-23_59_59.png".to_string())
    );
}

#[test]
fn a_time_out_of_range_has_no_name() {
    assert_eq!(timestamped_file_name(i64::MAX, Format::Png), None);
    assert_eq!(timestamped_file_name(i64::MIN, Format::Png), None);
}

#[test]
fn every_time_of_the_years_1_to_9999_has_a_name() {
    assert_eq!(
        timestamped_file_name(STAMP_FIRST, Format::Png),
        Some("0001_01_01-00_00_00.png".to_string())
    );
    assert_eq!(
        timestamped_file_name(STAMP_LAST, Format::Png),
        Some("9999_12_31-23_59_59.png".to_string())
    );
    assert_eq!(
        timestamped_file_name(STAMP_LAST + 1, Format::Png),
        Some("+10000_01_01-00_00_00.png".to_string())
    );
}
