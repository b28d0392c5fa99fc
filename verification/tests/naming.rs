use deskscope::clock::{photo_filename, photo_filename_now, LocalTime};
use deskscope::text::decimal_text;

fn at(year: i32, month: u32, day: u32, hour: u32, minute: u32, second: u32) -> String {
    photo_filename(&LocalTime {
        year,
        month,
        day,
        hour,
        minute,
        second,
    })
}

#[test]
fn photo_name_holds_date_and_time() {
    assert_eq!(at(2026, 1, 2, 3, 4, 5), "deskscope_20260102_030405.png");
    assert_eq!(
        at(1999, 12, 31, 23, 59, 59),
        "deskscope_19991231_235959.png"
    );
}

#[test]
fn photo_name_of_a_leap_day() {
    assert_eq!(at(2024, 2, 29, 0, 0, 0), "deskscope_20240229_000000.png");
}

#[test]
fn photo_name_of_unusual_years() {
    assert_eq!(at(7, 1, 1, 0, 0, 0), "deskscope_00070101_000000.png");
    assert_eq!(at(999, 1, 1, 0, 0, 0), "deskscope_09990101_000000.png");
    assert_eq!(at(0, 1, 1, 0, 0, 0), "deskscope_00000101_000000.png");
    assert_eq!(at(9999, 1, 1, 0, 0, 0), "deskscope_99990101_000000.png");
    assert_eq!(at(10000, 1, 1, 0, 0, 0), "deskscope_+100000101_000000.png");
    assert_eq!(
        at(262142, 12, 31, 0, 0, 0),
        "deskscope_+2621421231_000000.png"
    );
    assert_eq!(at(-5, 1, 1, 0, 0, 0), "deskscope_-00050101_000000.png");
    assert_eq!(
        at(-262143, 1, 1, 0, 0, 0),
        "deskscope_-2621430101_000000.png"
    );
}

#[test]
fn names_of_different_seconds_differ() {
    assert_ne!(at(2026, 1, 2, 3, 4, 5), at(2026, 1, 2, 3, 4, 6));
    assert_ne!(at(2026, 1, 12, 3, 4, 5), at(2026, 11, 2, 3, 4, 5));
}

#[test]
fn name_from_the_clock_is_a_plain_png_name() {
    let name = photo_filename_now();
    assert!(!name.contains('/'));
    assert!(name.starts_with("deskscope_"));
    assert!(name.ends_with(".png"));
}

#[test]
fn numbers_in_decimal_notation() {
    for n in [0, 7, 9, 10, 42, 99, 100, 1234567890, usize::MAX] {
        assert_eq!(decimal_text(n), n.to_string());
    }
}
