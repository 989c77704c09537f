use nl::format::{format_number, NumberFormat};
use nl::section::section_delimiters;

#[test]
fn render_right_zero() {
    assert_eq!(format_number(7, 4, NumberFormat::RightZero), "0007");
}

#[test]
fn render_right() {
    assert_eq!(format_number(7, 4, NumberFormat::Right), "   7");
}

#[test]
fn render_left() {
    assert_eq!(format_number(7, 4, NumberFormat::Left), "7   ");
}

#[test]
fn render_zero() {
    assert_eq!(format_number(0, 3, NumberFormat::RightZero), "000");
    assert_eq!(format_number(0, 3, NumberFormat::Right), "  0");
    assert_eq!(format_number(0, 3, NumberFormat::Left), "0  ");
}

#[test]
fn render_negative_numbers() {
    assert_eq!(format_number(-7, 4, NumberFormat::Right), "  -7");
    assert_eq!(format_number(-7, 4, NumberFormat::Left), "-7  ");
    assert_eq!(format_number(-7, 4, NumberFormat::RightZero), "-007");
}

#[test]
fn field_grows_when_number_is_wider() {
    assert_eq!(format_number(12345, 3, NumberFormat::Right), "12345");
    assert_eq!(format_number(-12345, 3, NumberFormat::RightZero), "-12345");
    assert_eq!(format_number(12345, 5, NumberFormat::Left), "12345");
}

#[test]
fn render_extreme_values() {
    assert_eq!(
        format_number(i64::MAX, 1, NumberFormat::Right),
        "9223372036854775807"
    );
    assert_eq!(
        format_number(i64::MIN, 1, NumberFormat::Right),
        "-9223372036854775808"
    );
}

#[test]
fn delimiters_are_the_base_repeated() {
    let (header, body, footer) = section_delimiters(['\\', ':']);
    assert_eq!(header, "\\:\\:\\:");
    assert_eq!(body, "\\:\\:");
    assert_eq!(footer, "\\:");
}

#[test]
fn delimiters_from_a_custom_base() {
    let (header, body, footer) = section_delimiters(['a', 'b']);
    assert_eq!(header, "ababab");
    assert_eq!(body, "abab");
    assert_eq!(footer, "ab");
}
