use legion_cli::colors::{parse_color_bytes, parse_colors, ColorFormatError};

#[test]
fn accepts_full_example() {
    let r = parse_colors("255,0,0,0,255,0,0,0,255,128,128,0").unwrap();
    assert_eq!(r, vec![255, 0, 0, 0, 255, 0, 0, 0, 255, 128, 128, 0]);
}

#[test]
fn accepts_all_zero() {
    let r = parse_colors("0,0,0,0,0,0,0,0,0,0,0,0").unwrap();
    assert_eq!(r, vec![0u8; 12]);
}

#[test]
fn accepts_boundary_255() {
    let r = parse_colors("255,255,255,255,255,255,255,255,255,255,255,255").unwrap();
    assert_eq!(r, vec![255u8; 12]);
}

#[test]
fn accepts_leading_zeros() {
    let r = parse_colors("007,0,0,0,0,0,0,0,0,0,0,0").unwrap();
    assert_eq!(r[0], 7);
}

#[test]
fn rejects_eleven_tokens() {
    let r = parse_colors("1,2,3,4,5,6,7,8,9,10,11");
    assert_eq!(r, Err(ColorFormatError::WrongTokenCount));
}

#[test]
fn rejects_thirteen_tokens() {
    let r = parse_colors("1,2,3,4,5,6,7,8,9,10,11,12,13");
    assert_eq!(r, Err(ColorFormatError::WrongTokenCount));
}

#[test]
fn rejects_empty_input() {
    let r = parse_colors("");
    assert_eq!(r, Err(ColorFormatError::NonNumericToken));
}

#[test]
fn rejects_letters() {
    let r = parse_colors("a,0,0,0,0,0,0,0,0,0,0,0");
    assert_eq!(r, Err(ColorFormatError::NonNumericToken));
}

#[test]
fn rejects_plus_sign() {
    let r = parse_colors("+1,0,0,0,0,0,0,0,0,0,0,0");
    assert_eq!(r, Err(ColorFormatError::NonNumericToken));
}

#[test]
fn rejects_spaces() {
    let r = parse_colors("255, 0,0,0,0,0,0,0,0,0,0,0");
    assert_eq!(r, Err(ColorFormatError::NonNumericToken));
}

#[test]
fn rejects_empty_token() {
    let r = parse_colors("1,,2,3,4,5,6,7,8,9,10,11");
    assert_eq!(r, Err(ColorFormatError::NonNumericToken));
}

#[test]
fn rejects_value_256() {
    let r = parse_colors("256,0,0,0,0,0,0,0,0,0,0,0");
    assert_eq!(r, Err(ColorFormatError::ValueOutOfRange));
}

#[test]
fn rejects_huge_value() {
    let r = parse_colors("0,0,0,0,0,99999999999999999999,0,0,0,0,0,0");
    assert_eq!(r, Err(ColorFormatError::ValueOutOfRange));
}

#[test]
fn byte_parser_agrees_with_str_parser() {
    let s = "1,2,3,4,5,6,7,8,9,10,11,12";
    assert_eq!(parse_color_bytes(s.as_bytes()), parse_colors(s));
}

#[test]
fn error_messages_name_the_cause() {
    assert_eq!(
        ColorFormatError::WrongTokenCount.message(),
        "expected exactly 12 comma-separated color values"
    );
    assert_eq!(ColorFormatError::NonNumericToken.message(), "colors must be whole numbers");
    assert_eq!(
        ColorFormatError::ValueOutOfRange.message(),
        "color values must be between 0 and 255"
    );
}
