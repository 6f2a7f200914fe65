use tic_tac_toe::{parse_size, parse_square, size_from, square_from, validate_size, SizeError};

#[test]
fn sizes_within_the_limits_are_valid() {
    assert!(validate_size(3, 3));
    assert!(validate_size(2003, 1445));
    assert!(validate_size(3, 1445));
    assert!(validate_size(2003, 3));
    assert!(validate_size(1446, 3));
}

#[test]
fn sizes_outside_the_limits_are_invalid() {
    assert!(!validate_size(2, 3));
    assert!(!validate_size(3, 2));
    assert!(!validate_size(0, 0));
    assert!(!validate_size(2004, 3));
    assert!(!validate_size(3, 1446));
    assert!(!validate_size(3, 2003));
    assert!(!validate_size(usize::MAX, usize::MAX));
}

#[test]
fn size_line_gives_width_and_height() {
    assert_eq!(parse_size("3,3\n"), Ok((3, 3)));
    assert_eq!(parse_size("3,4"), Ok((3, 4)));
    assert_eq!(parse_size("2003,1445\n"), Ok((2003, 1445)));
    assert_eq!(parse_size(" 10 , 12 \n"), Ok((10, 12)));
    assert_eq!(parse_size("\t7,\u{2003}8\u{a0}\r\n"), Ok((7, 8)));
    assert_eq!(parse_size("+5,005\n"), Ok((5, 5)));
}

#[test]
fn size_line_ignores_fields_after_the_second() {
    assert_eq!(parse_size("3,4,5\n"), Ok((3, 4)));
    assert_eq!(parse_size("3,4,\n"), Ok((3, 4)));
    assert_eq!(parse_size("6 , 5 ,junk,more\n"), Ok((6, 5)));
}

#[test]
fn size_line_out_of_range() {
    assert_eq!(parse_size("2,3\n"), Err(SizeError::OutOfRange));
    assert_eq!(parse_size("3,2\n"), Err(SizeError::OutOfRange));
    assert_eq!(parse_size("0,0\n"), Err(SizeError::OutOfRange));
    assert_eq!(parse_size("2004,3\n"), Err(SizeError::OutOfRange));
    assert_eq!(parse_size("3,1446\n"), Err(SizeError::OutOfRange));
    assert_eq!(parse_size("4294967299,3\n"), Err(SizeError::OutOfRange));
    assert_eq!(parse_size("18446744073709551615,3\n"), Err(SizeError::OutOfRange));
}

#[test]
fn size_line_malformed() {
    assert_eq!(parse_size(""), Err(SizeError::Malformed));
    assert_eq!(parse_size("\n"), Err(SizeError::Malformed));
    assert_eq!(parse_size("3\n"), Err(SizeError::Malformed));
    assert_eq!(parse_size("3 3\n"), Err(SizeError::Malformed));
    assert_eq!(parse_size("a,3\n"), Err(SizeError::Malformed));
    assert_eq!(parse_size("3,b\n"), Err(SizeError::Malformed));
    assert_eq!(parse_size(",3\n"), Err(SizeError::Malformed));
    assert_eq!(parse_size("3,\n"), Err(SizeError::Malformed));
    assert_eq!(parse_size("3,"), Err(SizeError::Malformed));
    assert_eq!(parse_size(","), Err(SizeError::Malformed));
    assert_eq!(parse_size("3,,4\n"), Err(SizeError::Malformed));
    assert_eq!(parse_size("-3,3\n"), Err(SizeError::Malformed));
    assert_eq!(parse_size("3.0,3\n"), Err(SizeError::Malformed));
    assert_eq!(parse_size("1 0,3\n"), Err(SizeError::Malformed));
    assert_eq!(parse_size("18446744073709551616,3\n"), Err(SizeError::Malformed));
    assert_eq!(parse_size("\u{e9}3,3\n"), Err(SizeError::Malformed));
}

#[test]
fn size_from_two_numbers() {
    assert_eq!(size_from(Some(3), Some(3)), Ok((3, 3)));
    assert_eq!(size_from(Some(2003), Some(1445)), Ok((2003, 1445)));
    assert_eq!(size_from(Some(2004), Some(1445)), Err(SizeError::OutOfRange));
    assert_eq!(size_from(Some(2003), Some(1446)), Err(SizeError::OutOfRange));
    assert_eq!(size_from(Some(2), Some(3)), Err(SizeError::OutOfRange));
    assert_eq!(size_from(Some(3), Some(2)), Err(SizeError::OutOfRange));
    assert_eq!(size_from(Some(u64::MAX), Some(3)), Err(SizeError::OutOfRange));
    assert_eq!(size_from(Some(3), Some(u64::MAX)), Err(SizeError::OutOfRange));
    assert_eq!(size_from(Some((1 << 32) + 3), Some(3)), Err(SizeError::OutOfRange));
    assert_eq!(size_from(None, Some(3)), Err(SizeError::Malformed));
    assert_eq!(size_from(Some(3), None), Err(SizeError::Malformed));
    assert_eq!(size_from(None, None), Err(SizeError::Malformed));
    assert_eq!(size_from(None, Some(1)), Err(SizeError::Malformed));
}

#[test]
fn size_error_messages() {
    assert_eq!(SizeError::Malformed.message(), "Please enter board size in the correct format");
    assert_eq!(SizeError::OutOfRange.message(), "Board size is invalid!");
}

#[test]
fn square_line_counts_from_one() {
    assert_eq!(parse_square("1,1\n"), Some((0, 0)));
    assert_eq!(parse_square("2,3\n"), Some((1, 2)));
    assert_eq!(parse_square("3,2"), Some((2, 1)));
    assert_eq!(parse_square("255,255\n"), Some((254, 254)));
    assert_eq!(parse_square("+1,002\n"), Some((0, 1)));
}

#[test]
fn square_line_is_trimmed_field_by_field() {
    assert_eq!(parse_square(" 2 , 3 \n"), Some((1, 2)));
    assert_eq!(parse_square("\t2\t,\t3\r\n"), Some((1, 2)));
    assert_eq!(parse_square("\u{2003}3\u{2003},\u{a0}4\u{3000}\n"), Some((2, 3)));
    assert_eq!(parse_square("1 2,3\n"), None);
}

#[test]
fn square_line_needs_two_fields() {
    assert_eq!(parse_square(""), None);
    assert_eq!(parse_square("\n"), None);
    assert_eq!(parse_square("1\n"), None);
    assert_eq!(parse_square("1 2\n"), None);
    assert_eq!(parse_square("1,2,3\n"), None);
    assert_eq!(parse_square("1,2,\n"), None);
    assert_eq!(parse_square(",1,2\n"), None);
    assert_eq!(parse_square(",\n"), None);
    assert_eq!(parse_square("1,\n"), None);
    assert_eq!(parse_square(",1\n"), None);
    assert_eq!(parse_square("1,"), None);
    assert_eq!(parse_square(","), None);
}

#[test]
fn square_line_needs_numbers_from_one_up() {
    assert_eq!(parse_square("0,1\n"), None);
    assert_eq!(parse_square("1,0\n"), None);
    assert_eq!(parse_square("0,0\n"), None);
    assert_eq!(parse_square("a,1\n"), None);
    assert_eq!(parse_square("1,b\n"), None);
    assert_eq!(parse_square("-1,1\n"), None);
    assert_eq!(parse_square("1.5,1\n"), None);
    assert_eq!(parse_square("256,1\n"), None);
    assert_eq!(parse_square("1,256\n"), None);
    assert_eq!(parse_square("\u{ff11},\u{ff12}\n"), None);
    assert_eq!(parse_square("\u{e9},1\n"), None);
}

#[test]
fn square_from_row_and_column() {
    assert_eq!(square_from(Some(1), Some(1)), Some((0, 0)));
    assert_eq!(square_from(Some(3), Some(7)), Some((2, 6)));
    assert_eq!(square_from(Some(255), Some(1)), Some((254, 0)));
    assert_eq!(square_from(Some(0), Some(1)), None);
    assert_eq!(square_from(Some(1), Some(0)), None);
    assert_eq!(square_from(None, Some(1)), None);
    assert_eq!(square_from(Some(1), None), None);
    assert_eq!(square_from(None, None), None);
}
