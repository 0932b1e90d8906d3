use material_color_utilities::utils::string_utils::{
    argb_from_hex, hex_from_argb, parse_int_hex, try_argb_from_hex, HexFormatError,
};

#[test]
fn red_survives_reading_and_writing() {
    assert_eq!(hex_from_argb(argb_from_hex("#ff0000")), "#ff0000");
}

#[test]
fn short_form_equals_long_form() {
    assert_eq!(argb_from_hex("#fff"), argb_from_hex("#ffffff"));
    assert_eq!(argb_from_hex("#fff"), 0xffffffff);
    assert_eq!(argb_from_hex("#a1c"), argb_from_hex("#aa11cc"));
    assert_eq!(argb_from_hex("#a1c"), 0xffaa11cc);
}

#[test]
fn six_digits_are_red_green_blue() {
    assert_eq!(argb_from_hex("#ff0000"), 0xffff0000);
    assert_eq!(argb_from_hex("#00ff00"), 0xff00ff00);
    assert_eq!(argb_from_hex("#0000ff"), 0xff0000ff);
    assert_eq!(argb_from_hex("#123456"), 0xff123456);
    assert_eq!(argb_from_hex("#000000"), 0xff000000);
}

#[test]
fn eight_digits_drop_the_alpha() {
    assert_eq!(argb_from_hex("#80112233"), 0xff112233);
    assert_eq!(argb_from_hex("00abcdef"), 0xffabcdef);
    assert_eq!(argb_from_hex("#ffffffff"), 0xffffffff);
}

#[test]
fn the_hash_is_optional_and_may_repeat() {
    assert_eq!(argb_from_hex("a1b2c3"), 0xffa1b2c3);
    assert_eq!(argb_from_hex("#a1b2c3"), 0xffa1b2c3);
    assert_eq!(argb_from_hex("##a1b2c3"), 0xffa1b2c3);
    assert_eq!(argb_from_hex("###abc"), 0xffaabbcc);
}

#[test]
fn digits_may_be_upper_case() {
    assert_eq!(argb_from_hex("#FFAA00"), 0xffffaa00);
    assert_eq!(argb_from_hex("#FfAa00"), 0xffffaa00);
    assert_eq!(argb_from_hex("#ABC"), 0xffaabbcc);
}

#[test]
fn try_argb_from_hex_reads_what_argb_from_hex_reads() {
    for text in ["#ff0000", "#fff", "abc", "#80112233", "##a1b2c3", "#FFAA00", "000"] {
        assert_eq!(try_argb_from_hex(text), Ok(argb_from_hex(text)));
    }
}

#[test]
fn wrong_length_is_reported() {
    for text in ["", "#", "##", "#f", "#ff", "#ffff", "#fffff", "#fffffff", "#fffffffff", "zz"] {
        assert_eq!(try_argb_from_hex(text), Err(HexFormatError::WrongLength));
    }
}

#[test]
fn wrong_length_is_judged_before_the_digits() {
    assert_eq!(try_argb_from_hex("#zzzz"), Err(HexFormatError::WrongLength));
    assert_eq!(try_argb_from_hex("#ff#"), Err(HexFormatError::InvalidDigit));
}

#[test]
fn invalid_digit_is_reported() {
    for text in ["#ggg", "#12345g", "xyzxyz", "#ff 000", "+f+f+f", "-12345", "#zz112233", "#ff#fff"]
    {
        assert_eq!(try_argb_from_hex(text), Err(HexFormatError::InvalidDigit));
    }
}

#[test]
fn characters_are_counted_not_bytes() {
    assert_eq!(try_argb_from_hex("\u{e9}\u{e9}\u{e9}"), Err(HexFormatError::InvalidDigit));
    assert_eq!(try_argb_from_hex("\u{e9}f"), Err(HexFormatError::WrongLength));
    assert_eq!(try_argb_from_hex("\u{e9}112233"), Err(HexFormatError::WrongLength));
}

#[test]
fn hex_from_argb_writes_lower_case_with_leading_zeros() {
    assert_eq!(hex_from_argb(0xffff0000), "#ff0000");
    assert_eq!(hex_from_argb(0xff000a0b), "#000a0b");
    assert_eq!(hex_from_argb(0xffabcdef), "#abcdef");
    assert_eq!(hex_from_argb(0xff000000), "#000000");
    assert_eq!(hex_from_argb(0xffffffff), "#ffffff");
    assert_eq!(hex_from_argb(0xff1a2b3c), "#1a2b3c");
}

#[test]
fn hex_from_argb_leaves_the_alpha_out() {
    assert_eq!(hex_from_argb(0x12abcdef), "#abcdef");
    assert_eq!(hex_from_argb(0x00000000), "#000000");
}

#[test]
fn reading_what_was_written_gives_the_color_made_opaque() {
    for &argb in &[0u32, 0x12abcdef, 0xff000001, 0x80ffffff, 0xdeadbeef] {
        assert_eq!(argb_from_hex(&hex_from_argb(argb)), argb | 0xff000000);
    }
}

#[test]
fn writing_what_was_read_gives_the_text() {
    for text in ["#ff0000", "#000000", "#ffffff", "#1a2b3c", "#0f0f0f", "#abcdef"] {
        assert_eq!(hex_from_argb(argb_from_hex(text)), text);
    }
}

#[test]
fn parse_int_hex_reads_base_sixteen() {
    assert_eq!(parse_int_hex("0"), 0);
    assert_eq!(parse_int_hex("f"), 15);
    assert_eq!(parse_int_hex("ff"), 255);
    assert_eq!(parse_int_hex("FF"), 255);
    assert_eq!(parse_int_hex("10"), 16);
    assert_eq!(parse_int_hex("1a2B"), 0x1a2b);
    assert_eq!(parse_int_hex("ffffffff"), u32::MAX);
    assert_eq!(parse_int_hex("0000000000ff"), 255);
}
