use documentdb_gateway::error::ErrorCode;
use documentdb_gateway::numbers::{
    digit_in, hex_digits_text, parse_unsigned_text, push_decimal, push_lower_hex,
    signed_decimal_text, Radix,
};
use documentdb_gateway::telemetry::error_code_to_status_code;
use documentdb_gateway::text::{
    chars_of, split_text, split_text_once, text_eq, trim_text, white_space,
};

#[test]
fn status_code_table() {
    assert_eq!(error_code_to_status_code(None), 200);
    assert_eq!(error_code_to_status_code(Some(ErrorCode::AuthenticationFailed.code())), 401);
    assert_eq!(error_code_to_status_code(Some(ErrorCode::Unauthorized.code())), 401);
    assert_eq!(error_code_to_status_code(Some(ErrorCode::InternalError.code())), 500);
    assert_eq!(error_code_to_status_code(Some(ErrorCode::ExceededTimeLimit.code())), 408);
    assert_eq!(error_code_to_status_code(Some(ErrorCode::DuplicateKey.code())), 409);
    assert_eq!(error_code_to_status_code(Some(ErrorCode::BadValue.code())), 400);
    assert_eq!(error_code_to_status_code(Some(ErrorCode::TypeMismatch.code())), 400);
    assert_eq!(error_code_to_status_code(Some(0)), 400);
    assert_eq!(error_code_to_status_code(Some(-1)), 400);
    assert_eq!(error_code_to_status_code(Some(i32::MAX)), 400);
    assert_eq!(error_code_to_status_code(Some(18)), 401);
    assert_eq!(error_code_to_status_code(Some(13)), 401);
    assert_eq!(error_code_to_status_code(Some(1)), 500);
    assert_eq!(error_code_to_status_code(Some(262)), 408);
    assert_eq!(error_code_to_status_code(Some(11000)), 409);
}

#[test]
fn error_codes_read_back() {
    for code in [
        ErrorCode::InternalError,
        ErrorCode::BadValue,
        ErrorCode::Unauthorized,
        ErrorCode::TypeMismatch,
        ErrorCode::AuthenticationFailed,
        ErrorCode::ExceededTimeLimit,
        ErrorCode::DuplicateKey,
    ] {
        assert_eq!(ErrorCode::from_i32(code.code()), Some(code));
    }
    assert_eq!(ErrorCode::from_i32(3), None);
    assert_eq!(ErrorCode::from_i32(-13), None);
}

#[test]
fn split_agrees_with_the_standard_split() {
    for text in ["", "-", "a", "a-b", "-a", "a-", "--", "a--b-", "00-1-2-03", "é-ü-", "-----"] {
        let expected: Vec<String> = text.split('-').map(|part| part.to_string()).collect();
        assert_eq!(split_text(text, '-'), expected, "split of {text:?}");
        let once = text
            .split_once('-')
            .map(|(before, after)| (before.to_string(), after.to_string()));
        assert_eq!(split_text_once(text, '-'), once, "split once of {text:?}");
    }
}

#[test]
fn trim_agrees_with_the_standard_trim() {
    for text in [
        "",
        " ",
        "a",
        " a",
        "a ",
        "  a b  ",
        "\t\n a\u{a0}\u{3000}",
        "\u{2003}x\u{2003}y\u{2003}",
        "\u{200b}zero width stays\u{200b}",
        " \u{85} ",
    ] {
        assert_eq!(trim_text(text), text.trim(), "trim of {text:?}");
    }
}

#[test]
fn white_space_is_the_unicode_property() {
    for code in 0..=0x10FFFFu32 {
        if let Some(c) = char::from_u32(code) {
            assert_eq!(white_space(c), c.is_whitespace(), "U+{code:04X}");
        }
    }
}

#[test]
fn text_helpers() {
    assert_eq!(chars_of("aé-"), vec!['a', 'é', '-']);
    assert!(text_eq("admin", "admin"));
    assert!(!text_eq("admin", "Admin"));
    assert!(!text_eq("admin", "admin "));
}

#[test]
fn unsigned_numbers_read_as_the_standard_parsers_do() {
    let texts = [
        "", "+", "-", "0", "00", "+0", "-0", "7", "+7", "++7", "ff", "FF", "fF", "0x1f", "g", "1g",
        " 1", "1 ", "255", "256", "0255", "100", "１２", "4bf92f3577b34da6a3ce929d0e0e4736",
        "ffffffffffffffff", "10000000000000000", "ffffffffffffffffffffffffffffffff",
        "100000000000000000000000000000000", "000000000000000000000000000000000000000001",
        "18446744073709551615", "18446744073709551616", "340282366920938463463374607431768211455",
        "340282366920938463463374607431768211456", "99999999999999999999999999999999999999999",
    ];
    for text in texts {
        assert_eq!(
            parse_unsigned_text(text, Radix::Hexadecimal, u8::MAX as u128),
            u8::from_str_radix(text, 16).ok().map(u128::from),
            "u8 in radix 16 of {text:?}"
        );
        assert_eq!(
            parse_unsigned_text(text, Radix::Hexadecimal, u64::MAX as u128),
            u64::from_str_radix(text, 16).ok().map(u128::from),
            "u64 in radix 16 of {text:?}"
        );
        assert_eq!(
            parse_unsigned_text(text, Radix::Hexadecimal, u128::MAX),
            u128::from_str_radix(text, 16).ok(),
            "u128 in radix 16 of {text:?}"
        );
        assert_eq!(
            parse_unsigned_text(text, Radix::Decimal, u64::MAX as u128),
            text.parse::<u64>().ok().map(u128::from),
            "u64 in radix 10 of {text:?}"
        );
        assert_eq!(
            parse_unsigned_text(text, Radix::Decimal, u128::MAX),
            text.parse::<u128>().ok(),
            "u128 in radix 10 of {text:?}"
        );
    }
}

#[test]
fn hex_digits_of_a_width() {
    assert!(hex_digits_text("", 0));
    assert!(hex_digits_text("0f", 2));
    assert!(hex_digits_text("AbCdEf0123456789", 16));
    assert!(!hex_digits_text("0f", 1));
    assert!(!hex_digits_text("0f", 3));
    assert!(!hex_digits_text("+f", 2));
    assert!(!hex_digits_text("-f", 2));
    assert!(!hex_digits_text(" f", 2));
    assert!(!hex_digits_text("0g", 2));
    assert!(!hex_digits_text("\u{ff11}f", 2));
}

#[test]
fn digits() {
    for c in ['0', '9', 'a', 'f', 'A', 'F', 'g', 'G', '/', ':', '`', '@', ' ', 'é'] {
        assert_eq!(digit_in(c, Radix::Hexadecimal), c.to_digit(16), "{c:?} in radix 16");
        assert_eq!(digit_in(c, Radix::Decimal), c.to_digit(10), "{c:?} in radix 10");
    }
    for d in 0..16u128 {
        let mut out = String::new();
        push_lower_hex(&mut out, d, 1);
        assert_eq!(out, format!("{d:x}"));
    }
}

#[test]
fn numbers_are_written_as_the_standard_formats_do() {
    for v in [0u128, 1, 15, 16, 255, 256, 0xabcdef, u64::MAX as u128, u128::MAX] {
        let mut two = String::from("x");
        push_lower_hex(&mut two, v & 0xff, 2);
        assert_eq!(two, format!("x{:02x}", v & 0xff));
        let mut wide = String::new();
        push_lower_hex(&mut wide, v, 32);
        assert_eq!(wide, format!("{v:032x}"));
    }
    for v in [0u64, 9, 10, 11, 99, 100, 12345, u64::MAX] {
        let mut out = String::from("n=");
        push_decimal(&mut out, v);
        assert_eq!(out, format!("n={v}"));
    }
    for v in [0i32, 1, -1, 10, -10, 262, 11000, i32::MAX, i32::MIN] {
        assert_eq!(signed_decimal_text(v), v.to_string());
    }
}
