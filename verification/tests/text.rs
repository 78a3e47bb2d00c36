use pracus::text::is_whitespace_char;
use pracus::text::trim;

#[test]
fn whitespace_is_the_unicode_white_space_property() {
    let mut code: u32 = 0;
    while code <= 0x10FFFF {
        if let Some(c) = char::from_u32(code) {
            assert_eq!(is_whitespace_char(c), c.is_whitespace(), "U+{:04X}", code);
        }
        code += 1;
    }
}

#[test]
fn whitespace_characters_are_twenty_five() {
    let mut count = 0;
    let mut code: u32 = 0;
    while code <= 0x10FFFF {
        if let Some(c) = char::from_u32(code) {
            if is_whitespace_char(c) {
                count += 1;
            }
        }
        code += 1;
    }
    assert_eq!(count, 25);
}

#[test]
fn trimming_agrees_with_the_standard_library() {
    let samples = [
        "",
        " ",
        "a",
        " a",
        "a ",
        "  a  b  ",
        "\n\t a\u{00A0}b \r\n",
        "\u{3000}\u{2003}x y\u{2028}",
        "\u{200B} x \u{200B}",
        "za\u{017C}\u{00F3}\u{0142}\u{0107} g\u{0119}\u{015B}l\u{0105} ja\u{017A}\u{0144} ",
        " \u{1F980} crab \u{1F980} ",
        "\u{0085}",
        "\u{001F}",
    ];
    for sample in samples {
        assert_eq!(trim(sample), sample.trim(), "{:?}", sample);
    }
}

#[test]
fn trimming_a_single_character_keeps_it_unless_it_is_whitespace() {
    let mut code: u32 = 0;
    while code <= 0x3100 {
        if let Some(c) = char::from_u32(code) {
            let text = c.to_string();
            let padded = format!(" {}\t", c);
            if c.is_whitespace() {
                assert_eq!(trim(&text), "");
                assert_eq!(trim(&padded), "");
            } else {
                assert_eq!(trim(&text), text);
                assert_eq!(trim(&padded), text);
            }
        }
        code += 1;
    }
}

#[test]
fn trimmed_text_is_a_slice_of_the_given_text() {
    let text = String::from("  inner text \n");
    let inner = trim(&text);
    assert_eq!(inner, "inner text");
    assert_eq!(inner.as_ptr(), text[2..].as_ptr());
}

#[test]
fn inner_whitespace_is_kept() {
    assert_eq!(trim(" a \n b "), "a \n b");
    assert_eq!(trim("a\u{00A0}b"), "a\u{00A0}b");
}
