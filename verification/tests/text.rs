use mesh_debug_draw::text::{is_decimal_digit, is_number_word, is_whitespace, parse_usize, split_words};

fn letters(text: &str) -> Vec<char> {
    text.chars().collect()
}

#[test]
fn white_space_is_that_of_the_standard_library() {
    for code in 0..=0x10ffffu32 {
        if let Some(c) = char::from_u32(code) {
            assert_eq!(is_whitespace(c), c.is_whitespace(), "U+{:04X}", code);
        }
    }
}

#[test]
fn digits_are_the_ten_ascii_digits() {
    for code in 0..=0x10ffffu32 {
        if let Some(c) = char::from_u32(code) {
            assert_eq!(is_decimal_digit(c), c.is_ascii_digit(), "U+{:04X}", code);
        }
    }
}

#[test]
fn words_are_those_of_the_standard_library() {
    let lines = [
        "",
        " ",
        "a",
        " a",
        "a ",
        "  v  1.0\t2.0 \u{a0} 3.0  ",
        "f 1/2/3 4/5/6\r",
        "\u{2028}x\u{2029}y\u{85}z",
        "one\u{b}two\u{c}three",
        "no-break\u{feff}here and\u{200b}there",
    ];
    for line in lines {
        let expected: Vec<Vec<char>> = line.split_whitespace().map(letters).collect();
        assert_eq!(split_words(&letters(line)), expected, "{:?}", line);
    }
}

#[test]
fn number_words_have_the_form_of_a_decimal_number() {
    for word in [
        "0", "7", "007", "3.14", "-3.14", "+3.14", "5.", ".5", "-.5", "+5.", "2.5E10", "2.5e10", "2.5E-10",
        "2.5e+10", "1e5", "1.e5", ".1e5", "inf", "-inf", "+infinity", "INF", "Infinity", "NaN", "nan", "-nan",
        "+NAN", "1e99999999999999999999", "00000000000000000000000.00000000000000000000001",
    ] {
        assert!(is_number_word(&letters(word)), "{:?}", word);
    }
    for word in [
        "", "+", "-", ".", "+.", "e5", ".e5", "1e", "1e+", "1e-", "1e5.", "1.5.2", "1..5", "--1", "+-1", "1-", "1 ",
        " 1", "1,5", "1_000", "0x10", "1f", "1.0f", "in", "infinit", "infinityy", "na", "nann", "i", "1inf",
        "inf1", "١", "1e５", "ınf", "\u{130}nf",
    ] {
        assert!(!is_number_word(&letters(word)), "{:?}", word);
    }
}

#[test]
fn number_words_are_what_the_standard_parser_accepts() {
    let pieces = ["", "+", "-", "0", "12", ".", "e", "E", "e+", "e-", "inf", "nan", "infinity", "x", "_", " "];
    let mut count = 0;
    for a in pieces {
        for b in pieces {
            for c in pieces {
                for d in pieces {
                    let word = format!("{}{}{}{}", a, b, c, d);
                    let expected = word.parse::<f32>().is_ok();
                    assert_eq!(is_number_word(&letters(&word)), expected, "{:?}", word);
                    count += 1;
                }
            }
        }
    }
    assert_eq!(count, 65536);
}

#[test]
fn letter_case_of_special_numbers_does_not_matter() {
    for word in ["iNf", "InFiNiTy", "nAn", "-INFINITY", "+Nan"] {
        assert!(is_number_word(&letters(word)));
        assert!(word.parse::<f32>().is_ok());
    }
}

#[test]
fn unsigned_numbers_are_read_within_the_given_range() {
    let word = letters("ab123cd");
    assert_eq!(parse_usize(&word, 2, 5), Some(123));
    assert_eq!(parse_usize(&word, 2, 4), Some(12));
    assert_eq!(parse_usize(&word, 3, 3), None);
    assert_eq!(parse_usize(&word, 1, 5), None);
    assert_eq!(parse_usize(&word, 2, 6), None);
    assert_eq!(parse_usize(&letters("+9"), 0, 2), Some(9));
    assert_eq!(parse_usize(&letters("+9"), 0, 1), None);
    assert_eq!(parse_usize(&letters("+9"), 1, 2), Some(9));
}

#[test]
fn unsigned_numbers_stop_at_the_machine_word() {
    let greatest = usize::MAX.to_string();
    assert_eq!(parse_usize(&letters(&greatest), 0, greatest.len()), Some(usize::MAX));
    let mut digits: Vec<char> = greatest.chars().collect();
    let last = digits.len() - 1;
    digits[last] = char::from_digit(digits[last].to_digit(10).unwrap() + 1, 10).unwrap();
    assert_eq!(parse_usize(&digits, 0, digits.len()), None);
    let longer = format!("{}0", greatest);
    assert_eq!(parse_usize(&letters(&longer), 0, longer.len()), None);
    let padded = format!("000{}", greatest);
    assert_eq!(parse_usize(&letters(&padded), 0, padded.len()), Some(usize::MAX));
}
