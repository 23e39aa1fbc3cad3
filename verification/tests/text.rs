use parallely::text::decimal_string;
use parallely::text::split_words;

#[test]
fn decimal_of_zero_is_one_digit() {
    assert_eq!(decimal_string(0), "0");
}

#[test]
fn decimal_of_small_numbers() {
    assert_eq!(decimal_string(7), "7");
    assert_eq!(decimal_string(9), "9");
    assert_eq!(decimal_string(10), "10");
    assert_eq!(decimal_string(42), "42");
    assert_eq!(decimal_string(1005), "1005");
}

#[test]
fn decimal_of_the_largest_number() {
    assert_eq!(decimal_string(u32::MAX), "4294967295");
}

#[test]
fn decimal_agrees_with_the_standard_rendering() {
    let samples: [u32; 8] = [0, 1, 99, 100, 12345, 65535, 65536, 999_999_999];
    for n in samples {
        assert_eq!(decimal_string(n), format!("{}", n));
    }
}

#[test]
fn words_of_a_simple_command() {
    assert_eq!(split_words("sleep 5"), vec!["sleep".to_string(), "5".to_string()]);
}

#[test]
fn words_ignore_blank_runs_at_both_ends_and_between() {
    assert_eq!(
        split_words("  echo   hello   world  "),
        vec!["echo".to_string(), "hello".to_string(), "world".to_string()]
    );
}

#[test]
fn blank_command_has_no_words() {
    assert_eq!(split_words(""), Vec::<String>::new());
    assert_eq!(split_words("   "), Vec::<String>::new());
    assert_eq!(split_words("\t\n"), Vec::<String>::new());
}

#[test]
fn single_word_is_kept_whole() {
    assert_eq!(split_words("ls"), vec!["ls".to_string()]);
}

#[test]
fn tabs_and_newlines_split_words() {
    assert_eq!(
        split_words("cargo\tbuild\n--release"),
        vec!["cargo".to_string(), "build".to_string(), "--release".to_string()]
    );
}

#[test]
fn wide_whitespace_splits_words() {
    assert_eq!(
        split_words("a\u{3000}b\u{a0}c"),
        vec!["a".to_string(), "b".to_string(), "c".to_string()]
    );
}

#[test]
fn words_keep_characters_beyond_ascii() {
    assert_eq!(
        split_words("echo héllo wörld"),
        vec!["echo".to_string(), "héllo".to_string(), "wörld".to_string()]
    );
}

#[test]
fn words_agree_with_the_standard_splitting() {
    let samples = ["", " ", "a", " a b ", "x\ty\nz", "one  two   three", "\u{2003}wide\u{2003}"];
    for sample in samples {
        let expected: Vec<String> = sample.split_whitespace().map(String::from).collect();
        assert_eq!(split_words(sample), expected);
    }
}

#[test]
fn whitespace_is_what_the_standard_library_calls_whitespace() {
    for n in 0..=0x10ffffu32 {
        if let Some(c) = char::from_u32(n) {
            let text: String = ['a', c, 'b'].iter().collect();
            let parts = split_words(&text).len();
            assert_eq!(parts == 2, c.is_whitespace(), "character {:#x}", n);
        }
    }
}
