use system_info::text::{
    char_fold_case, char_is_digit, char_is_space, chars_of, matches_at, matches_folded_at,
    slice_contains_folded, slice_ends_with, slice_find, slice_leading_number, slice_next_where,
    slice_split, slice_trim, slice_words,
};

fn chars(text: &str) -> Vec<char> {
    text.chars().collect()
}

fn cut(text: &[char], ranges: &[(usize, usize)]) -> Vec<String> {
    ranges.iter().map(|r| text[r.0..r.1].iter().collect()).collect()
}

#[test]
fn characters_come_out_in_order() {
    assert_eq!(chars_of("a\u{e4}\u{1d11e}z"), vec!['a', '\u{e4}', '\u{1d11e}', 'z']);
    assert_eq!(chars_of(""), Vec::<char>::new());
}

#[test]
fn white_space_is_what_unicode_says() {
    for code in 0..=0x11_0000u32 {
        if let Some(c) = char::from_u32(code) {
            assert_eq!(char_is_space(c), c.is_whitespace(), "U+{:04X}", code);
        }
    }
}

#[test]
fn digits_are_zero_to_nine() {
    for code in 0..=0x11_0000u32 {
        if let Some(c) = char::from_u32(code) {
            assert_eq!(char_is_digit(c), c.is_ascii_digit(), "U+{:04X}", code);
        }
    }
}

#[test]
fn folding_lowers_ascii_letters_only() {
    for code in 0..=0x11_0000u32 {
        if let Some(c) = char::from_u32(code) {
            assert_eq!(char_fold_case(c), c.to_ascii_lowercase(), "U+{:04X}", code);
        }
    }
}

#[test]
fn pattern_is_matched_in_place() {
    let text = chars("VGA vga");
    assert!(matches_at(&text, &chars("VGA"), 0));
    assert!(!matches_at(&text, &chars("VGA"), 4));
    assert!(matches_at(&text, &chars(""), 7));
    assert!(matches_folded_at(&text, &chars("vga"), 0));
    assert!(matches_folded_at(&text, &chars("vga"), 4));
    assert!(!matches_folded_at(&text, &chars("vga"), 1));
    assert!(!matches_folded_at(&text, &chars("VGA"), 0));
}

#[test]
fn pattern_is_not_matched_beyond_the_end() {
    let text = chars("vga");
    assert!(!matches_at(&text, &chars("ga"), 2));
    assert!(!matches_at(&text, &chars("vga "), 0));
    assert!(!matches_at(&text, &chars(""), 4));
    assert!(!matches_at(&text, &chars("a"), usize::MAX));
    assert!(!matches_folded_at(&text, &chars("ga"), 2));
    assert!(!matches_folded_at(&text, &chars(""), usize::MAX));
    assert!(matches_folded_at(&text, &chars(""), 3));
}

#[test]
fn containment_ignores_the_case_of_the_text() {
    assert!(slice_contains_folded(&chars("A 3D Controller"), &chars("3d controller")));
    assert!(slice_contains_folded(&chars("xxvGaxx"), &chars("vga")));
    assert!(slice_contains_folded(&chars("anything"), &chars("")));
    assert!(slice_contains_folded(&chars(""), &chars("")));
    assert!(!slice_contains_folded(&chars("vg"), &chars("vga")));
    assert!(!slice_contains_folded(&chars("v-g-a"), &chars("vga")));
    assert!(!slice_contains_folded(&chars("\u{212a}elvin"), &chars("kelvin")));
}

#[test]
fn suffix_is_matched_exactly() {
    assert!(slice_ends_with(&chars("256M"), &chars("M")));
    assert!(slice_ends_with(&chars("256MB"), &chars("MB")));
    assert!(slice_ends_with(&chars("M"), &chars("M")));
    assert!(slice_ends_with(&chars("x"), &chars("")));
    assert!(!slice_ends_with(&chars("256MB"), &chars("M")));
    assert!(!slice_ends_with(&chars("256m"), &chars("M")));
    assert!(!slice_ends_with(&chars("B"), &chars("MB")));
    assert!(!slice_ends_with(&chars(""), &chars("M")));
}

#[test]
fn find_gives_the_first_occurrence() {
    let text = chars("a::b::c");
    assert_eq!(slice_find(&text, &chars("::"), 0), Some(1));
    assert_eq!(slice_find(&text, &chars("::"), 1), Some(1));
    assert_eq!(slice_find(&text, &chars("::"), 2), Some(4));
    assert_eq!(slice_find(&text, &chars("::"), 5), None);
    assert_eq!(slice_find(&text, &chars("::"), 100), None);
    assert_eq!(slice_find(&text, &chars(""), 7), Some(7));
    assert_eq!(slice_find(&text, &chars(""), 8), None);
    assert_eq!(slice_find(&chars(""), &chars("a"), 0), None);
}

#[test]
fn split_cuts_at_each_separator() {
    let text = chars("a:b::c:");
    assert_eq!(cut(&text, &slice_split(&text, &chars(":"))), vec!["a", "b", "", "c", ""]);
    let text = chars("no separator");
    assert_eq!(cut(&text, &slice_split(&text, &chars(":"))), vec!["no separator"]);
    let text = chars("");
    assert_eq!(cut(&text, &slice_split(&text, &chars(":"))), vec![""]);
}

#[test]
fn split_at_nothing_leaves_the_text_whole() {
    let text = chars("a:b");
    assert_eq!(cut(&text, &slice_split(&text, &chars(""))), vec!["a:b"]);
    let text = chars("");
    assert_eq!(cut(&text, &slice_split(&text, &chars(""))), vec![""]);
}

#[test]
fn split_takes_separators_from_the_left() {
    let text = chars("a\n\n\nb\n\n\n\nc");
    assert_eq!(cut(&text, &slice_split(&text, &chars("\n\n"))), vec!["a", "\nb", "", "c"]);
}

#[test]
fn split_agrees_with_std() {
    for text in ["", ":", "::", "a:b", ":a:", "a::b:::c", "\n\na\n\n\n"] {
        for sep in [":", "::", "\n\n", "a:"] {
            let all = chars(text);
            let expected: Vec<String> = text.split(sep).map(|s| s.to_string()).collect();
            assert_eq!(cut(&all, &slice_split(&all, &chars(sep))), expected);
        }
    }
}

#[test]
fn next_where_finds_space_and_its_absence() {
    let text = chars("  ab\tc");
    assert_eq!(slice_next_where(&text, 0, true), 0);
    assert_eq!(slice_next_where(&text, 0, false), 2);
    assert_eq!(slice_next_where(&text, 2, true), 4);
    assert_eq!(slice_next_where(&text, 5, true), 6);
    assert_eq!(slice_next_where(&text, 6, false), 6);
    assert_eq!(slice_next_where(&text, 7, false), 6);
    assert_eq!(slice_next_where(&text, usize::MAX, true), 6);
}

#[test]
fn words_are_what_white_space_leaves() {
    let text = chars("  Memory at\tf0000000 \u{a0} 256M\r\n");
    assert_eq!(cut(&text, &slice_words(&text)), vec!["Memory", "at", "f0000000", "256M"]);
    let text = chars("one");
    assert_eq!(cut(&text, &slice_words(&text)), vec!["one"]);
    let text = chars(" \t ");
    assert!(slice_words(&text).is_empty());
    assert!(slice_words(&chars("")).is_empty());
}

#[test]
fn words_agree_with_std() {
    for text in ["", " ", "a", " a", "a ", "a b", "  a\u{2003}b\n c\t\t", "\u{3000}x\u{85}y"] {
        let all = chars(text);
        let expected: Vec<String> = text.split_whitespace().map(|s| s.to_string()).collect();
        assert_eq!(cut(&all, &slice_words(&all)), expected);
    }
}

#[test]
fn trim_takes_the_space_off_both_ends() {
    for text in ["", " ", "a", " a", "a ", " a b ", "\t\r\n a \u{a0}b\u{2003}\n", "\u{3000}"] {
        let all = chars(text);
        let (a, b) = slice_trim(&all);
        let trimmed: String = all[a..b].iter().collect();
        assert_eq!(trimmed, text.trim());
    }
}

#[test]
fn leading_number_is_read_in_base_ten() {
    assert_eq!(slice_leading_number(&chars("256M")), Some(256));
    assert_eq!(slice_leading_number(&chars("0")), Some(0));
    assert_eq!(slice_leading_number(&chars("007")), Some(7));
    assert_eq!(slice_leading_number(&chars("12x34")), Some(12));
    assert_eq!(slice_leading_number(&chars("1.5M")), Some(1));
    assert_eq!(slice_leading_number(&chars("")), None);
    assert_eq!(slice_leading_number(&chars("M")), None);
    assert_eq!(slice_leading_number(&chars("-1")), None);
    assert_eq!(slice_leading_number(&chars("+1")), None);
    assert_eq!(slice_leading_number(&chars(" 1")), None);
    assert_eq!(slice_leading_number(&chars("\u{661}")), None);
}

#[test]
fn leading_number_stops_at_the_largest_value() {
    assert_eq!(slice_leading_number(&chars("18446744073709551615")), Some(u64::MAX));
    assert_eq!(slice_leading_number(&chars("18446744073709551615M")), Some(u64::MAX));
    assert_eq!(slice_leading_number(&chars("18446744073709551616")), None);
    assert_eq!(slice_leading_number(&chars("18446744073709551620")), None);
    assert_eq!(slice_leading_number(&chars("99999999999999999999")), None);
    assert_eq!(slice_leading_number(&chars("000000000000000000000000000001")), Some(1));
}

#[test]
fn text_functions_agree_with_std_on_any_text() {
    const PARTS: [&str; 16] = [
        "a", "B", "vga", "VGA", ":", "::", " ", "\t", "\n", "\n\n", "\u{a0}", "\u{3000}", "7", "42",
        "M", "\u{e4}",
    ];
    let mut state: u64 = 0x9e37_79b9_7f4a_7c15;
    let mut next = move |bound: usize| {
        state ^= state << 13;
        state ^= state >> 7;
        state ^= state << 17;
        (state % bound as u64) as usize
    };
    for _ in 0..5_000 {
        let mut text = String::new();
        for _ in 0..next(12) {
            text.push_str(PARTS[next(PARTS.len())]);
        }
        let pattern = PARTS[next(PARTS.len())];
        let all = chars(&text);
        let pat = chars(pattern);

        let pieces: Vec<String> = text.split(pattern).map(|s| s.to_string()).collect();
        assert_eq!(cut(&all, &slice_split(&all, &pat)), pieces, "{:?} at {:?}", text, pattern);

        let words: Vec<String> = text.split_whitespace().map(|s| s.to_string()).collect();
        assert_eq!(cut(&all, &slice_words(&all)), words, "{:?}", text);

        let (a, b) = slice_trim(&all);
        assert_eq!(all[a..b].iter().collect::<String>(), text.trim(), "{:?}", text);

        let at = text.chars().collect::<Vec<char>>();
        let found = text.find(pattern).map(|byte| text[..byte].chars().count());
        assert_eq!(slice_find(&at, &pat, 0), found, "{:?} in {:?}", pattern, text);

        assert_eq!(slice_ends_with(&all, &pat), text.ends_with(pattern));
        assert_eq!(
            slice_contains_folded(&all, &chars(&pattern.to_ascii_lowercase())),
            text.to_ascii_lowercase().contains(&pattern.to_ascii_lowercase())
        );

        let digits: String = text.chars().take_while(|c| c.is_ascii_digit()).collect();
        assert_eq!(slice_leading_number(&all), digits.parse::<u64>().ok(), "{:?}", text);
    }
}
