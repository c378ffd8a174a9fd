use quick_assistant::text;
use quick_assistant::text::truncate;

#[test]
fn truncate_short_string() {
    assert_eq!(truncate("hello", 10), "hello");
}

#[test]
fn truncate_long_string() {
    assert_eq!(truncate("hello world", 5), "hello...");
}

#[test]
fn truncate_counts_characters() {
    assert_eq!(truncate("äöüß", 4), "äöüß");
    assert_eq!(truncate("äöüß", 3), "äöü...");
    assert_eq!(truncate("", 0), "");
    assert_eq!(truncate("a", 0), "...");
}

#[test]
fn whitespace_is_that_of_char() {
    for n in 0u32..=0x10ffff {
        if let Some(c) = char::from_u32(n) {
            assert_eq!(text::is_whitespace(c), c.is_whitespace(), "{:x}", n);
        }
    }
}

#[test]
fn trim_is_that_of_str() {
    for s in ["", " ", "a", " a b \n", "\u{3000}x\u{85}", "\u{200b}x", "\t\r\n"] {
        assert_eq!(text::trim(s), s.trim());
    }
}

#[test]
fn decimal_text_reads_back() {
    for n in [0u64, 1, 9, 10, 99, 100, 4_294_967_295, 18_446_744_073_709_551_615] {
        let shown = text::decimal_text(n);
        assert_eq!(shown, n.to_string());
        assert_eq!(text::parse_number(&shown, u64::MAX), Some(n));
    }
}

#[test]
fn parse_number_is_that_of_integers() {
    for s in ["", "+", "-1", "+7", "007", "12a", "4294967295", "4294967296", " 1", "++1", "99999999999999999999999"] {
        let wanted: Option<u64> = s.parse::<u32>().ok().map(|n| n as u64);
        assert_eq!(text::parse_number(s, u32::MAX as u64), wanted, "{}", s);
    }
}

#[test]
fn last_filled_line_is_that_of_lines() {
    for s in ["", "a", "a\n", "a\nb", "a\r\nb\r\n", "\n\n", "a\n\n\nb\n\n", "x\r", "a\n\r\n", "é\nü"] {
        let chars: Vec<char> = s.chars().collect();
        let found = text::last_filled_line(&chars)
            .map(|(n, from, to)| (n, chars[from..to].iter().collect::<String>()));
        let mut wanted = None;
        for (n, line) in s.lines().enumerate() {
            if !line.is_empty() {
                wanted = Some((n, line.to_string()));
            }
        }
        assert_eq!(found, wanted, "{:?}", s);
    }
}

#[test]
fn contains_text_is_that_of_str() {
    for (s, part) in [("vscode", "vscode"), ("my vscode 1", "vscode"), ("vscod", "vscode"), ("", ""), ("abc", ""), ("aab", "ab")] {
        assert_eq!(text::contains_text(s, part), s.contains(part));
    }
}

#[test]
fn sorted_texts_are_those_of_sort() {
    let names = ["b", "a", "", "aa", "Z", "é", "a", "\u{ffff}", "\u{10000}"];
    let mut wanted: Vec<String> = names.iter().map(|s| s.to_string()).collect();
    let found = text::sort_texts(wanted.clone());
    wanted.sort();
    assert_eq!(found, wanted);
    for a in names {
        for b in names {
            assert_eq!(text::text_at_most(a, b), a <= b);
        }
    }
}

#[test]
fn pushed_characters_come_last() {
    let chars = text::chars_of("añb");
    assert_eq!(chars, vec!['a', 'ñ', 'b']);
    assert_eq!(text::text_of(&chars, 1, 3), "ñb");
    assert_eq!(text::text_of(&chars, 2, 2), "");
}
