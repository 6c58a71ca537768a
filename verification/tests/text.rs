use ro_start::text::{
    chars_of, contains, decimal_string, find_char, line_ranges, matches_at, starts_with,
    str_before_first, str_eq,
};

fn chars(s: &str) -> Vec<char> {
    s.chars().collect()
}

#[test]
fn chars_of_gives_every_character() {
    assert_eq!(chars_of(""), Vec::<char>::new());
    assert_eq!(chars_of("aä日"), vec!['a', 'ä', '日']);
}

#[test]
fn str_eq_like_the_operator() {
    let texts = ["", "a", "ab", "ä", "a\u{308}", "日本語", "日本", "b"];
    for a in texts {
        for b in texts {
            assert_eq!(str_eq(a, b), a == b, "{:?} {:?}", a, b);
        }
    }
}

#[test]
fn decimal_like_the_standard_formatting() {
    for n in [0u64, 1, 9, 10, 11, 99, 100, 101, 1000, 65535, 4294967296, u64::MAX] {
        assert_eq!(decimal_string(n), format!("{}", n));
    }
    for n in 0..2000u64 {
        assert_eq!(decimal_string(n), n.to_string());
    }
}

#[test]
fn searching_like_the_standard_functions() {
    let texts = ["", "a", "aa", "ab", "ba", "aab", "abab", "bäb", "äb", "日本語", "本"];
    for s in texts {
        for pat in texts {
            assert_eq!(
                contains(&chars(s), &chars(pat)),
                s.contains(pat),
                "{:?} contains {:?}",
                s,
                pat
            );
            assert_eq!(
                starts_with(&chars(s), &chars(pat)),
                s.starts_with(pat),
                "{:?} starts with {:?}",
                s,
                pat
            );
        }
    }
}

#[test]
fn matches_at_each_position() {
    let s = chars("abcabc");
    let pat = chars("bc");
    let found: Vec<usize> = (0..10).filter(|i| matches_at(&s, *i, &pat)).collect();
    assert_eq!(found, vec![1, 4]);
    assert!(matches_at(&s, 6, &[]));
    assert!(!matches_at(&s, 7, &[]));
    assert!(!matches_at(&s, usize::MAX, &pat));
}

#[test]
fn find_char_from_a_position() {
    let s = chars("a.b.c");
    assert_eq!(find_char(&s, 0, '.'), 1);
    assert_eq!(find_char(&s, 1, '.'), 1);
    assert_eq!(find_char(&s, 2, '.'), 3);
    assert_eq!(find_char(&s, 4, '.'), 5);
    assert_eq!(find_char(&s, 5, '.'), 5);
    assert_eq!(find_char(&s, 0, 'x'), 5);
}

#[test]
fn before_first_like_the_first_piece_of_split() {
    for s in ["", ".", "a", "a.b", "a.b.c", ".a", "a.", "tr_TR.UTF-8", "ä.ö", "日.本"] {
        assert_eq!(str_before_first(s, '.'), s.split('.').next().unwrap());
    }
    assert_eq!(str_before_first("tr_TR", '_'), "tr");
}

#[test]
fn line_ranges_like_the_standard_lines() {
    let texts = [
        "",
        "\n",
        "a",
        "a\n",
        "a\nb",
        "a\r\nb\r\n",
        "a\r",
        "\r\n",
        "\r",
        "a\r\r\n",
        "\n\n\n",
        "ä\n日本\r\n\nx",
    ];
    for text in texts {
        let all = chars(text);
        let lines: Vec<String> = line_ranges(&all)
            .iter()
            .map(|(from, to)| all[*from..*to].iter().collect())
            .collect();
        let expected: Vec<String> = text.lines().map(|l| l.to_string()).collect();
        assert_eq!(lines, expected, "{:?}", text);
    }
}
