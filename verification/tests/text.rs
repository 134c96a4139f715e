use sqlk::keys::add_capped;
use sqlk::keys::push_digit;
use sqlk::keys::ten_times_capped;
use sqlk::keys::times_ten_capped;
use sqlk::keys::KeyCode;
use sqlk::keys::KeyEvent;
use sqlk::text::char_is_whitespace;
use sqlk::text::str_concat;
use sqlk::text::split_lines;
use sqlk::text::str_chars;
use sqlk::text::str_contains;
use sqlk::text::str_equal;
use sqlk::text::str_is_blank;
use sqlk::text::str_starts_with;
use sqlk::text::str_trim;
use sqlk::text::string_of_chars;

fn lines_of(text: &str) -> Vec<String> {
    split_lines(&str_chars(text)).iter().map(|l| string_of_chars(l)).collect()
}

#[test]
fn whitespace_is_what_std_calls_whitespace() {
    for code in 0..=0x3100u32 {
        if let Some(c) = char::from_u32(code) {
            assert_eq!(char_is_whitespace(c), c.is_whitespace());
        }
    }
    assert!(!char_is_whitespace('\u{FEFF}'));
}

#[test]
fn trimming_is_what_std_does() {
    for text in ["", " ", "a", "  a b \t\n", "\u{3000}x\u{85}", "\n\n", " \u{200B} "] {
        assert_eq!(str_trim(text), text.trim());
        assert_eq!(str_is_blank(text), text.trim().is_empty());
    }
}

#[test]
fn lines_are_what_std_gives() {
    for text in [
        "", "a", "a\n", "a\nb", "a\r\nb\r\n", "\n", "\n\n", "a\n\nb", "a\r", "a\r\n\r", "\r\n",
        "a\rb\n", "x\n\r\ny",
    ] {
        let expected: Vec<String> = text.lines().map(|l| l.to_string()).collect();
        assert_eq!(lines_of(text), expected);
    }
}

#[test]
fn text_helpers() {
    assert_eq!(str_chars("añ日"), vec!['a', 'ñ', '日']);
    assert_eq!(string_of_chars(&vec!['o', 'k']), "ok");
    assert_eq!(str_concat("ab", "cd"), "abcd");
    assert_eq!(str_concat("", ""), "");
    assert!(str_equal("ab", "ab"));
    assert!(!str_equal("ab", "abc"));
    assert!(!str_equal("ab", "aB"));
    assert!(str_starts_with("abc", "ab"));
    assert!(str_starts_with("abc", ""));
    assert!(!str_starts_with("ab", "abc"));
    assert!(str_contains("postgres://h", "://"));
    assert!(str_contains("abc", ""));
    assert!(str_contains("", ""));
    assert!(!str_contains("ab", "abc"));
    assert!(!str_contains("a:/b", "://"));
}

#[test]
fn keys_and_counts() {
    assert_eq!(KeyEvent::char('7').as_digit(), Some(7));
    assert_eq!(KeyEvent::char('0').as_digit(), Some(0));
    assert_eq!(KeyEvent::char('a').as_digit(), None);
    assert_eq!(KeyEvent::char('٣').as_digit(), None);
    assert_eq!(KeyEvent::plain(KeyCode::Enter).as_digit(), None);
    assert_eq!(KeyEvent::plain(KeyCode::Up), KeyEvent { code: KeyCode::Up, control: false });
    assert_eq!(push_digit(None, 4), 4);
    assert_eq!(push_digit(Some(4), 2), 42);
    assert_eq!(push_digit(Some(usize::MAX / 10), 9), usize::MAX);
    assert_eq!(push_digit(Some(usize::MAX), 0), usize::MAX);
    assert_eq!(add_capped(usize::MAX - 1, 1), usize::MAX);
    assert_eq!(add_capped(usize::MAX, 1), usize::MAX);
    assert_eq!(add_capped(2, 3), 5);
    assert_eq!(times_ten_capped(7), 70);
    assert_eq!(ten_times_capped(usize::MAX / 10 + 1), usize::MAX);
}
