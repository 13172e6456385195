use numbox::text::blank;
use numbox::text::is_whitespace_char;
use numbox::text::split_list;

#[test]
fn whitespace_is_the_unicode_white_space_property() {
    for code in 0..=0x10ffffu32 {
        if let Some(c) = char::from_u32(code) {
            assert_eq!(is_whitespace_char(c), c.is_whitespace(), "U+{:04X}", code);
        }
    }
}

#[test]
fn whitespace_at_the_edges_of_each_range() {
    assert!(!is_whitespace_char('\u{8}'));
    assert!(is_whitespace_char('\t'));
    assert!(is_whitespace_char('\r'));
    assert!(!is_whitespace_char('\u{e}'));
    assert!(is_whitespace_char(' '));
    assert!(!is_whitespace_char('!'));
    assert!(is_whitespace_char('\u{85}'));
    assert!(is_whitespace_char('\u{a0}'));
    assert!(is_whitespace_char('\u{1680}'));
    assert!(!is_whitespace_char('\u{180e}'));
    assert!(!is_whitespace_char('\u{1fff}'));
    assert!(is_whitespace_char('\u{2000}'));
    assert!(is_whitespace_char('\u{200a}'));
    assert!(!is_whitespace_char('\u{200b}'));
    assert!(is_whitespace_char('\u{2028}'));
    assert!(is_whitespace_char('\u{2029}'));
    assert!(is_whitespace_char('\u{202f}'));
    assert!(is_whitespace_char('\u{205f}'));
    assert!(is_whitespace_char('\u{3000}'));
    assert!(!is_whitespace_char('\u{feff}'));
}

#[test]
fn empty_text_is_blank() {
    assert!(blank(""));
}

#[test]
fn whitespace_only_text_is_blank() {
    assert!(blank(" "));
    assert!(blank("  \t\n\r"));
    assert!(blank("\u{a0}\u{3000}\u{2003}"));
}

#[test]
fn text_with_anything_else_is_not_blank() {
    assert!(!blank("x"));
    assert!(!blank("  x"));
    assert!(!blank("x  "));
    assert!(!blank("   1 + 1   "));
    assert!(!blank(" \u{200b} "));
    assert!(!blank("\n#\n"));
}

#[test]
fn blank_agrees_with_trimming() {
    for text in ["", " ", "\t", "a", " a ", "\u{85}", "\u{2028}\u{2029}", "\u{e9}", " \u{feff}"] {
        assert_eq!(blank(text), text.trim().is_empty(), "{:?}", text);
    }
}

#[test]
fn split_list_of_the_empty_list_is_one_empty_piece() {
    assert_eq!(split_list("", ':'), vec![""]);
}

#[test]
fn split_list_without_separator_is_one_piece() {
    assert_eq!(split_list("/usr/share/modules", ':'), vec!["/usr/share/modules"]);
}

#[test]
fn split_list_cuts_at_each_separator() {
    assert_eq!(split_list("a:b", ':'), vec!["a", "b"]);
    assert_eq!(split_list("/one:/two/three:four", ':'), vec!["/one", "/two/three", "four"]);
}

#[test]
fn split_list_keeps_empty_pieces() {
    assert_eq!(split_list(":", ':'), vec!["", ""]);
    assert_eq!(split_list(":a", ':'), vec!["", "a"]);
    assert_eq!(split_list("a:", ':'), vec!["a", ""]);
    assert_eq!(split_list("a::b", ':'), vec!["a", "", "b"]);
    assert_eq!(split_list(":::", ':'), vec!["", "", "", ""]);
}

#[test]
fn split_list_takes_any_separator() {
    assert_eq!(split_list("C:\\a;D:\\b", ';'), vec!["C:\\a", "D:\\b"]);
    assert_eq!(split_list("a:b", ';'), vec!["a:b"]);
}

#[test]
fn split_list_counts_characters_not_bytes() {
    assert_eq!(split_list("\u{e9}:\u{fc}\u{fc}:", ':'), vec!["\u{e9}", "\u{fc}\u{fc}", ""]);
    assert_eq!(split_list("\u{65e5}\u{672c}:\u{8a9e}", ':'), vec!["\u{65e5}\u{672c}", "\u{8a9e}"]);
}

#[test]
fn split_list_agrees_with_std_split() {
    for list in ["", ":", "a", "a:b", "::a::", "/x/y:/z", "\u{e9}:\u{e9}", "a;b:c"] {
        let expected: Vec<String> = list.split(':').map(|piece| piece.to_string()).collect();
        assert_eq!(split_list(list, ':'), expected, "{:?}", list);
    }
}

#[test]
fn joining_the_pieces_gives_the_list_back() {
    for list in ["", ":", "a", "a:b", "::a::", "/x/y:/z", "\u{e9}:\u{e9}"] {
        let pieces = split_list(list, ':');
        assert_eq!(pieces.join(":"), list);
        assert_eq!(pieces.len(), list.matches(':').count() + 1);
        assert!(pieces.iter().all(|piece| !piece.contains(':')));
    }
}
