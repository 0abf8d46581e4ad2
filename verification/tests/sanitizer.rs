use social_preview::preview::filter_string;
use social_preview::preview::punctuation;
use social_preview::preview::sanitize_char;

fn allowed(c: char) -> bool {
    " _.-,!()/:?".contains(c) || c.is_alphanumeric()
}

#[test]
fn plain_text_passes_unchanged() {
    assert_eq!(filter_string("Hello, world!".to_string()), "Hello, world!");
    assert_eq!(filter_string("a_b.c-d,e!f(g)h/i:j?k l".to_string()), "a_b.c-d,e!f(g)h/i:j?k l");
    assert_eq!(filter_string(String::new()), "");
}

#[test]
fn line_break_becomes_a_space() {
    assert_eq!(filter_string("one\ntwo\n".to_string()), "one two ");
    assert_eq!(filter_string("\n\n".to_string()), "  ");
}

#[test]
fn characters_outside_the_list_are_dropped_without_a_trace() {
    assert_eq!(filter_string("<b>bold</b> & \"quoted\"".to_string()), "bbold/b  quoted");
    assert_eq!(filter_string("tab\there\r\n".to_string()), "tabhere ");
    assert_eq!(filter_string("100% #1 @home $5 a+b=c".to_string()), "100 1 home 5 abc");
    assert_eq!(filter_string("'[]{}<>|\\~`^*;".to_string()), "");
}

#[test]
fn letters_and_numbers_of_any_script_stay() {
    assert_eq!(filter_string("caf\u{e9} \u{4e2d}\u{6587} \u{661}\u{662}".to_string()), "caf\u{e9} \u{4e2d}\u{6587} \u{661}\u{662}");
    assert_eq!(filter_string("price \u{20ac}5 \u{1f600}".to_string()), "price 5 ");
}

#[test]
fn text_is_cut_to_250_characters_before_it_is_filtered() {
    let long = "a".repeat(300);
    assert_eq!(filter_string(long), "a".repeat(250));
    // 200 dropped characters come first: of the first 250 only 50 stay
    let mut mixed = "#".repeat(200);
    mixed.push_str(&"b".repeat(100));
    assert_eq!(filter_string(mixed), "b".repeat(50));
    let exact = "c".repeat(250);
    assert_eq!(filter_string(exact.clone()), exact);
}

#[test]
fn the_cut_counts_characters_and_not_bytes() {
    let long = "\u{e9}".repeat(260);
    let out = filter_string(long);
    assert_eq!(out.chars().count(), 250);
    assert_eq!(out.len(), 500);
    assert_eq!(out, "\u{e9}".repeat(250));
}

#[test]
fn sanitized_text_is_short_allowed_and_free_of_line_breaks() {
    let samples = [
        String::new(),
        "plain".to_string(),
        "line\nbreak\r\nand\ttab".to_string(),
        "<script>alert('x')</script>".repeat(20),
        "\n".repeat(400),
        "\u{1f600}\u{e9}\u{4e2d}$%^&*()_+-=[]{};':\",./<>?`~\\|".repeat(15),
        (0u32..600).filter_map(char::from_u32).collect::<String>(),
    ];
    for sample in samples {
        let out = filter_string(sample);
        assert!(out.chars().count() <= 250);
        assert!(!out.contains('\n'));
        assert!(out.chars().all(allowed));
    }
}

#[test]
fn sanitizing_twice_changes_nothing_more() {
    let once = filter_string("a\nb <c> d&e".to_string());
    assert_eq!(filter_string(once.clone()), once);
}

#[test]
fn punctuation_is_the_list_of_eleven() {
    for c in " _.-,!()/:?".chars() {
        assert!(punctuation(c));
    }
    for c in "\nab09;'\"<>&#@".chars() {
        assert!(!punctuation(c));
    }
}

#[test]
fn one_character_is_kept_turned_or_dropped() {
    assert_eq!(sanitize_char('\n', false), Some(' '));
    assert_eq!(sanitize_char('\n', true), Some(' '));
    assert_eq!(sanitize_char('-', false), Some('-'));
    assert_eq!(sanitize_char(' ', false), Some(' '));
    assert_eq!(sanitize_char('a', true), Some('a'));
    assert_eq!(sanitize_char('a', false), None);
    assert_eq!(sanitize_char('<', false), None);
    assert_eq!(sanitize_char('\r', false), None);
}

fn by_the_book(s: &str) -> String {
    s.chars()
        .take(250)
        .filter_map(|c| match c {
            '\n' => Some(' '),
            ' ' | '_' | '.' | '-' | ',' | '!' | '(' | ')' | '/' | ':' | '?' => Some(c),
            _ if c.is_alphanumeric() => Some(c),
            _ => None,
        })
        .collect()
}

#[test]
fn every_character_is_treated_by_its_class() {
    let mut block = String::new();
    for code in 0u32..0x3000 {
        if let Some(c) = char::from_u32(code) {
            block.push(c);
            if block.chars().count() == 250 {
                assert_eq!(filter_string(block.clone()), by_the_book(&block), "up to {:x}", code);
                block.clear();
            }
        }
    }
    assert_eq!(filter_string(block.clone()), by_the_book(&block));
    for code in [0xd7ffu32, 0xe000, 0xfffd, 0x10000, 0x1f600, 0x2fa1d, 0x10ffff] {
        let text: String = char::from_u32(code).into_iter().collect();
        assert_eq!(filter_string(text.clone()), by_the_book(&text), "{:x}", code);
    }
}

#[test]
fn long_mixed_text_is_cut_and_then_filtered() {
    let text = "ab\ncd <e> f&g \u{e9}\u{20ac} h_i.j-k,l!m(n)o/p:q?r ".repeat(12);
    assert!(text.chars().count() > 250);
    assert_eq!(filter_string(text.clone()), by_the_book(&text));
}
