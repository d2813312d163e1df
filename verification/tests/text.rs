use julia_interop::text::to_uppercase;

#[test]
fn lowercase_text_becomes_uppercase() {
    assert_eq!(to_uppercase("hello"), "HELLO");
    assert_eq!(to_uppercase("Hello, World!"), "HELLO, WORLD!");
}

#[test]
fn uppercase_text_is_kept() {
    assert_eq!(to_uppercase("JULIA"), "JULIA");
}

#[test]
fn digits_and_punctuation_are_kept() {
    assert_eq!(to_uppercase("1 + 2 = 3"), "1 + 2 = 3");
}

#[test]
fn empty_text_stays_empty() {
    assert_eq!(to_uppercase(""), "");
}

#[test]
fn one_character_may_become_two() {
    assert_eq!(to_uppercase("tsch\u{fc}\u{df}"), "TSCH\u{dc}SS");
}

#[test]
fn non_latin_letters_are_mapped_too() {
    assert_eq!(to_uppercase("\u{3b1}\u{3b2}\u{3b3}"), "\u{391}\u{392}\u{393}");
}

#[test]
fn letters_without_case_are_kept() {
    assert_eq!(to_uppercase("\u{8fb2}\u{5386}"), "\u{8fb2}\u{5386}");
}
