use builder::ident::{classify, is_identifier, spells_identifier, CharClass};

const START: CharClass = CharClass { underscore: false, start: true, cont: true };
const INNER: CharClass = CharClass { underscore: false, start: false, cont: true };
const UNDERSCORE: CharClass = CharClass { underscore: true, start: false, cont: true };
const OTHER: CharClass = CharClass { underscore: false, start: false, cont: false };

#[test]
fn no_characters_spell_no_identifier() {
    assert!(!spells_identifier(&vec![]));
}

#[test]
fn identifier_starts_with_a_start_character() {
    assert!(spells_identifier(&vec![START]));
    assert!(spells_identifier(&vec![START, INNER, UNDERSCORE, START]));
    assert!(!spells_identifier(&vec![INNER]));
    assert!(!spells_identifier(&vec![INNER, START]));
    assert!(!spells_identifier(&vec![OTHER, START]));
}

#[test]
fn underscore_starts_an_identifier_but_is_none_alone() {
    assert!(!spells_identifier(&vec![UNDERSCORE]));
    assert!(spells_identifier(&vec![UNDERSCORE, INNER]));
    assert!(spells_identifier(&vec![UNDERSCORE, UNDERSCORE]));
    assert!(spells_identifier(&vec![UNDERSCORE, START]));
    assert!(!spells_identifier(&vec![UNDERSCORE, OTHER]));
}

#[test]
fn every_later_character_must_continue() {
    assert!(!spells_identifier(&vec![START, OTHER]));
    assert!(!spells_identifier(&vec![START, INNER, OTHER, INNER]));
    assert!(!spells_identifier(&vec![START, INNER, INNER, OTHER]));
    // Only what the character may do inside counts for a later character.
    let start_only = CharClass { underscore: false, start: true, cont: false };
    assert!(spells_identifier(&vec![start_only]));
    assert!(!spells_identifier(&vec![START, start_only]));
}

#[test]
fn characters_are_classified_by_the_unicode_tables() {
    assert_eq!(classify(""), vec![]);
    assert_eq!(classify("a1_-"), vec![START, INNER, UNDERSCORE, OTHER]);
    assert_eq!(classify("é "), vec![START, OTHER]);
    // A combining mark may stand inside an identifier, not at its start.
    assert_eq!(classify("\u{301}"), vec![INNER]);
    assert_eq!(classify("Z9"), vec![START, INNER]);
}

#[test]
fn names_that_are_identifiers() {
    for name in ["arg", "env", "x", "_x", "__", "a1", "snake_case", "CamelCase", "größe", "名前", "type"] {
        assert!(is_identifier(name), "{:?}", name);
    }
}

#[test]
fn names_that_are_no_identifiers() {
    for name in ["", "_", "1", "1a", "my-arg", "a b", " a", "a ", "a.b", "r#type", "a\n", "-", "\u{301}a"] {
        assert!(!is_identifier(name), "{:?}", name);
    }
}
