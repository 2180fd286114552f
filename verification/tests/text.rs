use pronouner::text::{capitalize, chars_of, replace_head, string_of};

fn chars(s: &str) -> Vec<char> {
    s.chars().collect()
}

#[test]
fn chars_and_strings_turn_into_each_other() {
    assert_eq!(chars_of(""), Vec::<char>::new());
    assert_eq!(chars_of("aé🦀"), vec!['a', 'é', '🦀']);
    let text = chars("héllo wörld");
    assert_eq!(string_of(&text, 0, text.len()), "héllo wörld");
    assert_eq!(string_of(&text, 1, 5), "éllo");
    assert_eq!(string_of(&text, 3, 3), "");
    assert_eq!(string_of(&text, text.len(), text.len()), "");
}

#[test]
fn replace_head_puts_the_head_in_place_of_the_first_character() {
    assert_eq!(replace_head(&chars("fooBar"), &chars("F")), "FooBar");
    assert_eq!(replace_head(&chars("ßa"), &chars("SS")), "SSa");
    assert_eq!(replace_head(&chars("abc"), &chars("")), "bc");
    assert_eq!(replace_head(&chars("a"), &chars("xyz")), "xyz");
    assert_eq!(replace_head(&chars(""), &chars("xyz")), "");
}

#[test]
fn capitalize_changes_the_first_character_alone() {
    assert_eq!(capitalize("fooBar"), "FooBar");
    assert_eq!(capitalize("FOO"), "FOO");
    assert_eq!(capitalize("foo bar"), "Foo bar");
    assert_eq!(capitalize("ßß"), "SSß");
    assert_eq!(capitalize(""), "");
    assert_eq!(capitalize(" a"), " a");
    assert_eq!(capitalize("é"), "É");
}
