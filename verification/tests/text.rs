use branch_explorer::{from_char, join2, join3, join4};

#[test]
fn from_char_makes_a_string_of_one_character() {
    assert_eq!(from_char('a'), "a");
    assert_eq!(from_char('\u{2191}'), "\u{2191}");
}

#[test]
fn joins_keep_the_order_of_their_parts() {
    assert_eq!(join2("ab", "cd"), "abcd");
    assert_eq!(join2("", "cd"), "cd");
    assert_eq!(join3("a", "", "c"), "ac");
    assert_eq!(join3("one ", "two ", "three"), "one two three");
    assert_eq!(join4("a", "b", "c", "d"), "abcd");
}
