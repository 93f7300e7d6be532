use desktop_shell::greet;

#[test]
fn greets_world() {
    assert_eq!(greet("World"), "Hello, World! You've been greeted from Rust!");
}

#[test]
fn greets_the_empty_name() {
    assert_eq!(greet(""), "Hello, ! You've been greeted from Rust!");
}

#[test]
fn greeting_is_not_the_name_itself() {
    assert_ne!(greet("World"), "World");
    assert_ne!(greet("Hello, "), "Hello, ");
}

#[test]
fn keeps_formatting_characters_as_they_are() {
    assert_eq!(greet("{}"), "Hello, {}! You've been greeted from Rust!");
    assert_eq!(greet("{0:?}"), "Hello, {0:?}! You've been greeted from Rust!");
    assert_eq!(greet("%s %d"), "Hello, %s %d! You've been greeted from Rust!");
    assert_eq!(greet("a\\nb"), "Hello, a\\nb! You've been greeted from Rust!");
    assert_eq!(greet("\"quoted\""), "Hello, \"quoted\"! You've been greeted from Rust!");
}

#[test]
fn keeps_whitespace_and_control_characters() {
    assert_eq!(greet("  Ada  "), "Hello,   Ada  ! You've been greeted from Rust!");
    assert_eq!(greet("line\nbreak\ttab"), "Hello, line\nbreak\ttab! You've been greeted from Rust!");
    assert_eq!(greet("\0"), "Hello, \0! You've been greeted from Rust!");
}

#[test]
fn keeps_text_beyond_ascii() {
    assert_eq!(greet("Zoë"), "Hello, Zoë! You've been greeted from Rust!");
    assert_eq!(greet("世界"), "Hello, 世界! You've been greeted from Rust!");
    assert_eq!(greet("🦀"), "Hello, 🦀! You've been greeted from Rust!");
}

#[test]
fn greeting_is_thirty_nine_characters_longer_than_the_name() {
    for name in ["", "x", "World", "世界", "a much longer name, with punctuation!"] {
        let greeting = greet(name);
        assert_eq!(greeting.chars().count(), name.chars().count() + 39);
        let inner: String = greeting.chars().skip(7).take(name.chars().count()).collect();
        assert_eq!(inner, name);
    }
}

#[test]
fn greeting_matches_the_template_for_many_names() {
    for name in ["Ada", "Grace Hopper", "{name}", "!", "Hello, ", "Rust"] {
        assert_eq!(greet(name), format!("Hello, {}! You've been greeted from Rust!", name));
    }
}

#[test]
fn different_names_get_different_greetings() {
    assert_ne!(greet("Ada"), greet("Ada "));
    assert_ne!(greet("a"), greet("A"));
}

#[test]
fn greeting_a_greeting_nests_it() {
    let once = greet("World");
    assert_eq!(
        greet(&once),
        "Hello, Hello, World! You've been greeted from Rust!! You've been greeted from Rust!"
    );
}
