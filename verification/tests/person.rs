use greetings::Person;

#[test]
fn accessors_return_what_the_constructor_was_given() {
    let bob = Person::new("Bob".to_string(), 30);
    assert_eq!(bob.get_name(), "Bob");
    assert_eq!(bob.get_age(), 30);
}

#[test]
fn set_name_overwrites_the_name_and_keeps_the_age() {
    let mut alice = Person::new("Alice".to_string(), 50);
    alice.set_name("Alicia".to_string());
    assert_eq!(alice.get_name(), "Alicia");
    assert_eq!(alice.get_age(), 50);
}

#[test]
fn a_name_has_no_format_constraint() {
    let mut nobody = Person::new(String::new(), 0);
    assert_eq!(nobody.get_name(), "");
    nobody.set_name("  \u{e9}t\u{e9} \n".to_string());
    assert_eq!(nobody.get_name(), "  \u{e9}t\u{e9} \n");
}

#[test]
fn birthday_adds_one_year() {
    let mut bob = Person::new("Bob".to_string(), 30);
    bob.birthday();
    assert_eq!(bob.get_age(), 31);
    assert_eq!(bob.get_name(), "Bob");
    bob.birthday();
    assert_eq!(bob.get_age(), 32);
}

#[test]
fn birthday_reaches_the_largest_age() {
    let mut old = Person::new("Old".to_string(), u32::MAX - 1);
    old.birthday();
    assert_eq!(old.get_age(), u32::MAX);
}

#[test]
fn the_built_in_behaviour_has_no_effect() {
    let mut bob = Person::new("Bob".to_string(), 30);
    assert!(bob.greet_internal().is_empty());
    bob.rename_internal();
    assert_eq!(bob.get_name(), "Bob");
    assert_eq!(bob.get_age(), 30);
}
