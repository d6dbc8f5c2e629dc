use greetings::{AccessError, MaybePerson, Person, StatePerson};

#[test]
fn a_new_table_is_empty() {
    let table = StatePerson::new();
    assert_eq!(table.len(), 0);
    assert!(table.is_empty());
    assert!(table.into_output().is_empty());
}

#[test]
fn register_gives_the_smallest_handle_that_is_free() {
    let a = Person::new("A".to_string(), 1);
    let b = Person::new("B".to_string(), 2);
    let c = Person::new("C".to_string(), 3);
    let mut table = StatePerson::new();
    assert_eq!(table.register(MaybePerson::NotMut(&a)), 0);
    assert_eq!(table.register(MaybePerson::NotMut(&b)), 1);
    assert_eq!(table.register(MaybePerson::NotMut(&c)), 2);
    assert_eq!(table.len(), 3);
    table.release(1);
    assert_eq!(table.len(), 2);
    assert_eq!(table.register(MaybePerson::NotMut(&a)), 1);
    assert_eq!(table.register(MaybePerson::NotMut(&a)), 3);
    assert_eq!(table.resolve_readonly(2).map(|p| p.get_name()), Ok("C".to_string()));
}

#[test]
fn resolve_mut_gives_the_registered_person() {
    let mut alice = Person::new("Alice".to_string(), 50);
    let mut table = StatePerson::new();
    let handle = table.register(MaybePerson::Mut(&mut alice));
    assert_eq!(handle, 0);
    match table.resolve_mut(handle) {
        Ok(person) => {
            assert_eq!(person.get_name(), "Alice");
            person.birthday();
        }
        Err(e) => panic!("{:?}", e),
    }
    assert_eq!(table.inspect_mut(handle).map(|p| p.get_age()), Ok(51));
    assert_eq!(table.len(), 1);
    table.release(handle);
    assert_eq!(alice.get_age(), 51);
}

#[test]
fn resolve_readonly_gives_the_registered_person() {
    let bob = Person::new("Bob".to_string(), 30);
    let mut table = StatePerson::new();
    let handle = table.register(MaybePerson::NotMut(&bob));
    match table.resolve_readonly(handle) {
        Ok(person) => {
            assert_eq!(person.get_name(), "Bob");
            assert_eq!(person.get_age(), 30);
        }
        Err(e) => panic!("{:?}", e),
    }
}

#[test]
fn the_wrong_tag_is_refused_with_wrong_access_kind() {
    let bob = Person::new("Bob".to_string(), 30);
    let mut alice = Person::new("Alice".to_string(), 50);
    let mut table = StatePerson::new();
    let read_only = table.register(MaybePerson::NotMut(&bob));
    let mutable = table.register(MaybePerson::Mut(&mut alice));
    assert_eq!(table.resolve_mut(read_only).err(), Some(AccessError::WrongAccessKind));
    assert_eq!(table.inspect_mut(read_only).err(), Some(AccessError::WrongAccessKind));
    assert_eq!(table.resolve_readonly(mutable).err(), Some(AccessError::WrongAccessKind));
    assert_eq!(table.len(), 2);
}

#[test]
fn an_unregistered_handle_is_refused_with_unknown_handle() {
    let bob = Person::new("Bob".to_string(), 30);
    let mut table = StatePerson::new();
    assert_eq!(table.resolve_mut(0).err(), Some(AccessError::UnknownHandle));
    assert_eq!(table.resolve_readonly(0).err(), Some(AccessError::UnknownHandle));
    table.register(MaybePerson::NotMut(&bob));
    assert_eq!(table.resolve_mut(7).err(), Some(AccessError::UnknownHandle));
    assert_eq!(table.inspect_mut(7).err(), Some(AccessError::UnknownHandle));
    assert_eq!(table.resolve_readonly(u32::MAX).err(), Some(AccessError::UnknownHandle));
}

#[test]
fn a_released_handle_is_refused_with_unknown_handle() {
    let bob = Person::new("Bob".to_string(), 30);
    let mut alice = Person::new("Alice".to_string(), 50);
    let mut table = StatePerson::new();
    let read_only = table.register(MaybePerson::NotMut(&bob));
    let mutable = table.register(MaybePerson::Mut(&mut alice));
    table.release(read_only);
    table.release(mutable);
    assert_eq!(table.resolve_readonly(read_only).err(), Some(AccessError::UnknownHandle));
    assert_eq!(table.resolve_mut(mutable).err(), Some(AccessError::UnknownHandle));
    assert!(table.is_empty());
}

#[test]
fn release_twice_is_release_once() {
    let a = Person::new("A".to_string(), 1);
    let b = Person::new("B".to_string(), 2);
    let mut table = StatePerson::new();
    let first = table.register(MaybePerson::NotMut(&a));
    let second = table.register(MaybePerson::NotMut(&b));
    table.release(first);
    assert_eq!(table.len(), 1);
    table.release(first);
    assert_eq!(table.len(), 1);
    assert_eq!(table.resolve_readonly(second).map(|p| p.get_name()), Ok("B".to_string()));
    assert_eq!(table.resolve_readonly(first).err(), Some(AccessError::UnknownHandle));
}

#[test]
fn release_of_a_handle_that_never_was_changes_nothing() {
    let a = Person::new("A".to_string(), 1);
    let mut table = StatePerson::new();
    let handle = table.register(MaybePerson::NotMut(&a));
    table.release(41);
    assert_eq!(table.len(), 1);
    assert_eq!(table.resolve_readonly(handle).map(|p| p.get_age()), Ok(1));
}

#[test]
fn teardown_gives_up_every_entry() {
    let a = Person::new("A".to_string(), 1);
    let mut b = Person::new("B".to_string(), 2);
    let c = Person::new("C".to_string(), 3);
    let mut table = StatePerson::new();
    table.register(MaybePerson::NotMut(&a));
    let mutable = table.register(MaybePerson::Mut(&mut b));
    table.register(MaybePerson::NotMut(&c));
    table.release(0);
    if let Ok(person) = table.resolve_mut(mutable) {
        person.set_name("Bee".to_string());
    }
    table.print("kept".to_string());
    table.teardown();
    assert_eq!(table.len(), 0);
    assert!(table.is_empty());
    assert_eq!(table.resolve_mut(mutable).err(), Some(AccessError::UnknownHandle));
    assert_eq!(table.into_output(), vec!["kept".to_string()]);
    assert_eq!(b.get_name(), "Bee");
    assert_eq!(b.get_age(), 2);
}

#[test]
fn teardown_of_an_empty_table_changes_nothing() {
    let mut table = StatePerson::new();
    table.teardown();
    assert!(table.is_empty());
}

#[test]
fn print_collects_the_lines_in_order() {
    let mut table = StatePerson::new();
    table.print("one".to_string());
    table.print(String::new());
    table.print("three".to_string());
    assert_eq!(table.len(), 0);
    assert_eq!(
        table.into_output(),
        vec!["one".to_string(), String::new(), "three".to_string()]
    );
}
