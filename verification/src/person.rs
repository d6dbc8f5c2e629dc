//! The native object that a plugin may observe or modify.

use vstd::prelude::*;

verus! {

/// What a [`Person`] holds, as mathematical values.
pub struct PersonView {
    pub name: Seq<char>,
    pub age: nat,
}

/// A record with a name and an age. `greet` and `rename` can be overridden by a plugin.
pub struct Person {
    name: String,
    age: u32,
}

impl View for Person {
    type V = PersonView;

    closed spec fn view(&self) -> PersonView {
        PersonView { name: self.name@, age: self.age as nat }
    }
}

impl Person {
    /// A person with the given name and age.
    pub fn new(name: String, age: u32) -> (person: Person)
        ensures
            person@.name == name@,
            person@.age == age,
    {
        Person { name, age }
    }

    /// Overwrites the name in place; the age stays.
    pub fn set_name(&mut self, new: String)
        ensures
            final(self)@.name == new@,
            final(self)@.age == old(self)@.age,
    {
        self.name = new;
    }

    /// A copy of the name.
    pub fn get_name(&self) -> (name: String)
        ensures
            name@ == self@.name,
    {
        self.name.clone()
    }

    /// The age.
    pub fn get_age(&self) -> (age: u32)
        ensures
            age == self@.age,
    {
        self.age
    }

    /// Adds one year. The age never decreases; an age of `u32::MAX` cannot grow.
    pub fn birthday(&mut self)
        requires
            old(self)@.age < u32::MAX,
        ensures
            final(self)@.age == old(self)@.age + 1,
            final(self)@.name == old(self)@.name,
    {
        self.age += 1;
    }

    /// The built-in greeting, used when no plugin is available: it prints nothing.
    pub fn greet_internal(&self) -> (lines: Vec<String>)
        ensures
            lines@.len() == 0,
    {
        Vec::new()
    }

    /// The built-in renaming, used when no plugin is available: the person stays as it is.
    pub fn rename_internal(&mut self)
        ensures
            *final(self) == *old(self),
    {
    }
}

} // verus!
