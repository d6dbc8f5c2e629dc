//! The plugin that ships with the library.

use vstd::prelude::*;
use crate::bridge::{Guest, GuestError};
use crate::person::PersonView;
use crate::surface::{ResPerson, ResPersonMut};
use crate::table::{lookup_mut, lookup_readonly, AccessError, MaybePerson, StatePerson};
use crate::text::{greeting, greeting_line, new_name, renamed};

verus! {

/// Greets with `Hello <name> (<age> yo)` and renames to `New <name>`.
pub struct DemoComponent;

impl Guest for DemoComponent {
    /// `greet` succeeds, prints the greeting and leaves the table as it was.
    open spec fn greets(
        &self,
        before: Map<u32, MaybePerson<'_>>,
        after: Map<u32, MaybePerson<'_>>,
        printed: Seq<Seq<char>>,
        who: u32,
        result: Result<(), GuestError>,
    ) -> bool {
        &&& result is Ok
        &&& after == before
        &&& printed == seq![greeting(lookup_readonly(before, who)->Ok_0)]
    }

    /// `rename` succeeds, prints nothing and leaves the person under its new name.
    open spec fn renames(
        &self,
        before: Map<u32, MaybePerson<'_>>,
        after: Map<u32, MaybePerson<'_>>,
        printed: Seq<Seq<char>>,
        who: u32,
        result: Result<(), GuestError>,
    ) -> bool {
        &&& result is Ok
        &&& printed == Seq::<Seq<char>>::empty()
        &&& after.dom() == before.dom()
        &&& lookup_mut(after, who) == Ok::<PersonView, AccessError>(
            PersonView {
                name: new_name(before[who].person()@.name),
                age: before[who].person()@.age,
            },
        )
    }

    /// `rename` leaves its handle registered.
    open spec fn keeps_subject(&self) -> bool {
        true
    }

    /// Prints the greeting for the person behind `who`; the table stays as it is.
    fn greet(&self, host: &mut StatePerson<'_>, who: ResPerson) -> (result: Result<
        (),
        GuestError,
    >) {
        let name = match who.get_name(host) {
            Ok(name) => name,
            Err(e) => {
                return Err(GuestError::Handle(e));
            },
        };
        let age = match who.get_age(host) {
            Ok(age) => age,
            Err(e) => {
                return Err(GuestError::Handle(e));
            },
        };
        host.print(greeting_line(name.as_str(), age));
        Ok(())
    }

    /// Puts `New ` before the name of the person behind `who`; the age and the output
    /// stay as they are.
    fn rename(&self, host: &mut StatePerson<'_>, who: ResPersonMut) -> (result: Result<
        (),
        GuestError,
    >) {
        let name = match who.get_name(host) {
            Ok(name) => name,
            Err(e) => {
                return Err(GuestError::Handle(e));
            },
        };
        match who.set_name(host, renamed(name.as_str())) {
            Ok(()) => Ok(()),
            Err(e) => Err(GuestError::Handle(e)),
        }
    }
}

} // verus!
