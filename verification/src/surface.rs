//! The capability surface: what a guest may ask of the host through a handle.
//!
//! There are two families, one per handle type. A [`ResPersonMut`] can read and rename
//! the person behind it; a [`ResPerson`] can only read: it has no operation that changes
//! a person. A handle resolves only against an entry that carries its family's tag:
//! a handle of the other family is answered with `WrongAccessKind`, a handle that is
//! not registered with `UnknownHandle`, and the table stays as it is.

use vstd::prelude::*;
use crate::person::PersonView;
use crate::table::{lookup_mut, lookup_readonly, AccessError, StatePerson};

verus! {

/// A handle of the mutable family.
#[derive(Clone, Copy, Debug)]
pub struct ResPersonMut {
    rep: u32,
}

/// A handle of the read-only family.
#[derive(Clone, Copy, Debug)]
pub struct ResPerson {
    rep: u32,
}

impl View for ResPersonMut {
    type V = u32;

    closed spec fn view(&self) -> u32 {
        self.rep
    }
}

impl View for ResPerson {
    type V = u32;

    closed spec fn view(&self) -> u32 {
        self.rep
    }
}

impl ResPersonMut {
    /// The handle with the given number, lent to the guest for one call.
    pub fn new_borrow(rep: u32) -> (handle: ResPersonMut)
        ensures
            handle@ == rep,
    {
        ResPersonMut { rep }
    }

    /// The handle's number.
    pub fn rep(&self) -> (rep: u32)
        ensures
            rep == self@,
    {
        self.rep
    }
}

impl ResPerson {
    /// The handle with the given number, lent to the guest for one call.
    pub fn new_borrow(rep: u32) -> (handle: ResPerson)
        ensures
            handle@ == rep,
    {
        ResPerson { rep }
    }

    /// The handle's number.
    pub fn rep(&self) -> (rep: u32)
        ensures
            rep == self@,
    {
        self.rep
    }
}

impl ResPersonMut {
    /// Overwrites the name of the person behind the handle. The age stays, and so does
    /// every other entry. The entry goes on to refer to the same person: what `get_name`
    /// reads now is what the person's owner reads once the entry is given up.
    pub fn set_name(self, host: &mut StatePerson<'_>, new: String) -> (r: Result<(), AccessError>)
        ensures
            final(host).output() == old(host).output(),
            match lookup_mut(old(host)@, self@) {
                Ok(before) => {
                    &&& r is Ok
                    &&& final(host)@.dom() == old(host)@.dom()
                    &&& lookup_mut(final(host)@, self@) == Ok::<PersonView, AccessError>(
                        PersonView { name: new@, age: before.age },
                    )
                    &&& *final(final(host)@[self@]->Mut_0) == *final(old(host)@[self@]->Mut_0)
                    &&& forall|k: u32| k != self@ && old(host)@.contains_key(k) ==>
                        final(host)@[k] == old(host)@[k]
                },
                Err(e) => r == Err::<(), AccessError>(e) && final(host)@ == old(host)@,
            },
    {
        match host.resolve_mut(self.rep) {
            Ok(p) => {
                p.set_name(new);
                Ok(())
            },
            Err(e) => Err(e),
        }
    }

    /// The name of the person behind the handle.
    pub fn get_name(self, host: &StatePerson<'_>) -> (r: Result<String, AccessError>)
        ensures
            match lookup_mut(host@, self@) {
                Ok(person) => r is Ok && r->Ok_0@ == person.name,
                Err(e) => r == Err::<String, AccessError>(e),
            },
    {
        match host.inspect_mut(self.rep) {
            Ok(p) => Ok(p.get_name()),
            Err(e) => Err(e),
        }
    }

    /// The age of the person behind the handle.
    pub fn get_age(self, host: &StatePerson<'_>) -> (r: Result<u32, AccessError>)
        ensures
            match lookup_mut(host@, self@) {
                Ok(person) => r is Ok && r->Ok_0 == person.age,
                Err(e) => r == Err::<u32, AccessError>(e),
            },
    {
        match host.inspect_mut(self.rep) {
            Ok(p) => Ok(p.get_age()),
            Err(e) => Err(e),
        }
    }

    /// The guest is done with the handle: its entry leaves the table. Dropping a handle
    /// twice is the same as dropping it once.
    pub fn drop(self, host: &mut StatePerson<'_>)
        ensures
            final(host)@ == old(host)@.remove(self@),
            final(host).output() == old(host).output(),
            old(host)@.contains_key(self@) && old(host)@[self@] is Mut ==>
                *final(old(host)@[self@]->Mut_0) == old(host)@[self@].person(),
    {
        host.release(self.rep);
    }
}

impl ResPerson {
    /// The name of the person behind the handle.
    pub fn get_name(self, host: &StatePerson<'_>) -> (r: Result<String, AccessError>)
        ensures
            match lookup_readonly(host@, self@) {
                Ok(person) => r is Ok && r->Ok_0@ == person.name,
                Err(e) => r == Err::<String, AccessError>(e),
            },
    {
        match host.resolve_readonly(self.rep) {
            Ok(p) => Ok(p.get_name()),
            Err(e) => Err(e),
        }
    }

    /// The age of the person behind the handle.
    pub fn get_age(self, host: &StatePerson<'_>) -> (r: Result<u32, AccessError>)
        ensures
            match lookup_readonly(host@, self@) {
                Ok(person) => r is Ok && r->Ok_0 == person.age,
                Err(e) => r == Err::<u32, AccessError>(e),
            },
    {
        match host.resolve_readonly(self.rep) {
            Ok(p) => Ok(p.get_age()),
            Err(e) => Err(e),
        }
    }

    /// The guest is done with the handle: its entry leaves the table. Dropping a handle
    /// twice is the same as dropping it once.
    pub fn drop(self, host: &mut StatePerson<'_>)
        ensures
            final(host)@ == old(host)@.remove(self@),
            final(host).output() == old(host).output(),
            old(host)@.contains_key(self@) && old(host)@[self@] is Mut ==>
                *final(old(host)@[self@]->Mut_0) == old(host)@[self@].person(),
    {
        host.release(self.rep);
    }
}

} // verus!
