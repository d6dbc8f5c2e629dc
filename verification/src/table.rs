//! The resource table: opaque handles for tagged references to a [`Person`].

use vstd::prelude::*;
use std::collections::HashMap;
use std::collections::hash_map::Entry;
use crate::person::{Person, PersonView};

verus! {

broadcast use vstd::std_specs::hash::group_hash_axioms;

/// A mutable or a read-only reference to a [`Person`], as a table entry holds it.
pub enum MaybePerson<'a> {
    Mut(&'a mut Person),
    NotMut(&'a Person),
}

/// Why a handle could not be resolved.
#[derive(Clone, Copy, Debug, PartialEq, Eq)]
pub enum AccessError {
    /// No entry is registered under the handle.
    UnknownHandle,
    /// The entry carries the tag of the other capability family.
    WrongAccessKind,
}

/// The table of one invocation, and the lines the guest has printed so far.
pub struct StatePerson<'a> {
    person_table: HashMap<u32, MaybePerson<'a>>,
    printed: Vec<String>,
}

impl<'a> MaybePerson<'a> {
    /// The person the entry refers to, as it is now.
    pub open spec fn person(self) -> Person {
        match self {
            MaybePerson::Mut(p) => *p,
            MaybePerson::NotMut(p) => *p,
        }
    }
}

/// The text of each line.
pub open spec fn lines_of(lines: Seq<String>) -> Seq<Seq<char>> {
    lines.map_values(|s: String| s@)
}

/// What the mutable family finds under `handle`: the person, or why there is none.
pub open spec fn lookup_mut<'a>(table: Map<u32, MaybePerson<'a>>, handle: u32) -> Result<
    PersonView,
    AccessError,
> {
    if !table.contains_key(handle) {
        Err(AccessError::UnknownHandle)
    } else if table[handle] is NotMut {
        Err(AccessError::WrongAccessKind)
    } else {
        Ok(table[handle].person()@)
    }
}

/// What the read-only family finds under `handle`: the person, or why there is none.
pub open spec fn lookup_readonly<'a>(table: Map<u32, MaybePerson<'a>>, handle: u32) -> Result<
    PersonView,
    AccessError,
> {
    if !table.contains_key(handle) {
        Err(AccessError::UnknownHandle)
    } else if table[handle] is Mut {
        Err(AccessError::WrongAccessKind)
    } else {
        Ok(table[handle].person()@)
    }
}

impl<'a> View for StatePerson<'a> {
    type V = Map<u32, MaybePerson<'a>>;

    closed spec fn view(&self) -> Map<u32, MaybePerson<'a>> {
        self.person_table@
    }
}

impl<'a> Default for StatePerson<'a> {
    /// An empty table with no output.
    fn default() -> (table: StatePerson<'a>)
        ensures
            table@ == Map::<u32, MaybePerson<'a>>::empty(),
            table.output() == Seq::<Seq<char>>::empty(),
    {
        StatePerson::new()
    }
}

impl<'a> StatePerson<'a> {
    /// The lines printed so far, oldest first.
    pub closed spec fn output(&self) -> Seq<Seq<char>> {
        lines_of(self.printed@)
    }

    /// An empty table with no output.
    pub fn new() -> (table: StatePerson<'a>)
        ensures
            table@ == Map::<u32, MaybePerson<'a>>::empty(),
            table.output() == Seq::<Seq<char>>::empty(),
    {
        StatePerson { person_table: HashMap::new(), printed: Vec::new() }
    }

    /// Registers `entry` under the smallest handle that is not in use, and returns that
    /// handle. An empty table gives handle 0.
    pub fn register(&mut self, entry: MaybePerson<'a>) -> (handle: u32)
        requires
            old(self)@.len() <= u32::MAX,
        ensures
            !old(self)@.contains_key(handle),
            forall|k: u32| k < handle ==> old(self)@.contains_key(k),
            !old(self)@.contains_key(0) ==> handle == 0,
            final(self)@ == old(self)@.insert(handle, entry),
            final(self).output() == old(self).output(),
    {
        let mut handle: u32 = 0;
        while self.person_table.contains_key(&handle)
            invariant
                *self == *old(self),
                self@.len() <= u32::MAX,
                forall|k: u32| k < handle ==> self@.contains_key(k),
            decreases u32::MAX - handle,
        {
            proof {
                lemma_handles_in_use(self@.dom(), handle);
            }
            handle += 1;
        }
        self.person_table.insert(handle, entry);
        handle
    }

    /// The mutable reference behind a handle of the mutable family.
    pub fn resolve_mut<'b>(&'b mut self, handle: u32) -> (r: Result<&'b mut Person, AccessError>)
        ensures
            match r {
                Ok(p) => {
                    &&& lookup_mut(old(self)@, handle) is Ok
                    &&& *p == old(self)@[handle].person()
                    &&& final(self)@.dom() == old(self)@.dom()
                    &&& final(self)@[handle] is Mut
                    &&& final(self)@[handle].person() == *final(p)
                    &&& *final(final(self)@[handle]->Mut_0) == *final(old(self)@[handle]->Mut_0)
                    &&& forall|k: u32| k != handle && old(self)@.contains_key(k) ==>
                        final(self)@[k] == old(self)@[k]
                    &&& final(self).output() == old(self).output()
                },
                Err(e) => {
                    &&& lookup_mut(old(self)@, handle) == Err::<PersonView, AccessError>(e)
                    &&& final(self)@ == old(self)@
                    &&& final(self).output() == old(self).output()
                },
            },
    {
        match self.person_table.entry(handle) {
            Entry::Occupied(e) => {
                match e.into_mut() {
                    MaybePerson::Mut(p) => Ok(&mut **p),
                    MaybePerson::NotMut(_) => Err(AccessError::WrongAccessKind),
                }
            },
            Entry::Vacant(_) => Err(AccessError::UnknownHandle),
        }
    }

    /// The shared reference behind a handle of the read-only family.
    pub fn resolve_readonly(&self, handle: u32) -> (r: Result<&Person, AccessError>)
        ensures
            match r {
                Ok(p) => lookup_readonly(self@, handle) is Ok && *p == self@[handle].person(),
                Err(e) => lookup_readonly(self@, handle) == Err::<PersonView, AccessError>(e),
            },
    {
        match self.person_table.get(&handle) {
            Some(MaybePerson::NotMut(p)) => Ok(*p),
            Some(MaybePerson::Mut(_)) => Err(AccessError::WrongAccessKind),
            None => Err(AccessError::UnknownHandle),
        }
    }

    /// The person behind a handle of the mutable family, for reading only.
    pub fn inspect_mut(&self, handle: u32) -> (r: Result<&Person, AccessError>)
        ensures
            match r {
                Ok(p) => lookup_mut(self@, handle) is Ok && *p == self@[handle].person(),
                Err(e) => lookup_mut(self@, handle) == Err::<PersonView, AccessError>(e),
            },
    {
        match self.person_table.get(&handle) {
            Some(MaybePerson::Mut(p)) => Ok(&**p),
            Some(MaybePerson::NotMut(_)) => Err(AccessError::WrongAccessKind),
            None => Err(AccessError::UnknownHandle),
        }
    }

    /// Removes the entry under `handle`, if there is one. A mutable reference that is
    /// given up here hands the person, as it is now, back to its owner.
    pub fn release(&mut self, handle: u32)
        ensures
            final(self)@ == old(self)@.remove(handle),
            final(self).output() == old(self).output(),
            old(self)@.contains_key(handle) && old(self)@[handle] is Mut ==>
                *final(old(self)@[handle]->Mut_0) == old(self)@[handle].person(),
    {
        let entry = self.person_table.remove(&handle);
        proof {
            if entry is Some && entry->Some_0 is Mut {
                assert(has_resolved(entry->Some_0->Mut_0));
            }
        }
    }

    /// Gives up every entry that is still registered. Each mutable reference hands its
    /// person back as it is now.
    ///
    /// The handles are walked from 0 upwards. `register` always takes the smallest free
    /// handle, so the walk is no longer than the table has ever been full.
    pub fn teardown(&mut self)
        ensures
            final(self)@ == Map::<u32, MaybePerson<'a>>::empty(),
            final(self).output() == old(self).output(),
            forall|h: u32| old(self)@.contains_key(h) && old(self)@[h] is Mut ==>
                *final(#[trigger] old(self)@[h]->Mut_0) == old(self)@[h].person(),
    {
        let mut handle: u32 = 0;
        while !self.is_empty()
            invariant
                self.output() == old(self).output(),
                forall|k: u32| k < handle ==> !self@.contains_key(k),
                forall|h: u32| #[trigger] self@.contains_key(h) ==>
                    old(self)@.contains_key(h) && self@[h] == old(self)@[h],
                forall|h: u32| old(self)@.contains_key(h) && !self@.contains_key(h)
                    && old(self)@[h] is Mut ==>
                    *final(#[trigger] old(self)@[h]->Mut_0) == old(self)@[h].person(),
            decreases u32::MAX - handle + self@.len(),
        {
            proof {
                if handle == u32::MAX && !self@.contains_key(handle) {
                    assert(self@ =~= Map::<u32, MaybePerson<'a>>::empty());
                }
            }
            let ghost before = self@;
            self.release(handle);
            proof {
                assert(before.dom().finite());
                if before.contains_key(handle) {
                    assert(self@.len() + 1 == before.len());
                }
            }
            if handle < u32::MAX {
                handle += 1;
            }
        }
    }

    /// Appends a line to the output.
    pub fn print(&mut self, s: String)
        ensures
            final(self)@ == old(self)@,
            final(self).output() == old(self).output().push(s@),
    {
        self.printed.push(s);
        assert(self.output() =~= old(self).output().push(s@));
    }

    /// Ends the table's life and hands out the lines that were printed, oldest first.
    pub fn into_output(self) -> (lines: Vec<String>)
        ensures
            lines_of(lines@) == self.output(),
    {
        self.printed
    }

    /// The number of registered handles.
    pub fn len(&self) -> (n: usize)
        ensures
            n == self@.len(),
    {
        self.person_table.len()
    }

    /// Whether no handle is registered.
    pub fn is_empty(&self) -> (b: bool)
        ensures
            b <==> self@ == Map::<u32, MaybePerson<'a>>::empty(),
    {
        let b = self.person_table.is_empty();
        proof {
            if b {
                assert(self@.dom().len() == 0);
                assert(self@ =~= Map::<u32, MaybePerson<'a>>::empty());
            }
        }
        b
    }
}

/// A handle whose entry carries the other family's tag is refused with
/// `WrongAccessKind`, by either family.
pub proof fn lemma_wrong_tag_is_refused<'a>(table: Map<u32, MaybePerson<'a>>, handle: u32)
    requires
        table.contains_key(handle),
    ensures
        table[handle] is NotMut ==> lookup_mut(table, handle) == Err::<PersonView, AccessError>(
            AccessError::WrongAccessKind,
        ),
        table[handle] is Mut ==> lookup_readonly(table, handle) == Err::<PersonView, AccessError>(
            AccessError::WrongAccessKind,
        ),
{
}

/// A handle that was never registered, or that has been released, is refused with
/// `UnknownHandle`, by either family.
pub proof fn lemma_unregistered_is_unknown<'a>(table: Map<u32, MaybePerson<'a>>, handle: u32)
    ensures
        !table.contains_key(handle) ==> lookup_mut(table, handle) == Err::<
            PersonView,
            AccessError,
        >(AccessError::UnknownHandle) && lookup_readonly(table, handle) == Err::<
            PersonView,
            AccessError,
        >(AccessError::UnknownHandle),
        lookup_mut(table.remove(handle), handle) == Err::<PersonView, AccessError>(
            AccessError::UnknownHandle,
        ),
        lookup_readonly(table.remove(handle), handle) == Err::<PersonView, AccessError>(
            AccessError::UnknownHandle,
        ),
{
}

/// Releasing a handle twice leaves the table as releasing it once does.
pub proof fn lemma_release_is_idempotent<'a>(table: Map<u32, MaybePerson<'a>>, handle: u32)
    ensures
        table.remove(handle).remove(handle) == table.remove(handle),
{
    assert(table.remove(handle).remove(handle) =~= table.remove(handle));
}

/// A finite set that holds every handle up to `top` has more than `top` elements.
proof fn lemma_handles_in_use(handles: Set<u32>, top: u32)
    requires
        handles.finite(),
        forall|k: u32| k <= top ==> handles.contains(k),
    ensures
        handles.len() > top,
    decreases top,
{
    assert(handles.remove(top).len() + 1 == handles.len());
    if top > 0 {
        lemma_handles_in_use(handles.remove(top), (top - 1) as u32);
    }
}

} // verus!
