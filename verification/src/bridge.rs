//! The bridge runtime and the fallback controller.
//!
//! One invocation builds a fresh table, registers the subject under handle 0 with the
//! access that the operation needs, calls the guest's export with that handle, and
//! tears the table down when the guest returns. Where no guest could be loaded, or
//! the guest's export fails, the person's built-in behaviour runs instead.

use vstd::prelude::*;
use vstd::string::StringExecFns;
use crate::person::Person;
use crate::surface::{ResPerson, ResPersonMut};
use crate::table::{lines_of, lookup_mut, lookup_readonly, AccessError, MaybePerson, StatePerson};

verus! {

/// The name under which the plugin is looked up.
pub const PLUGIN_NAME: &'static str = "person_plugin";

/// Why a guest's export did not run to its end.
#[derive(Clone, Copy, Debug, PartialEq, Eq)]
pub enum GuestError {
    /// The guest used a handle that the host refused; the call was aborted.
    Handle(AccessError),
    /// The guest failed in some other way.
    Failed,
}

/// A loaded plugin: the exports that the host calls.
///
/// Each export is handed a table that holds exactly one entry, under the handle that
/// is passed along, with the tag of that handle's family, and no output yet.
///
/// A guest may say what its exports do, in `greets`, `renames` and `keeps_subject`.
/// One that says nothing promises nothing.
pub trait Guest {
    /// What `greet` promises: how the table that it leaves, the lines that it has
    /// printed and its result follow from the table that it was handed.
    open spec fn greets(
        &self,
        before: Map<u32, MaybePerson<'_>>,
        after: Map<u32, MaybePerson<'_>>,
        printed: Seq<Seq<char>>,
        who: u32,
        result: Result<(), GuestError>,
    ) -> bool {
        true
    }

    /// What `rename` promises: how the table that it leaves, the lines that it has
    /// printed and its result follow from the table that it was handed.
    open spec fn renames(
        &self,
        before: Map<u32, MaybePerson<'_>>,
        after: Map<u32, MaybePerson<'_>>,
        printed: Seq<Seq<char>>,
        who: u32,
        result: Result<(), GuestError>,
    ) -> bool {
        true
    }

    /// Whether `rename` promises to leave its handle registered, for the person that it
    /// was registered for.
    open spec fn keeps_subject(&self) -> bool {
        false
    }

    /// Greets the person behind `who`.
    fn greet(&self, host: &mut StatePerson<'_>, who: ResPerson) -> (result: Result<
        (),
        GuestError,
    >)
        requires
            old(host)@.dom() =~= set![who@],
            lookup_readonly(old(host)@, who@) is Ok,
            old(host).output() =~= Seq::<Seq<char>>::empty(),
        ensures
            self.greets(old(host)@, final(host)@, final(host).output(), who@, result),
    ;

    /// Renames the person behind `who`.
    fn rename(&self, host: &mut StatePerson<'_>, who: ResPersonMut) -> (result: Result<
        (),
        GuestError,
    >)
        requires
            old(host)@.dom() =~= set![who@],
            lookup_mut(old(host)@, who@) is Ok,
            old(host).output() =~= Seq::<Seq<char>>::empty(),
        ensures
            self.renames(old(host)@, final(host)@, final(host).output(), who@, result),
            self.keeps_subject() ==> final(host)@.contains_key(who@) && final(host)@[who@] is Mut
                && *final(final(host)@[who@]->Mut_0) == *final(old(host)@[who@]->Mut_0),
    ;
}

/// Where the attempt to run a plugin stands.
#[derive(Clone, Copy, Debug, PartialEq, Eq)]
pub enum LoadState {
    /// Nothing was tried yet.
    Unattempted,
    /// The plugin was loaded and nothing went wrong since.
    LoadSucceeded,
    /// The plugin could not be loaded, or its export failed.
    LoadFailed,
}

impl LoadState {
    /// The state after the attempt to load the plugin.
    pub open spec fn acquired(self, loaded: bool) -> LoadState {
        match self {
            LoadState::Unattempted => if loaded {
                LoadState::LoadSucceeded
            } else {
                LoadState::LoadFailed
            },
            state => state,
        }
    }

    /// The state after the guest's export has returned.
    pub open spec fn returned(self, ok: bool) -> LoadState {
        match self {
            LoadState::LoadSucceeded => if ok {
                LoadState::LoadSucceeded
            } else {
                LoadState::LoadFailed
            },
            state => state,
        }
    }

    /// Takes note of the attempt to load the plugin. Only the first attempt counts.
    pub fn after_acquisition(self, loaded: bool) -> (next: LoadState)
        ensures
            next == self.acquired(loaded),
    {
        match self {
            LoadState::Unattempted => if loaded {
                LoadState::LoadSucceeded
            } else {
                LoadState::LoadFailed
            },
            LoadState::LoadSucceeded => LoadState::LoadSucceeded,
            LoadState::LoadFailed => LoadState::LoadFailed,
        }
    }

    /// Takes note of how the guest's export ended. A failure is final.
    pub fn after_export(self, ok: bool) -> (next: LoadState)
        ensures
            next == self.returned(ok),
    {
        match self {
            LoadState::LoadSucceeded => if ok {
                LoadState::LoadSucceeded
            } else {
                LoadState::LoadFailed
            },
            LoadState::Unattempted => LoadState::Unattempted,
            LoadState::LoadFailed => LoadState::LoadFailed,
        }
    }

    /// Whether the built-in behaviour has to run.
    pub fn runs_default(self) -> (b: bool)
        ensures
            b <==> self is LoadFailed,
    {
        match self {
            LoadState::LoadFailed => true,
            _ => false,
        }
    }
}

/// How one overridable operation went.
pub struct Report {
    /// Where the attempt to run the plugin ended.
    pub state: LoadState,
    /// The lines that were printed, oldest first.
    pub lines: Vec<String>,
}

/// The file in which the plugin `name` is kept.
pub fn wasm_file_name(name: &str) -> (file: String)
    ensures
        file@ == name@ + ".wasm"@,
{
    String::from_str(name).concat(".wasm")
}

/// Closes an invocation whose guest has returned: the state follows the guest's
/// result, and the lines are those that the table has collected.
pub fn conclude(table: StatePerson<'_>, result: Result<(), GuestError>) -> (report: Report)
    ensures
        report.state == LoadState::LoadSucceeded.returned(result is Ok),
        lines_of(report.lines@) == table.output(),
{
    let state = LoadState::Unattempted.after_acquisition(true).after_export(result.is_ok());
    Report { state, lines: table.into_output() }
}

/// Opens an invocation of `greet`: a fresh table in which `person` is registered
/// read-only under handle 0, and that handle.
pub fn prepare_greet<'a>(person: &'a Person) -> (ready: (StatePerson<'a>, ResPerson))
    ensures
        ready.0@ == Map::<u32, MaybePerson<'a>>::empty().insert(0, MaybePerson::NotMut(person)),
        ready.0.output() == Seq::<Seq<char>>::empty(),
        ready.1@ == 0,
{
    let mut table = StatePerson::new();
    let handle = table.register(MaybePerson::NotMut(person));
    (table, ResPerson::new_borrow(handle))
}

/// Opens an invocation of `rename`: a fresh table in which `person` is registered
/// mutably under handle 0, and that handle. What is done to the entry is done to
/// `person`.
pub fn prepare_rename<'a>(person: &'a mut Person) -> (ready: (StatePerson<'a>, ResPersonMut))
    ensures
        ready.0@.dom() == set![0u32],
        ready.0@[0] is Mut,
        ready.0@[0].person() == *old(person),
        *final(ready.0@[0]->Mut_0) == *final(person),
        ready.0.output() == Seq::<Seq<char>>::empty(),
        ready.1@ == 0,
{
    let mut table = StatePerson::new();
    let handle = table.register(MaybePerson::Mut(person));
    (table, ResPersonMut::new_borrow(handle))
}

/// Runs the guest's `greet` on `person`: the invocation is opened, the export is
/// called with handle 0, and the table is torn down. The table comes back empty, with
/// what the guest printed.
pub fn invoke_greet<'a, G: Guest>(person: &'a Person, guest: &G) -> (done: (
    StatePerson<'a>,
    Result<(), GuestError>,
))
    ensures
        done.0@ == Map::<u32, MaybePerson<'a>>::empty(),
        (exists|after: Map<u32, MaybePerson<'a>>| #[trigger]
            guest.greets(
                Map::<u32, MaybePerson<'a>>::empty().insert(0, MaybePerson::NotMut(person)),
                after,
                done.0.output(),
                0,
                done.1,
            )),
{
    let (mut table, who) = prepare_greet(person);
    let result = guest.greet(&mut table, who);
    let ghost after = table@;
    table.teardown();
    let ghost printed = table.output();
    let done = (table, result);
    assert(done.0.output() == printed && guest.greets(
        Map::<u32, MaybePerson<'a>>::empty().insert(0, MaybePerson::NotMut(person)),
        after,
        printed,
        0,
        done.1,
    ));
    done
}

/// Runs the guest's `rename` on `person`: the invocation is opened, the export is
/// called with handle 0, and the table is torn down. The table comes back empty, with
/// what the guest printed.
pub fn invoke_rename<'a, G: Guest>(person: &'a mut Person, guest: &G) -> (done: (
    StatePerson<'a>,
    Result<(), GuestError>,
))
    ensures
        done.0@ == Map::<u32, MaybePerson<'a>>::empty(),
        (exists|before: Map<u32, MaybePerson<'a>>, after: Map<u32, MaybePerson<'a>>|
            {
                &&& before.dom() == set![0u32]
                &&& before[0] is Mut
                &&& before[0].person() == *old(person)
                &&& #[trigger] guest.renames(before, after, done.0.output(), 0, done.1)
                &&& guest.keeps_subject() ==> after.contains_key(0) && after[0] is Mut
                    && *final(person) == after[0].person()
            }),
{
    let (mut table, who) = prepare_rename(person);
    let ghost before = table@;
    let result = guest.rename(&mut table, who);
    let ghost after = table@;
    table.teardown();
    let ghost printed = table.output();
    let done = (table, result);
    proof {
        assert(done.0.output() == printed && guest.renames(before, after, printed, 0, done.1));
        if guest.keeps_subject() {
            assert(*final(after[0]->Mut_0) == after[0].person());
        }
    }
    done
}

impl Person {
    /// Greets through the plugin if there is one. Without a plugin, or when the
    /// plugin's export fails, the built-in greeting runs; no failure reaches the caller.
    /// The lines are those that the plugin printed, then those of the built-in greeting
    /// if it ran.
    pub fn greet<G: Guest>(&self, plugin: Option<&G>) -> (report: Report)
        ensures
            report.state != LoadState::Unattempted,
            plugin is None ==> report.state == LoadState::LoadFailed && report.lines@.len() == 0,
            plugin matches Some(guest) ==> (exists|
                after: Map<u32, MaybePerson<'_>>,
                result: Result<(), GuestError>,
            |
                {
                    &&& #[trigger] guest.greets(
                        Map::<u32, MaybePerson<'_>>::empty().insert(0, MaybePerson::NotMut(self)),
                        after,
                        lines_of(report.lines@),
                        0,
                        result,
                    )
                    &&& report.state == LoadState::LoadSucceeded.returned(result is Ok)
                }),
    {
        match plugin {
            Some(guest) => {
                let (table, result) = invoke_greet(self, guest);
                let ghost printed = table.output();
                let mut report = conclude(table, result);
                if report.state.runs_default() {
                    let mut lines = self.greet_internal();
                    report.lines.append(&mut lines);
                }
                assert(lines_of(report.lines@) =~= printed);
                report
            },
            None => {
                let state = LoadState::Unattempted.after_acquisition(false);
                Report { state, lines: self.greet_internal() }
            },
        }
    }

    /// Renames through the plugin if there is one. Without a plugin, or when the
    /// plugin's export fails, the built-in renaming runs; no failure reaches the caller.
    /// What the plugin changed before it failed stays changed.
    pub fn rename<G: Guest>(&mut self, plugin: Option<&G>) -> (report: Report)
        ensures
            report.state != LoadState::Unattempted,
            plugin is None ==> report.state == LoadState::LoadFailed && report.lines@.len() == 0
                && *final(self) == *old(self),
            plugin matches Some(guest) ==> (exists|
                before: Map<u32, MaybePerson<'_>>,
                after: Map<u32, MaybePerson<'_>>,
                result: Result<(), GuestError>,
            |
                {
                    &&& before.dom() == set![0u32]
                    &&& before[0] is Mut
                    &&& before[0].person() == *old(self)
                    &&& #[trigger] guest.renames(before, after, lines_of(report.lines@), 0, result)
                    &&& report.state == LoadState::LoadSucceeded.returned(result is Ok)
                    &&& guest.keeps_subject() ==> after.contains_key(0) && after[0] is Mut
                        && *final(self) == after[0].person()
                }),
    {
        match plugin {
            Some(guest) => {
                let (table, result) = invoke_rename(self, guest);
                let report = conclude(table, result);
                if report.state.runs_default() {
                    self.rename_internal();
                }
                report
            },
            None => {
                let state = LoadState::Unattempted.after_acquisition(false);
                self.rename_internal();
                Report { state, lines: Vec::new() }
            },
        }
    }
}

} // verus!
