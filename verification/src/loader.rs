//! Loading the API: one library mapping and one symbol lookup per process, and
//! at most one live function table.
//!
//! The loader decides; it does not touch the platform. [`Loader::step`] takes
//! what has just happened and answers with the piece of outside work that is
//! due next, or with the result of the load. Whoever wants to load performs
//! that work and reports back. One call of `step` is one indivisible move:
//! the process keeps a single loader, and loads that run side by side take
//! turns at it, in any order. [`load`] runs the steps of one load in a row,
//! against answers that are known beforehand.

use vstd::prelude::*;
use crate::error::Error;

verus! {

/// The state of something that is looked up at most once per process.
#[derive(Clone, Copy, Debug, PartialEq, Eq, Structural)]
pub enum Cached {
    /// Nobody has asked yet.
    Untried,
    /// Somebody was sent to look it up and has not reported yet.
    Pending,
    /// The lookup succeeded; the result is reused.
    Ready,
    /// The lookup failed; it is not tried again.
    Failed,
}

/// The place of the one function table that may be alive.
#[derive(Clone, Copy, Debug, PartialEq, Eq, Structural)]
pub enum Slot {
    /// No table is alive and nobody is calling the entry point.
    Free,
    /// Somebody was sent to call the entry point and has not reported yet.
    Claimed,
    /// A table is alive.
    Live,
}

/// What a [`Loader`] knows.
pub ghost struct LoaderState {
    /// The mapping of the host's shared library.
    pub library: Cached,
    /// The entry symbol in that library.
    pub symbol: Cached,
    /// The place of the function table.
    pub slot: Slot,
}

/// The address of the function table that the host has published.
///
/// A value stands for the permission to call into the host. There is no way to
/// copy it, and only a successful load makes one.
#[derive(Debug)]
pub struct FunctionTable {
    api: usize,
}

impl View for FunctionTable {
    type V = usize;

    /// The address of the table.
    closed spec fn view(&self) -> usize {
        self.api
    }
}

impl FunctionTable {
    /// The address of the table.
    ///
    /// Whoever keeps a copy of it and calls through it while the table is
    /// handed on, or after it was given back, is on their own.
    pub fn inner(&self) -> (api: usize)
        ensures
            api == self@,
    {
        self.api
    }
}

/// What has happened outside since the last step.
#[derive(Clone, Copy, Debug, PartialEq, Eq, Structural)]
pub enum Event {
    /// A load is asked for, or asks again after it was told to wait.
    Requested,
    /// The platform was asked for the mapping of the host's library.
    LibraryMapped { found: bool },
    /// The library was asked for the entry symbol.
    SymbolResolved { found: bool },
    /// The entry point was called and returned `status`, with `table` in its
    /// output slot.
    EntryReturned { status: i32, table: usize },
}

/// What is to be done next, with `T` for what a finished load hands out.
#[derive(Debug)]
pub enum Action<T> {
    /// Ask the platform for the mapping of the host's library, and report.
    MapLibrary,
    /// Ask the library for the entry symbol, and report.
    ResolveSymbol,
    /// Call the entry point with this version code, and report.
    CallEntry { version: u32 },
    /// Another load is looking something up; ask again later.
    Wait,
    /// The load is over.
    Finished(Result<T, Error>),
}

/// The answers of the platform and of the host, for a load that is run in one go.
///
/// An answer is looked at only if the load comes to ask for it.
#[derive(Clone, Copy, Debug, PartialEq, Eq, Structural)]
pub struct Replies {
    /// Whether the platform finds the host's library in this process.
    pub library: bool,
    /// Whether the library exports the entry symbol.
    pub symbol: bool,
    /// What the entry point returns; 1 means that it has written a table.
    pub status: i32,
    /// The address that the entry point writes to its output slot.
    pub table: usize,
}

/// The status with which the entry point reports success.
pub const ENTRY_OK: i32 = 1;

/// What a lookup is known to be once it was tried and `found` or not.
pub open spec fn resolved(found: bool) -> Cached {
    if found {
        Cached::Ready
    } else {
        Cached::Failed
    }
}

/// A state that steps can lead to: the symbol is looked up in a mapped library
/// only, and the entry point is called through a resolved symbol only.
pub open spec fn well_formed(s: LoaderState) -> bool {
    &&& !(s.symbol is Untried) ==> s.library is Ready
    &&& !(s.slot is Free) ==> s.symbol is Ready
}

/// Whether no piece of outside work is under way.
pub open spec fn idle(s: LoaderState) -> bool {
    !(s.library is Pending) && !(s.symbol is Pending) && !(s.slot is Claimed)
}

/// How a load of `version` goes on from state `s`: the piece of work that it
/// is sent to do, which the state then counts as under way, or its early end.
pub open spec fn advance(s: LoaderState, version: u32) -> (LoaderState, Action<usize>) {
    match s.library {
        Cached::Untried => (LoaderState { library: Cached::Pending, ..s }, Action::MapLibrary),
        Cached::Pending => (s, Action::Wait),
        Cached::Failed => (s, Action::Finished(Err(Error::LibraryNotFound))),
        Cached::Ready => match s.symbol {
            Cached::Untried => (
                LoaderState { symbol: Cached::Pending, ..s },
                Action::ResolveSymbol,
            ),
            Cached::Pending => (s, Action::Wait),
            Cached::Failed => (s, Action::Finished(Err(Error::SymbolNotFound))),
            Cached::Ready => match s.slot {
                Slot::Free => (
                    LoaderState { slot: Slot::Claimed, ..s },
                    Action::CallEntry { version },
                ),
                _ => (s, Action::Finished(Err(Error::InstanceAlreadyActive))),
            },
        },
    }
}

/// The state after `event`, and the action that answers it.
///
/// A report counts only where the state has sent somebody for it. The report
/// of a lookup settles it for good. The report of the entry point either makes
/// the table live or frees its place again.
pub open spec fn step_spec(s: LoaderState, version: u32, event: Event) -> (
    LoaderState,
    Action<usize>,
) {
    match event {
        Event::Requested => advance(s, version),
        Event::LibraryMapped { found } => if s.library is Pending {
            advance(LoaderState { library: resolved(found), ..s }, version)
        } else {
            advance(s, version)
        },
        Event::SymbolResolved { found } => if s.symbol is Pending {
            advance(LoaderState { symbol: resolved(found), ..s }, version)
        } else {
            advance(s, version)
        },
        Event::EntryReturned { status, table } => if s.slot is Claimed {
            if status == ENTRY_OK {
                (LoaderState { slot: Slot::Live, ..s }, Action::Finished(Ok(table)))
            } else {
                (
                    LoaderState { slot: Slot::Free, ..s },
                    Action::Finished(Err(Error::NoCompatibleApi)),
                )
            }
        } else {
            advance(s, version)
        },
    }
}

/// The state after a whole load of `version` against `replies`, and its result
/// with the table's address, from a state in which nothing is under way.
pub open spec fn load_spec(s: LoaderState, version: u32, replies: Replies) -> (
    LoaderState,
    Result<usize, Error>,
) {
    let library = if s.library is Untried {
        resolved(replies.library)
    } else {
        s.library
    };
    if !(library is Ready) {
        (LoaderState { library, ..s }, Err(Error::LibraryNotFound))
    } else {
        let symbol = if s.symbol is Untried {
            resolved(replies.symbol)
        } else {
            s.symbol
        };
        if !(symbol is Ready) {
            (LoaderState { library, symbol, ..s }, Err(Error::SymbolNotFound))
        } else if !(s.slot is Free) {
            (LoaderState { library, symbol, ..s }, Err(Error::InstanceAlreadyActive))
        } else if replies.status == ENTRY_OK {
            (LoaderState { library, symbol, slot: Slot::Live }, Ok(replies.table))
        } else {
            (LoaderState { library, symbol, slot: Slot::Free }, Err(Error::NoCompatibleApi))
        }
    }
}

/// The state after a table was given back.
pub open spec fn unload_spec(s: LoaderState) -> LoaderState {
    if s.slot is Live {
        LoaderState { slot: Slot::Free, ..s }
    } else {
        s
    }
}

/// An action with the view of what it hands out.
pub open spec fn action_view<T: View>(action: Action<T>) -> Action<T::V> {
    match action {
        Action::MapLibrary => Action::MapLibrary,
        Action::ResolveSymbol => Action::ResolveSymbol,
        Action::CallEntry { version } => Action::CallEntry { version },
        Action::Wait => Action::Wait,
        Action::Finished(Ok(table)) => Action::Finished(Ok(table@)),
        Action::Finished(Err(e)) => Action::Finished(Err(e)),
    }
}

/// The result of a load with the view of what it hands out.
pub open spec fn result_view<T: View>(result: Result<T, Error>) -> Result<T::V, Error> {
    match result {
        Ok(table) => Ok(table@),
        Err(e) => Err(e),
    }
}

/// The process-wide state behind every load.
#[derive(Debug)]
pub struct Loader {
    library: Cached,
    symbol: Cached,
    slot: Slot,
}

impl View for Loader {
    type V = LoaderState;

    closed spec fn view(&self) -> LoaderState {
        LoaderState { library: self.library, symbol: self.symbol, slot: self.slot }
    }
}

impl Loader {
    /// The symbol is looked up in a mapped library only, and the entry point
    /// is called through a resolved symbol only.
    #[verifier::type_invariant]
    spec fn inv(self) -> bool {
        well_formed(self@)
    }

    /// A loader that has not looked for anything yet.
    pub fn new() -> (loader: Self)
        ensures
            loader@ == (LoaderState {
                library: Cached::Untried,
                symbol: Cached::Untried,
                slot: Slot::Free,
            }),
    {
        Loader { library: Cached::Untried, symbol: Cached::Untried, slot: Slot::Free }
    }

    /// What is known of the library mapping.
    pub fn library(&self) -> (library: Cached)
        ensures
            library == self@.library,
    {
        self.library
    }

    /// What is known of the entry symbol.
    pub fn symbol(&self) -> (symbol: Cached)
        ensures
            symbol == self@.symbol,
    {
        self.symbol
    }

    /// Whether a function table is alive, or about to be.
    pub fn is_active(&self) -> (active: bool)
        ensures
            active == !(self@.slot is Free),
    {
        match self.slot {
            Slot::Free => false,
            _ => true,
        }
    }

    /// Whether no piece of outside work is under way, so that a load can be
    /// run in one go.
    pub fn is_idle(&self) -> (nothing: bool)
        ensures
            nothing == idle(self@),
    {
        let library_pending = match self.library {
            Cached::Pending => true,
            _ => false,
        };
        let symbol_pending = match self.symbol {
            Cached::Pending => true,
            _ => false,
        };
        let claimed = match self.slot {
            Slot::Claimed => true,
            _ => false,
        };
        !library_pending && !symbol_pending && !claimed
    }

    /// Sends a load of `version` on its way from the present state.
    fn advance(&mut self, version: u32) -> (action: Action<FunctionTable>)
        ensures
            (final(self)@, action_view(action)) == advance(old(self)@, version),
    {
        proof {
            use_type_invariant(&*self);
        }
        match self.library {
            Cached::Untried => {
                self.library = Cached::Pending;
                Action::MapLibrary
            },
            Cached::Pending => Action::Wait,
            Cached::Failed => Action::Finished(Err(Error::LibraryNotFound)),
            Cached::Ready => match self.symbol {
                Cached::Untried => {
                    self.symbol = Cached::Pending;
                    Action::ResolveSymbol
                },
                Cached::Pending => Action::Wait,
                Cached::Failed => Action::Finished(Err(Error::SymbolNotFound)),
                Cached::Ready => match self.slot {
                    Slot::Free => {
                        self.slot = Slot::Claimed;
                        Action::CallEntry { version }
                    },
                    _ => Action::Finished(Err(Error::InstanceAlreadyActive)),
                },
            },
        }
    }

    /// Takes note of `event` and says what a load of `version` has to do next.
    pub fn step(&mut self, version: u32, event: Event) -> (action: Action<FunctionTable>)
        ensures
            (final(self)@, action_view(action)) == step_spec(old(self)@, version, event),
            well_formed(old(self)@),
            well_formed(final(self)@),
    {
        proof {
            use_type_invariant(&*self);
        }
        match event {
            Event::Requested => {},
            Event::LibraryMapped { found } => {
                if let Cached::Pending = self.library {
                    self.library = if found {
                        Cached::Ready
                    } else {
                        Cached::Failed
                    };
                }
            },
            Event::SymbolResolved { found } => {
                if let Cached::Pending = self.symbol {
                    self.symbol = if found {
                        Cached::Ready
                    } else {
                        Cached::Failed
                    };
                }
            },
            Event::EntryReturned { status, table } => {
                if let Slot::Claimed = self.slot {
                    if status == ENTRY_OK {
                        self.slot = Slot::Live;
                        return Action::Finished(Ok(FunctionTable { api: table }));
                    }
                    self.slot = Slot::Free;
                    return Action::Finished(Err(Error::NoCompatibleApi));
                }
            },
        }
        self.advance(version)
    }

    /// Takes a table back, so that a later load can succeed again.
    pub fn unload(&mut self, table: FunctionTable)
        ensures
            final(self)@ == unload_spec(old(self)@),
    {
        proof {
            use_type_invariant(&*self);
        }
        if let Slot::Live = self.slot {
            self.slot = Slot::Free;
        }
    }
}

/// How many steps an action is away from the end of its load, at most, if
/// nobody else takes a turn.
pub open spec fn steps_left(action: Action<usize>) -> nat {
    match action {
        Action::MapLibrary => 3,
        Action::ResolveSymbol => 2,
        Action::CallEntry { .. } => 1,
        Action::Wait => 0,
        Action::Finished(_) => 0,
    }
}

/// The report that follows the piece of work `action`, with `replies` for what
/// the platform and the host answer. Who was told to wait, or has not begun,
/// asks.
pub open spec fn report(action: Action<usize>, replies: Replies) -> Event {
    match action {
        Action::MapLibrary => Event::LibraryMapped { found: replies.library },
        Action::ResolveSymbol => Event::SymbolResolved { found: replies.symbol },
        Action::CallEntry { .. } => Event::EntryReturned {
            status: replies.status,
            table: replies.table,
        },
        _ => Event::Requested,
    }
}

/// Whether a load that runs alone can stand at `action` in state `now`, having
/// begun in state `before`: the state counts the work of `action` as under
/// way and has otherwise moved as [`load_spec`] says.
pub open spec fn on_its_way(
    before: LoaderState,
    now: LoaderState,
    action: Action<usize>,
    version: u32,
    replies: Replies,
) -> bool {
    let end = load_spec(before, version, replies);
    match action {
        Action::MapLibrary => before.library is Untried && now == (LoaderState {
            library: Cached::Pending,
            ..before
        }),
        Action::ResolveSymbol => before.symbol is Untried && end.0.library is Ready && now == (
            LoaderState { library: Cached::Ready, symbol: Cached::Pending, ..before }),
        Action::CallEntry { .. } => before.slot is Free && end.0.library is Ready
            && end.0.symbol is Ready && now == (LoaderState {
            library: Cached::Ready,
            symbol: Cached::Ready,
            slot: Slot::Claimed,
        }),
        Action::Wait => false,
        Action::Finished(result) => now == end.0 && result == end.1,
    }
}

/// Loads version `version` of the API in one go, with `replies` for what the
/// platform and the host answer.
///
/// The library and the symbol are looked up once, whatever the number of loads;
/// a failure of either stays. While a table is alive the entry point is not
/// called and the load is refused. The entry point's status 1 yields the table
/// that it wrote; any other status means that the host is too old.
///
/// No other load may be in the middle of its steps: see [`Loader::is_idle`].
pub fn load(loader: &mut Loader, version: u32, replies: &Replies) -> (result: Result<
    FunctionTable,
    Error,
>)
    requires
        idle(old(loader)@),
    ensures
        (final(loader)@, result_view(result)) == load_spec(old(loader)@, version, *replies),
        idle(final(loader)@),
{
    let mut action = loader.step(version, Event::Requested);
    loop
        invariant
            idle(old(loader)@),
            on_its_way(old(loader)@, loader@, action_view(action), version, *replies),
        decreases steps_left(action_view(action)),
    {
        let event = match action {
            Action::MapLibrary => Event::LibraryMapped { found: replies.library },
            Action::ResolveSymbol => Event::SymbolResolved { found: replies.symbol },
            Action::CallEntry { .. } => Event::EntryReturned {
                status: replies.status,
                table: replies.table,
            },
            Action::Wait => Event::Requested,
            Action::Finished(result) => {
                return result;
            },
        };
        action = loader.step(version, event);
    }
}

/// Steps lead from well-formed states to well-formed states.
pub proof fn lemma_step_keeps_well_formed(s: LoaderState, version: u32, event: Event)
    requires
        well_formed(s),
    ensures
        well_formed(step_spec(s, version, event).0),
{
}

/// Each lookup is asked for once: a step sends somebody for the library only
/// while nobody has asked, and counts the lookup as under way from then on;
/// what a lookup has come to is never changed again. The same holds of the
/// symbol.
pub proof fn lemma_lookups_are_asked_once(s: LoaderState, version: u32, event: Event)
    ensures
        step_spec(s, version, event).1 is MapLibrary ==> s.library is Untried && step_spec(
            s,
            version,
            event,
        ).0.library is Pending,
        step_spec(s, version, event).1 is ResolveSymbol ==> s.symbol is Untried && step_spec(
            s,
            version,
            event,
        ).0.symbol is Pending,
        !(step_spec(s, version, event).0.library is Untried) || s.library is Untried,
        !(step_spec(s, version, event).0.symbol is Untried) || s.symbol is Untried,
        s.library is Ready || s.library is Failed ==> step_spec(s, version, event).0.library
            == s.library,
        s.symbol is Ready || s.symbol is Failed ==> step_spec(s, version, event).0.symbol
            == s.symbol,
{
}

/// The entry point is called by one load at a time and never beside a live
/// table: a step sends somebody to call it only while the place is free, and
/// takes the place with that. A load that finds the place taken ends without
/// a call.
pub proof fn lemma_entry_is_called_alone(s: LoaderState, version: u32, event: Event)
    ensures
        step_spec(s, version, event).1 is CallEntry ==> s.slot is Free && step_spec(
            s,
            version,
            event,
        ).0.slot is Claimed,
        !(s.slot is Free) && (event is Requested || s.slot is Live) ==> !(step_spec(
            s,
            version,
            event,
        ).1 is CallEntry) && step_spec(s, version, event).0.slot == s.slot,
{
}

/// While a table is alive, every further load is refused, whatever was asked
/// for and whatever the host would answer.
pub proof fn lemma_second_load_is_refused(
    s: LoaderState,
    first: u32,
    first_replies: Replies,
    second: u32,
    second_replies: Replies,
)
    requires
        load_spec(s, first, first_replies).1 is Ok,
    ensures
        load_spec(load_spec(s, first, first_replies).0, second, second_replies) == (
            load_spec(s, first, first_replies).0,
            Err::<usize, Error>(Error::InstanceAlreadyActive),
        ),
{
}

/// Once the table of a successful load was given back, a load succeeds again
/// as soon as the entry point reports success; the library and the symbol are
/// not looked up anew.
pub proof fn lemma_load_after_unload(
    s: LoaderState,
    first: u32,
    first_replies: Replies,
    second: u32,
    second_replies: Replies,
)
    requires
        load_spec(s, first, first_replies).1 is Ok,
        second_replies.status == ENTRY_OK,
    ensures
        load_spec(unload_spec(load_spec(s, first, first_replies).0), second, second_replies).1
            == Ok::<usize, Error>(second_replies.table),
{
}

/// A failed lookup of the library or of the symbol is final: the same error
/// comes back from every later load, and the state does not move.
pub proof fn lemma_lookup_failure_is_final(
    s: LoaderState,
    first: u32,
    first_replies: Replies,
    second: u32,
    second_replies: Replies,
)
    requires
        load_spec(s, first, first_replies).1 == Err::<usize, Error>(Error::LibraryNotFound)
            || load_spec(s, first, first_replies).1 == Err::<usize, Error>(
            Error::SymbolNotFound,
        ),
    ensures
        load_spec(load_spec(s, first, first_replies).0, second, second_replies)
            == load_spec(s, first, first_replies),
{
}

/// The state of a loader that has not looked for anything yet.
pub open spec fn fresh() -> LoaderState {
    LoaderState { library: Cached::Untried, symbol: Cached::Untried, slot: Slot::Free }
}

/// One turn of a load that keeps to the steps: `standing` is the answer to its
/// last step, or nothing if it has yet to ask. It reports on the work that it
/// was sent to do, with `replies` for the answers from outside, and takes the
/// loader's next answer. A load that is over takes no turn.
pub open spec fn turn(
    s: LoaderState,
    standing: Option<Action<usize>>,
    version: u32,
    replies: Replies,
) -> (LoaderState, Option<Action<usize>>) {
    match standing {
        Some(Action::Finished(_)) => (s, standing),
        Some(action) => {
            let next = step_spec(s, version, report(action, replies));
            (next.0, Some(next.1))
        },
        None => {
            let next = step_spec(s, version, Event::Requested);
            (next.0, Some(next.1))
        },
    }
}

/// Two loads at one loader, taking turns in the order of `schedule`, where
/// `true` sends the first of them.
pub open spec fn race(
    s: LoaderState,
    first: (u32, Replies),
    second: (u32, Replies),
    schedule: Seq<bool>,
) -> (LoaderState, Option<Action<usize>>, Option<Action<usize>>)
    decreases schedule.len(),
{
    if schedule.len() == 0 {
        (s, None, None)
    } else {
        let before = race(s, first, second, schedule.drop_last());
        if schedule.last() {
            let next = turn(before.0, before.1, first.0, first.1);
            (next.0, next.1, before.2)
        } else {
            let next = turn(before.0, before.2, second.0, second.1);
            (next.0, before.1, next.1)
        }
    }
}

/// A load in one go is a load that takes its turns alone: from a state in
/// which nothing is under way, four turns at most bring it to the end that
/// [`load_spec`] gives.
pub proof fn lemma_load_runs_the_steps(s: LoaderState, version: u32, replies: Replies)
    requires
        idle(s),
    ensures
        ({
            let first = turn(s, None, version, replies);
            let second = turn(first.0, first.1, version, replies);
            let third = turn(second.0, second.1, version, replies);
            let fourth = turn(third.0, third.1, version, replies);
            fourth == (
                load_spec(s, version, replies).0,
                Some(Action::<usize>::Finished(load_spec(s, version, replies).1)),
            )
        }),
{
}

/// Whether a load stands at the end with a table.
pub open spec fn has_won(standing: Option<Action<usize>>) -> bool {
    standing matches Some(Action::Finished(Ok(_)))
}

/// Whether a load stands at its end.
pub open spec fn is_over(standing: Option<Action<usize>>) -> bool {
    standing matches Some(Action::Finished(_))
}

/// Whether a load was sent to do the work `action` and has not reported yet.
pub open spec fn is_doing(standing: Option<Action<usize>>, action: Action<usize>) -> bool {
    standing == Some(action)
}

/// What holds of two loads at a loader that was fresh when they began,
/// wherever they stand: every piece of outside work that the state counts as
/// under way is the work of exactly one of them, and a live table is the prize
/// of exactly one.
pub open spec fn race_invariant(
    s: LoaderState,
    a: Option<Action<usize>>,
    b: Option<Action<usize>>,
    first: (u32, Replies),
    second: (u32, Replies),
) -> bool {
    &&& well_formed(s)
    &&& s.library is Untried ==> a is None && b is None
    &&& s.library is Failed ==> !first.1.library || !second.1.library
    &&& s.symbol is Failed ==> !first.1.symbol || !second.1.symbol
    &&& s.library is Pending <==> is_doing(a, Action::MapLibrary) || is_doing(
        b,
        Action::MapLibrary,
    )
    &&& !(is_doing(a, Action::MapLibrary) && is_doing(b, Action::MapLibrary))
    &&& s.symbol is Pending <==> is_doing(a, Action::ResolveSymbol) || is_doing(
        b,
        Action::ResolveSymbol,
    )
    &&& !(is_doing(a, Action::ResolveSymbol) && is_doing(b, Action::ResolveSymbol))
    &&& s.slot is Claimed <==> a is Some && a->0 is CallEntry || b is Some && b->0 is CallEntry
    &&& !(a is Some && a->0 is CallEntry && b is Some && b->0 is CallEntry)
    &&& s.slot is Live <==> has_won(a) || has_won(b)
    &&& !(has_won(a) && has_won(b))
    &&& a matches Some(Action::Finished(Ok(table))) ==> table == first.1.table
    &&& b matches Some(Action::Finished(Ok(table))) ==> table == second.1.table
    &&& a matches Some(Action::Finished(Err(e))) ==> lost_fairly(s, e, first.1, second.1)
    &&& b matches Some(Action::Finished(Err(e))) ==> lost_fairly(s, e, first.1, second.1)
}

/// Whether the error `e` of a finished load has its reason in the state or in
/// the answers from outside: a lookup has failed for good, the entry point has
/// not reported success to everybody, or the place is taken.
pub open spec fn lost_fairly(s: LoaderState, e: Error, first: Replies, second: Replies) -> bool {
    match e {
        Error::LibraryNotFound => s.library is Failed,
        Error::SymbolNotFound => s.symbol is Failed,
        Error::NoCompatibleApi => first.status != ENTRY_OK || second.status != ENTRY_OK,
        Error::InstanceAlreadyActive => !(s.slot is Free) || first.status != ENTRY_OK
            || second.status != ENTRY_OK,
        _ => false,
    }
}

/// Whether the platform and the host answer a load with success throughout.
pub open spec fn all_found(replies: Replies) -> bool {
    replies.library && replies.symbol && replies.status == ENTRY_OK
}

/// A turn of either load keeps [`race_invariant`].
proof fn lemma_turn_keeps_invariant(
    s: LoaderState,
    a: Option<Action<usize>>,
    b: Option<Action<usize>>,
    first: (u32, Replies),
    second: (u32, Replies),
)
    requires
        race_invariant(s, a, b, first, second),
    ensures
        race_invariant(
            turn(s, a, first.0, first.1).0,
            turn(s, a, first.0, first.1).1,
            b,
            first,
            second,
        ),
        race_invariant(
            turn(s, b, second.0, second.1).0,
            a,
            turn(s, b, second.0, second.1).1,
            first,
            second,
        ),
{
}

/// [`race_invariant`] holds throughout a race at a fresh loader.
pub proof fn lemma_race_invariant(
    first: (u32, Replies),
    second: (u32, Replies),
    schedule: Seq<bool>,
)
    ensures
        race_invariant(
            race(fresh(), first, second, schedule).0,
            race(fresh(), first, second, schedule).1,
            race(fresh(), first, second, schedule).2,
            first,
            second,
        ),
    decreases schedule.len(),
{
    if schedule.len() > 0 {
        lemma_race_invariant(first, second, schedule.drop_last());
        let before = race(fresh(), first, second, schedule.drop_last());
        lemma_turn_keeps_invariant(before.0, before.1, before.2, first, second);
    }
}

/// Of two loads that run side by side at a fresh loader, in whatever order
/// their steps fall, at most one gets a table. If the library and the symbol
/// are found and the entry point reports success, then as soon as both are
/// over exactly one has its table and the other was refused because a handle
/// is alive.
pub proof fn lemma_race_has_one_winner(
    first: (u32, Replies),
    second: (u32, Replies),
    schedule: Seq<bool>,
)
    ensures
        !(has_won(race(fresh(), first, second, schedule).1) && has_won(
            race(fresh(), first, second, schedule).2,
        )),
        all_found(first.1) && all_found(second.1) && is_over(
            race(fresh(), first, second, schedule).1,
        ) && is_over(race(fresh(), first, second, schedule).2) ==> {
            let end = race(fresh(), first, second, schedule);
            ||| end.1 == Some(Action::<usize>::Finished(Ok(first.1.table))) && end.2 == Some(
                Action::<usize>::Finished(Err(Error::InstanceAlreadyActive)),
            )
            ||| end.1 == Some(Action::<usize>::Finished(Err(Error::InstanceAlreadyActive)))
                && end.2 == Some(Action::<usize>::Finished(Ok(second.1.table)))
        },
{
    lemma_race_invariant(first, second, schedule);
}

} // verus!
