//! The state of the notepad: the notes on the registers in use, and the
//! scopes that were put aside under a name.

use std::collections::HashMap;
use vstd::hash_map::StringHashMap;
use vstd::prelude::*;
use crate::register::{lemma_table, Register, REGISTER_COUNT};

verus! {

/// The notes on the registers in use: a register without an entry is unused.
pub type NotesView = Map<Register, Seq<char>>;

/// The mathematical state of a [`Store`].
pub struct State {
    /// The current notes.
    pub notes: NotesView,
    /// The notes that were put aside, by scope name.
    pub scopes: Map<Seq<char>, NotesView>,
}

/// The noted registers among the first `n` of the table, in table order, each
/// with its note.
pub open spec fn listing_upto(notes: NotesView, n: int) -> Seq<(Register, Seq<char>)>
    decreases n,
{
    if n <= 0 {
        Seq::empty()
    } else {
        let reg = Register::at(n - 1);
        let before = listing_upto(notes, n - 1);
        if notes.contains_key(reg) {
            before.push((reg, notes[reg]))
        } else {
            before
        }
    }
}

impl State {
    /// No notes and no scopes.
    pub open spec fn empty() -> State {
        State { notes: Map::empty(), scopes: Map::empty() }
    }

    /// The note on `reg`, if it has one.
    pub open spec fn query(self, reg: Register) -> Option<Seq<char>> {
        if self.notes.contains_key(reg) {
            Some(self.notes[reg])
        } else {
            None
        }
    }

    /// The state after `text` became the note on `reg`.
    pub open spec fn set(self, reg: Register, text: Seq<char>) -> State {
        State { notes: self.notes.insert(reg, text), scopes: self.scopes }
    }

    /// The state after `reg` lost its note.
    pub open spec fn clear(self, reg: Register) -> State {
        State { notes: self.notes.remove(reg), scopes: self.scopes }
    }

    /// The state after the current notes were put aside under `name`: they
    /// replace what `name` held, and no register has a note.
    pub open spec fn save_scope(self, name: Seq<char>) -> State {
        State { notes: Map::empty(), scopes: self.scopes.insert(name, self.notes) }
    }

    /// The state after the scope `name` was taken back: its notes replace the
    /// current ones and the scope is gone. Without such a scope nothing
    /// changes.
    pub open spec fn load_scope(self, name: Seq<char>) -> State {
        if self.scopes.contains_key(name) {
            State { notes: self.scopes[name], scopes: self.scopes.remove(name) }
        } else {
            self
        }
    }

    /// The state after everything was forgotten.
    pub open spec fn reset_all(self) -> State {
        State::empty()
    }

    /// Whether notes were put aside under `name` and not taken back since.
    pub open spec fn has_scope(self, name: Seq<char>) -> bool {
        self.scopes.contains_key(name)
    }

    /// Every register that has a note, in table order, with its note.
    pub open spec fn dump(self) -> Seq<(Register, Seq<char>)> {
        listing_upto(self.notes, REGISTER_COUNT as int)
    }
}

/// The notes that a table of strings keyed by register position stands for.
spec fn notes_of(entries: Map<usize, String>) -> NotesView {
    Map::new(
        |reg: Register| entries.contains_key(reg.position() as usize),
        |reg: Register| entries[reg.position() as usize]@,
    )
}

/// The pairs of a listing with each note as a sequence of characters.
pub open spec fn listing_view(pairs: Seq<(Register, String)>) -> Seq<(Register, Seq<char>)> {
    pairs.map_values(|pair: (Register, String)| (pair.0, pair.1@))
}

/// Returned by [`Store::load_scope`] when no scope has the name asked for.
#[derive(Debug, PartialEq, Eq)]
pub struct NoSuchScope;

/// The notes on the registers in use and the scopes put aside.
pub struct Store {
    notes: HashMap<usize, String>,
    scopes: StringHashMap<HashMap<usize, String>>,
}

impl View for Store {
    type V = State;

    closed spec fn view(&self) -> State {
        State {
            notes: notes_of(self.notes@),
            scopes: self.scopes@.map_values(|saved: HashMap<usize, String>| notes_of(saved@)),
        }
    }
}

impl Store {
    /// A store without notes or scopes.
    pub fn new() -> (store: Store)
        ensures
            store@ == State::empty(),
    {
        let store = Store { notes: HashMap::new(), scopes: StringHashMap::new() };
        assert(store@.notes =~= Map::empty());
        assert(store@.scopes =~= Map::empty());
        store
    }

    /// The note on `reg`, or `None` when `reg` is unused.
    pub fn query(&self, reg: Register) -> (note: Option<&str>)
        ensures
            match note {
                Some(text) => self@.query(reg) == Some(text@),
                None => self@.query(reg) is None,
            },
    {
        let key = reg.index();
        match self.notes.get(&key) {
            Some(text) => Some(text.as_str()),
            None => None,
        }
    }

    /// Makes `text` the note on `reg` and returns the note it replaces, if
    /// there was one.
    pub fn set(&mut self, reg: Register, text: String) -> (previous: Option<String>)
        ensures
            final(self)@ == old(self)@.set(reg, text@),
            match previous {
                Some(was) => old(self)@.query(reg) == Some(was@),
                None => old(self)@.query(reg) is None,
            },
    {
        let key = reg.index();
        let previous = self.notes.insert(key, text);
        assert(self@.notes =~= old(self)@.notes.insert(reg, text@));
        previous
    }

    /// Removes the note on `reg`. A register without a note stays unused.
    pub fn clear(&mut self, reg: Register)
        ensures
            final(self)@ == old(self)@.clear(reg),
    {
        let key = reg.index();
        self.notes.remove(&key);
        assert(self@.notes =~= old(self)@.notes.remove(reg));
    }

    /// Puts the current notes aside under `name`, in place of what `name`
    /// held before, and leaves every register unused.
    pub fn save_scope(&mut self, name: &str)
        ensures
            final(self)@ == old(self)@.save_scope(name@),
    {
        let mut saved: HashMap<usize, String> = HashMap::new();
        std::mem::swap(&mut self.notes, &mut saved);
        self.scopes.insert(name.to_owned(), saved);
        assert(self@.notes =~= Map::empty());
        assert(self@.scopes =~= old(self)@.scopes.insert(name@, old(self)@.notes));
    }

    /// Takes the scope `name` back: its notes replace the current ones, which
    /// are lost, and the scope is gone. Without such a scope nothing changes.
    pub fn load_scope(&mut self, name: &str) -> (r: Result<(), NoSuchScope>)
        ensures
            r is Ok <==> old(self)@.has_scope(name@),
            final(self)@ == old(self)@.load_scope(name@),
    {
        let restored = match self.scopes.get(name) {
            Some(saved) => saved.clone(),
            None => {
                return Err(NoSuchScope);
            },
        };
        self.scopes.remove(name);
        self.notes = restored;
        assert(self@.scopes =~= old(self)@.scopes.remove(name@));
        Ok(())
    }

    /// Every register that has a note, in table order, with a copy of its
    /// note.
    pub fn dump(&self) -> (pairs: Vec<(Register, String)>)
        ensures
            listing_view(pairs@) == self@.dump(),
    {
        let mut pairs: Vec<(Register, String)> = Vec::new();
        let mut i: usize = 0;
        while i < REGISTER_COUNT
            invariant
                i <= REGISTER_COUNT,
                listing_view(pairs@) == listing_upto(self@.notes, i as int),
            decreases REGISTER_COUNT - i,
        {
            let reg = Register::from_index(i).unwrap();
            let ghost before = pairs@;
            match self.notes.get(&i) {
                Some(text) => {
                    pairs.push((reg, text.clone()));
                    assert(listing_view(pairs@) =~= listing_view(before).push((reg, text@)));
                },
                None => {},
            }
            i += 1;
        }
        pairs
    }

    /// Forgets every note and every scope.
    pub fn reset_all(&mut self)
        ensures
            final(self)@ == old(self)@.reset_all(),
    {
        self.notes = HashMap::new();
        self.scopes = StringHashMap::new();
        assert(self@.notes =~= Map::empty());
        assert(self@.scopes =~= Map::empty());
    }
}

/// Among the first `n` registers of the table, the listing holds exactly the
/// noted ones, each with its note, in table order.
pub proof fn lemma_listing_upto(notes: NotesView, n: int)
    requires
        0 <= n <= REGISTER_COUNT,
    ensures
        forall|i: int|
            0 <= i < listing_upto(notes, n).len() ==> {
                let pair = #[trigger] listing_upto(notes, n)[i];
                &&& notes.contains_key(pair.0)
                &&& pair.1 == notes[pair.0]
                &&& pair.0.position() < n
            },
        forall|i: int, j: int|
            0 <= i < j < listing_upto(notes, n).len() ==> (#[trigger] listing_upto(
                notes,
                n,
            )[i]).0.position() < (#[trigger] listing_upto(notes, n)[j]).0.position(),
        forall|reg: Register|
            #[trigger] notes.contains_key(reg) && reg.position() < n ==> listing_upto(
                notes,
                n,
            ).contains((reg, notes[reg])),
    decreases n,
{
    if n > 0 {
        lemma_listing_upto(notes, n - 1);
        let last = Register::at(n - 1);
        let before = listing_upto(notes, n - 1);
        let all = listing_upto(notes, n);
        assert forall|reg: Register| #[trigger]
            notes.contains_key(reg) && reg.position() < n implies all.contains(
            (reg, notes[reg]),
        ) by {
            lemma_table(reg);
            if reg.position() < n - 1 {
                let i = choose|i: int| 0 <= i < before.len() && before[i] == (reg, notes[reg]);
                assert(all[i] == (reg, notes[reg]));
            } else {
                assert(reg == last);
                assert(all[all.len() - 1] == (reg, notes[reg]));
            }
        }
    }
}

/// A dump shows every register that has a note exactly once, with its note,
/// and shows nothing else; the registers come in table order.
pub proof fn lemma_dump(state: State)
    ensures
        forall|i: int|
            0 <= i < state.dump().len() ==> state.query((#[trigger] state.dump()[i]).0) == Some(
                state.dump()[i].1,
            ),
        forall|i: int, j: int|
            0 <= i < j < state.dump().len() ==> (#[trigger] state.dump()[i]).0.position() < (
            #[trigger] state.dump()[j]).0.position(),
        forall|reg: Register|
            #[trigger] state.notes.contains_key(reg) ==> state.dump().contains(
                (reg, state.notes[reg]),
            ),
        state.notes =~= Map::<Register, Seq<char>>::empty() ==> state.dump().len() == 0,
{
    lemma_listing_upto(state.notes, REGISTER_COUNT as int);
    assert forall|reg: Register| #[trigger] state.notes.contains_key(reg) implies state.dump().contains(
        (reg, state.notes[reg]),
    ) by {
        lemma_table(reg);
    }
    if state.notes =~= Map::<Register, Seq<char>>::empty() && state.dump().len() > 0 {
        assert(state.notes.contains_key(state.dump()[0].0));
    }
}

/// After a note was set on a register, a query of that register gives
/// exactly that note, and every other register is as it was.
pub proof fn lemma_set_then_query(state: State, reg: Register, text: Seq<char>)
    ensures
        state.set(reg, text).query(reg) == Some(text),
        forall|other: Register| other != reg ==> state.set(reg, text).query(other) == state.query(other),
        state.set(reg, text).scopes == state.scopes,
{
}

/// After a register was cleared it is unused, whether or not it had a note;
/// clearing it once more changes nothing, and every other register is as it
/// was.
pub proof fn lemma_clear_then_query(state: State, reg: Register, text: Seq<char>)
    ensures
        state.clear(reg).query(reg) is None,
        state.set(reg, text).clear(reg).query(reg) is None,
        state.clear(reg).clear(reg) == state.clear(reg),
        forall|other: Register| other != reg ==> state.clear(reg).query(other) == state.query(other),
{
    assert(state.clear(reg).clear(reg).notes =~= state.clear(reg).notes);
}

/// Right after the notes were put aside under a name, every register is
/// unused.
pub proof fn lemma_save_scope_leaves_no_notes(state: State, name: Seq<char>, reg: Register)
    ensures
        state.save_scope(name).query(reg) is None,
        state.save_scope(name).has_scope(name),
{
}

/// Taking a scope back right after it was saved restores exactly the notes
/// that were current when it was saved: the registers that had a note have it
/// again, and those that had none have none. The name is free again
/// afterwards, and the other scopes are as they were.
pub proof fn lemma_save_then_load(state: State, name: Seq<char>)
    ensures
        state.save_scope(name).load_scope(name).notes == state.notes,
        state.save_scope(name).load_scope(name).scopes == state.scopes.remove(name),
        forall|reg: Register| state.save_scope(name).load_scope(name).query(reg) == state.query(reg),
{
    assert(state.scopes.insert(name, state.notes).remove(name) =~= state.scopes.remove(name));
}

/// Saving under a name that is in use replaces what the name held: taking
/// the name back gives the notes of the later save, and the earlier ones are
/// lost.
pub proof fn lemma_save_scope_overwrites(state: State, name: Seq<char>)
    requires
        state.has_scope(name),
    ensures
        state.save_scope(name).load_scope(name).notes == state.notes,
        !state.save_scope(name).load_scope(name).has_scope(name),
{
}

/// Taking back a scope that does not exist changes neither the notes nor
/// the scopes.
pub proof fn lemma_load_missing_scope(state: State, name: Seq<char>)
    requires
        !state.has_scope(name),
    ensures
        state.load_scope(name) == state,
{
}

/// After a reset there are no notes and no scopes, so that no name can be
/// taken back, whatever was saved under it before.
pub proof fn lemma_reset_all(state: State, name: Seq<char>, reg: Register)
    ensures
        state.reset_all().query(reg) is None,
        !state.reset_all().has_scope(name),
        state.reset_all().load_scope(name) == state.reset_all(),
        state.save_scope(name).reset_all().load_scope(name) == State::empty(),
{
}

} // verus!
