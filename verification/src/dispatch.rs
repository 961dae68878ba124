//! The dispatcher: what each command does to the store, and what is said in
//! reply.
//!
//! The dispatcher neither reads nor prints. [`Dispatcher::execute`] takes one
//! input line and hands back a [`Reply`], which says what the caller is to
//! write and on which stream, or that it is to leave.

use vstd::prelude::*;
use crate::command::{action_of, classify, parse, Action, ActionView, Command, CommandView};
use crate::register::{register_named, Register};
use crate::store::{listing_view, Store, State};
use crate::text::{lemma_trimmed, trim, trimmed};

verus! {

/// What the caller is to do after a command.
#[derive(Debug, PartialEq, Eq)]
pub enum Reply {
    /// Write these lines, in order, to the normal stream. There may be none.
    Output(Vec<String>),
    /// Write this line to the error stream.
    Error(String),
    /// Leave, with success.
    Exit,
}

/// The mathematical value of a [`Reply`].
pub enum ReplyView {
    Output(Seq<Seq<char>>),
    Error(Seq<char>),
    Exit,
}

impl View for Reply {
    type V = ReplyView;

    open spec fn view(&self) -> ReplyView {
        match self {
            Reply::Output(lines) => ReplyView::Output(lines@.map_values(|line: String| line@)),
            Reply::Error(line) => ReplyView::Error(line@),
            Reply::Exit => ReplyView::Exit,
        }
    }
}

/// The line that shows the note on a register.
pub open spec fn note_line(reg: Register, note: Seq<char>) -> Seq<char> {
    reg.canonical_name() + " : "@ + note
}

/// The line that says that a register has no note.
pub open spec fn unused_line(reg: Register) -> Seq<char> {
    reg.canonical_name() + " is unused"@
}

/// The line that shows a note together with the one it replaced.
pub open spec fn changed_line(reg: Register, before: Seq<char>, after: Seq<char>) -> Seq<char> {
    reg.canonical_name() + " : "@ + before + " -> "@ + after
}

/// The line that shows the role of a register.
pub open spec fn info_line(reg: Register) -> Seq<char> {
    reg.canonical_name() + " : "@ + reg.role()
}

/// The complaint about an operand that names no register.
pub open spec fn no_such_register_line(operand: Seq<char>) -> Seq<char> {
    "Error: no such register: `"@ + operand + "`"@
}

/// The complaint about a scope that does not exist.
pub open spec fn no_such_scope_line() -> Seq<char> {
    "Error: no such scope"@
}

/// The complaint about a line that is no command.
pub open spec fn unknown_command_line(line: Seq<char>) -> Seq<char> {
    "Error: unknown command `"@ + line + "`"@
}

/// The confirmation of a reset.
pub open spec fn reset_line() -> Seq<char> {
    "cleared all saved scopes and registers"@
}

/// One line for each noted register, in table order.
pub open spec fn dump_lines(state: State) -> Seq<Seq<char>> {
    state.dump().map_values(|pair: (Register, Seq<char>)| note_line(pair.0, pair.1))
}

/// The reply to a request for the role of the register named `operand`: its
/// role if `operand` is a canonical register name, a complaint otherwise.
pub open spec fn info_reply(operand: Seq<char>) -> ReplyView {
    match register_named(operand) {
        Some(reg) => ReplyView::Output(seq![info_line(reg)]),
        None => ReplyView::Error(no_such_register_line(operand)),
    }
}

/// The state after `cmd` was carried out on `state`, and the reply to it.
pub open spec fn respond(state: State, cmd: CommandView) -> (State, ReplyView) {
    match cmd {
        CommandView::Register { reg, action: ActionView::Query } => (
            state,
            ReplyView::Output(
                seq![
                    match state.query(reg) {
                        Some(note) => note_line(reg, note),
                        None => unused_line(reg),
                    },
                ],
            ),
        ),
        CommandView::Register { reg, action: ActionView::Clear } => (
            state.clear(reg),
            ReplyView::Output(seq![unused_line(reg)]),
        ),
        CommandView::Register { reg, action: ActionView::Assign(text) } => (
            state.set(reg, text),
            ReplyView::Output(
                seq![
                    match state.query(reg) {
                        Some(before) => changed_line(reg, before, text),
                        None => note_line(reg, text),
                    },
                ],
            ),
        ),
        CommandView::SaveScope(name) => (state.save_scope(name), ReplyView::Output(seq![])),
        CommandView::LoadScope(name) => (
            state.load_scope(name),
            if state.has_scope(name) {
                ReplyView::Output(seq![])
            } else {
                ReplyView::Error(no_such_scope_line())
            },
        ),
        CommandView::Info(operand) => (state, info_reply(operand)),
        CommandView::Dump => (state, ReplyView::Output(dump_lines(state))),
        CommandView::Reset => (state.reset_all(), ReplyView::Output(seq![reset_line()])),
        CommandView::Exit => (state, ReplyView::Exit),
        CommandView::Unknown(line) => (state, ReplyView::Error(unknown_command_line(line))),
    }
}

/// The state after the input line `line` was handled, and the reply to it.
/// The line is trimmed before it is classified.
pub open spec fn step(state: State, line: Seq<char>) -> (State, ReplyView) {
    respond(state, classify(trimmed(line)))
}

/// A reply of one line on the normal stream.
fn one_line(line: String) -> (reply: Reply)
    ensures
        reply@ == ReplyView::Output(seq![line@]),
{
    let mut lines: Vec<String> = Vec::new();
    lines.push(line);
    let reply = Reply::Output(lines);
    assert(reply@->Output_0 =~= seq![line@]);
    reply
}

/// A reply that writes nothing.
fn silence() -> (reply: Reply)
    ensures
        reply@ == ReplyView::Output(seq![]),
{
    let reply = Reply::Output(Vec::new());
    assert(reply@->Output_0 =~= seq![]);
    reply
}

/// Builds [`note_line`].
fn render_note(reg: Register, note: &str) -> (line: String)
    ensures
        line@ == note_line(reg, note@),
{
    let mut line = reg.name().to_owned();
    line.append(" : ");
    line.append(note);
    line
}

/// Builds [`unused_line`].
fn render_unused(reg: Register) -> (line: String)
    ensures
        line@ == unused_line(reg),
{
    let mut line = reg.name().to_owned();
    line.append(" is unused");
    line
}

/// Builds [`changed_line`].
fn render_changed(reg: Register, before: &str, after: &str) -> (line: String)
    ensures
        line@ == changed_line(reg, before@, after@),
{
    let mut line = render_note(reg, before);
    line.append(" -> ");
    line.append(after);
    line
}

/// Answers a request for the role of the register named `reg`, which must be
/// a canonical name, in upper case, to be found.
pub fn display_info(reg: &str) -> (reply: Reply)
    ensures
        reply@ == info_reply(reg@),
{
    match Register::from_name(reg) {
        Some(found) => one_line(render_note(found, found.info())),
        None => {
            let mut line = "Error: no such register: `".to_owned();
            line.append(reg);
            line.append("`");
            Reply::Error(line)
        },
    }
}

/// The owner of the store: it carries out one command at a time.
pub struct Dispatcher {
    store: Store,
}

impl View for Dispatcher {
    type V = State;

    closed spec fn view(&self) -> State {
        self.store@
    }
}

impl Dispatcher {
    /// A dispatcher whose store holds no notes and no scopes.
    pub fn new() -> (dispatcher: Dispatcher)
        ensures
            dispatcher@ == State::empty(),
    {
        Dispatcher { store: Store::new() }
    }

    /// The store as it stands.
    pub fn store(&self) -> (store: &Store)
        ensures
            store@ == self@,
    {
        &self.store
    }

    /// Carries out `cmd` and says what to reply.
    pub fn apply(&mut self, cmd: Command) -> (reply: Reply)
        ensures
            (final(self)@, reply@) == respond(old(self)@, cmd@),
    {
        match cmd {
            Command::Register { reg, action: Action::Query } => {
                match self.store.query(reg) {
                    Some(note) => one_line(render_note(reg, note)),
                    None => one_line(render_unused(reg)),
                }
            },
            Command::Register { reg, action: Action::Clear } => {
                self.store.clear(reg);
                one_line(render_unused(reg))
            },
            Command::Register { reg, action: Action::Assign(text) } => {
                match self.store.set(reg, text.clone()) {
                    Some(before) => one_line(render_changed(reg, before.as_str(), text.as_str())),
                    None => one_line(render_note(reg, text.as_str())),
                }
            },
            Command::SaveScope(name) => {
                self.store.save_scope(name.as_str());
                silence()
            },
            Command::LoadScope(name) => {
                match self.store.load_scope(name.as_str()) {
                    Ok(()) => silence(),
                    Err(_) => Reply::Error("Error: no such scope".to_owned()),
                }
            },
            Command::Info(operand) => display_info(operand.as_str()),
            Command::Dump => {
                let pairs = self.store.dump();
                let mut lines: Vec<String> = Vec::new();
                let mut i: usize = 0;
                while i < pairs.len()
                    invariant
                        i <= pairs@.len(),
                        lines@.len() == i,
                        forall|j: int|
                            0 <= j < i ==> (#[trigger] lines@[j])@ == note_line(
                                pairs@[j].0,
                                pairs@[j].1@,
                            ),
                    decreases pairs@.len() - i,
                {
                    lines.push(render_note(pairs[i].0, pairs[i].1.as_str()));
                    i += 1;
                }
                let reply = Reply::Output(lines);
                assert(reply@->Output_0 =~= dump_lines(self@)) by {
                    assert(listing_view(pairs@) == self@.dump());
                    assert forall|j: int| 0 <= j < pairs@.len() implies listing_view(pairs@)[j] == (
                        pairs@[j].0,
                        pairs@[j].1@,
                    ) by {}
                }
                reply
            },
            Command::Reset => {
                self.store.reset_all();
                one_line("cleared all saved scopes and registers".to_owned())
            },
            Command::Exit => Reply::Exit,
            Command::Unknown(line) => {
                let mut complaint = "Error: unknown command `".to_owned();
                complaint.append(line.as_str());
                complaint.append("`");
                Reply::Error(complaint)
            },
        }
    }

    /// Handles one input line: trims it, classifies it, carries the command
    /// out and says what to reply.
    pub fn execute(&mut self, line: &str) -> (reply: Reply)
        ensures
            (final(self)@, reply@) == step(old(self)@, line@),
    {
        let cmd = parse(trim(line));
        self.apply(cmd)
    }
}

/// A register command whose text is neither blank nor the word `clear` makes
/// that text, without the whitespace around it, the note on the register: a
/// query of the register that follows shows exactly that text, which has no
/// whitespace left to trim.
pub proof fn lemma_note_then_query(state: State, reg: Register, rest: Seq<char>)
    requires
        trimmed(rest).len() > 0,
        trimmed(rest) != "clear"@,
    ensures
        ({
            let text = trimmed(rest);
            let noted = respond(state, CommandView::Register { reg, action: action_of(rest) }).0;
            &&& noted.query(reg) == Some(text)
            &&& trimmed(text) == text
            &&& respond(noted, CommandView::Register { reg, action: ActionView::Query }) == (
                noted,
                ReplyView::Output(seq![note_line(reg, text)]),
            )
        }),
{
    lemma_trimmed(rest);
}

/// Asking for a scope that does not exist is answered with a complaint, and
/// the notes and the scopes stay as they were.
pub proof fn lemma_load_missing_scope_complains(state: State, name: Seq<char>)
    requires
        !state.has_scope(name),
    ensures
        respond(state, CommandView::LoadScope(name)) == (
            state,
            ReplyView::Error(no_such_scope_line()),
        ),
{
}

/// A command that is answered on the error stream leaves the notes and the
/// scopes as they were.
pub proof fn lemma_error_changes_nothing(state: State, cmd: CommandView)
    requires
        respond(state, cmd).1 is Error,
    ensures
        respond(state, cmd).0 == state,
{
}

} // verus!
