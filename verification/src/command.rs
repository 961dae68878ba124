//! The command grammar: one trimmed input line is one command.
//!
//! A line is tried against the shapes below from top to bottom, and the first
//! shape that fits decides:
//!
//! - a register at the start of the line, alone (a query), followed by
//!   `clear`, or followed by the text of a new note;
//! - `end NAME`, which puts the current notes aside under `NAME`;
//! - `load NAME`, which takes them back;
//! - `about REG`, which asks for the role of a register;
//! - `dump`, `reset` or `exit`, with nothing else on the line;
//! - anything else, which is no command.
//!
//! The operand of `end`, `load` and `about` is all that follows the keyword
//! and its one space: whitespace inside it counts.

use vstd::prelude::*;
use crate::lexical::leading;
use crate::register::{
    lemma_canonical_names,
    lemma_first_from,
    match_register,
    matched_register,
    matching,
    name_matches,
    remainder,
    Register,
    PREFIX_LEN,
};
use crate::text::{
    ascii_uppercase,
    upper_char,
    same_text,
    strip_prefix,
    to_ascii_uppercase,
    trim,
    trimmed,
    without_prefix,
};

verus! {

/// What a register command does with its register.
#[derive(Debug, PartialEq, Eq)]
pub enum Action {
    /// Show the note.
    Query,
    /// Remove the note.
    Clear,
    /// Replace the note by this text.
    Assign(String),
}

/// A classified input line.
#[derive(Debug, PartialEq, Eq)]
pub enum Command {
    /// A line that starts with a register.
    Register { reg: Register, action: Action },
    /// `end NAME`: put the current notes aside under this name.
    SaveScope(String),
    /// `load NAME`: take the notes under this name back.
    LoadScope(String),
    /// `about REG`: show the role of the register with this name. The
    /// operand is held in upper case.
    Info(String),
    /// `dump`: show every note.
    Dump,
    /// `reset`: forget every note and every scope.
    Reset,
    /// `exit`: leave.
    Exit,
    /// Any other line, held whole.
    Unknown(String),
}

/// The mathematical value of an [`Action`].
pub enum ActionView {
    Query,
    Clear,
    Assign(Seq<char>),
}

/// The mathematical value of a [`Command`].
pub enum CommandView {
    Register { reg: Register, action: ActionView },
    SaveScope(Seq<char>),
    LoadScope(Seq<char>),
    Info(Seq<char>),
    Dump,
    Reset,
    Exit,
    Unknown(Seq<char>),
}

impl View for Action {
    type V = ActionView;

    open spec fn view(&self) -> ActionView {
        match self {
            Action::Query => ActionView::Query,
            Action::Clear => ActionView::Clear,
            Action::Assign(text) => ActionView::Assign(text@),
        }
    }
}

impl View for Command {
    type V = CommandView;

    open spec fn view(&self) -> CommandView {
        match self {
            Command::Register { reg, action } => CommandView::Register {
                reg: *reg,
                action: action@,
            },
            Command::SaveScope(name) => CommandView::SaveScope(name@),
            Command::LoadScope(name) => CommandView::LoadScope(name@),
            Command::Info(operand) => CommandView::Info(operand@),
            Command::Dump => CommandView::Dump,
            Command::Reset => CommandView::Reset,
            Command::Exit => CommandView::Exit,
            Command::Unknown(line) => CommandView::Unknown(line@),
        }
    }
}

/// What a register command does, given what follows the register on the
/// line: nothing but whitespace asks for the note, the word `clear` removes
/// it, and any other text, without the whitespace around it, replaces it.
pub open spec fn action_of(rest: Seq<char>) -> ActionView {
    let text = trimmed(rest);
    if text.len() == 0 {
        ActionView::Query
    } else if text == "clear"@ {
        ActionView::Clear
    } else {
        ActionView::Assign(text)
    }
}

/// The command that a trimmed line stands for.
pub open spec fn classify(line: Seq<char>) -> CommandView {
    if let Some(reg) = matched_register(line) {
        CommandView::Register { reg, action: action_of(remainder(line)) }
    } else if let Some(name) = without_prefix(line, "end "@) {
        CommandView::SaveScope(name)
    } else if let Some(name) = without_prefix(line, "load "@) {
        CommandView::LoadScope(name)
    } else if let Some(operand) = without_prefix(line, "about "@) {
        CommandView::Info(ascii_uppercase(operand))
    } else if line == "dump"@ {
        CommandView::Dump
    } else if line == "reset"@ {
        CommandView::Reset
    } else if line == "exit"@ {
        CommandView::Exit
    } else {
        CommandView::Unknown(line)
    }
}

/// Classifies what follows the register in a register command.
pub fn parse_action(rest: &str) -> (action: Action)
    ensures
        action@ == action_of(rest@),
{
    let text = trim(rest);
    if text.is_empty() {
        Action::Query
    } else if same_text(text, "clear") {
        Action::Clear
    } else {
        Action::Assign(text.to_owned())
    }
}

/// Classifies one input line, which the caller has trimmed.
pub fn parse(line: &str) -> (cmd: Command)
    ensures
        cmd@ == classify(line@),
{
    if let Some((reg, rest)) = match_register(line) {
        Command::Register { reg, action: parse_action(rest) }
    } else if let Some(name) = strip_prefix(line, "end ") {
        Command::SaveScope(name.to_owned())
    } else if let Some(name) = strip_prefix(line, "load ") {
        Command::LoadScope(name.to_owned())
    } else if let Some(operand) = strip_prefix(line, "about ") {
        Command::Info(to_ascii_uppercase(operand))
    } else if same_text(line, "dump") {
        Command::Dump
    } else if same_text(line, "reset") {
        Command::Reset
    } else if same_text(line, "exit") {
        Command::Exit
    } else {
        Command::Unknown(line.to_owned())
    }
}

/// No line that begins with `end `, `load ` or `about `, and none of the
/// lines `dump`, `reset` and `exit`, begins with a register. So a line never
/// fits both a register command and a keyword, and trying the register first
/// takes no command away from the keywords.
pub proof fn lemma_keywords_name_no_register(line: Seq<char>)
    requires
        "end "@.is_prefix_of(line) || "load "@.is_prefix_of(line) || "about "@.is_prefix_of(line)
            || line == "dump"@ || line == "reset"@ || line == "exit"@,
    ensures
        matched_register(line) is None,
{
    reveal_strlit("end ");
    reveal_strlit("load ");
    reveal_strlit("about ");
    reveal_strlit("dump");
    reveal_strlit("reset");
    reveal_strlit("exit");
    lemma_canonical_names();
    lemma_first_from(matching(line), 0);
    if let Some(reg) = matched_register(line) {
        let upper = leading(ascii_uppercase(line), PREFIX_LEN);
        let name = leading(reg.canonical_name(), PREFIX_LEN);
        assert(name_matches(line, reg));
        assert(upper == name);
        assert(name[0] == 'R');
        assert(upper[0] == upper_char(line[0]));
        assert(upper[1] == upper_char(line[1]));
        if "end "@.is_prefix_of(line) {
            assert(line[0] == "end "@[0]);
        } else if "load "@.is_prefix_of(line) {
            assert(line[0] == "load "@[0]);
        } else if "about "@.is_prefix_of(line) {
            assert(line[0] == "about "@[0]);
        } else if line == "reset"@ {
            assert(upper[1] == 'E');
            assert(name[1] != 'E');
        }
    }
}

} // verus!
