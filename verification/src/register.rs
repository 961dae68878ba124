//! The table of x86-64 general-purpose registers: their canonical names, their
//! roles under the calling convention, and the prefix matcher that recognises
//! a register at the start of an input line.
//!
//! The prefix matcher always works on three characters: it compares the first
//! three characters of the line, upper-cased, with the first three characters
//! of each name, and on a match it consumes three characters of the line. A
//! name of two characters (`R8`, `R9`) is therefore matched only by a line of
//! just those two characters, which leaves nothing behind it; `R8 x` names no
//! register.

use std::cmp::Ordering;
use vstd::prelude::*;
use crate::lexical::{leading, lemma_lex_order_equal, strncmp};
use crate::text::{ascii_uppercase, same_text, to_ascii_uppercase};

verus! {

/// How many registers the table holds.
pub const REGISTER_COUNT: usize = 16;

/// How many leading characters of a line the prefix matcher looks at, and how
/// many it consumes on a match.
pub const PREFIX_LEN: usize = 3;

/// A general-purpose register. The variants are in table order.
#[derive(Clone, Copy, PartialEq, Eq, Debug, Structural)]
pub enum Register {
    Rax,
    Rcx,
    Rdx,
    Rsi,
    Rdi,
    Rbx,
    Rbp,
    Rsp,
    R8,
    R9,
    R10,
    R11,
    R12,
    R13,
    R14,
    R15,
}

impl Register {
    /// The register at position `i` of the table.
    pub open spec fn at(i: int) -> Register {
        if i == 0 {
            Register::Rax
        } else if i == 1 {
            Register::Rcx
        } else if i == 2 {
            Register::Rdx
        } else if i == 3 {
            Register::Rsi
        } else if i == 4 {
            Register::Rdi
        } else if i == 5 {
            Register::Rbx
        } else if i == 6 {
            Register::Rbp
        } else if i == 7 {
            Register::Rsp
        } else if i == 8 {
            Register::R8
        } else if i == 9 {
            Register::R9
        } else if i == 10 {
            Register::R10
        } else if i == 11 {
            Register::R11
        } else if i == 12 {
            Register::R12
        } else if i == 13 {
            Register::R13
        } else if i == 14 {
            Register::R14
        } else {
            Register::R15
        }
    }

    /// The position of this register in the table.
    pub open spec fn position(self) -> int {
        match self {
            Register::Rax => 0,
            Register::Rcx => 1,
            Register::Rdx => 2,
            Register::Rsi => 3,
            Register::Rdi => 4,
            Register::Rbx => 5,
            Register::Rbp => 6,
            Register::Rsp => 7,
            Register::R8 => 8,
            Register::R9 => 9,
            Register::R10 => 10,
            Register::R11 => 11,
            Register::R12 => 12,
            Register::R13 => 13,
            Register::R14 => 14,
            Register::R15 => 15,
        }
    }

    /// The canonical, upper-case spelling of this register.
    pub open spec fn canonical_name(self) -> Seq<char> {
        match self {
            Register::Rax => "RAX"@,
            Register::Rcx => "RCX"@,
            Register::Rdx => "RDX"@,
            Register::Rsi => "RSI"@,
            Register::Rdi => "RDI"@,
            Register::Rbx => "RBX"@,
            Register::Rbp => "RBP"@,
            Register::Rsp => "RSP"@,
            Register::R8 => "R8"@,
            Register::R9 => "R9"@,
            Register::R10 => "R10"@,
            Register::R11 => "R11"@,
            Register::R12 => "R12"@,
            Register::R13 => "R13"@,
            Register::R14 => "R14"@,
            Register::R15 => "R15"@,
        }
    }

    /// The role of this register under the System V calling convention.
    pub open spec fn role(self) -> Seq<char> {
        match self {
            Register::Rax => "caller-saved, return value"@,
            Register::Rcx => "caller-saved, argument 4, syscall return address"@,
            Register::Rdx => "caller-saved, argument 3"@,
            Register::Rsi => "caller-saved, argument 2"@,
            Register::Rdi => "caller-saved, argument 1"@,
            Register::Rbx => "callee-saved"@,
            Register::Rbp => "frame pointer"@,
            Register::Rsp => "stack pointer"@,
            Register::R8 => "caller-saved, argument 5"@,
            Register::R9 => "caller-saved, argument 6"@,
            Register::R10 => "caller-saved, argument 7"@,
            Register::R11 => "caller-saved, argument 8, syscall rflags"@,
            Register::R12 => "callee-saved"@,
            Register::R13 => "callee-saved"@,
            Register::R14 => "callee-saved"@,
            Register::R15 => "callee-saved"@,
        }
    }

    /// The position of this register in the table.
    pub fn index(self) -> (i: usize)
        ensures
            i == self.position(),
            i < REGISTER_COUNT,
    {
        match self {
            Register::Rax => 0,
            Register::Rcx => 1,
            Register::Rdx => 2,
            Register::Rsi => 3,
            Register::Rdi => 4,
            Register::Rbx => 5,
            Register::Rbp => 6,
            Register::Rsp => 7,
            Register::R8 => 8,
            Register::R9 => 9,
            Register::R10 => 10,
            Register::R11 => 11,
            Register::R12 => 12,
            Register::R13 => 13,
            Register::R14 => 14,
            Register::R15 => 15,
        }
    }

    /// The register at position `i` of the table, if there is one.
    pub fn from_index(i: usize) -> (r: Option<Register>)
        ensures
            r == (if i < REGISTER_COUNT {
                Some(Register::at(i as int))
            } else {
                None
            }),
    {
        match i {
            0 => Some(Register::Rax),
            1 => Some(Register::Rcx),
            2 => Some(Register::Rdx),
            3 => Some(Register::Rsi),
            4 => Some(Register::Rdi),
            5 => Some(Register::Rbx),
            6 => Some(Register::Rbp),
            7 => Some(Register::Rsp),
            8 => Some(Register::R8),
            9 => Some(Register::R9),
            10 => Some(Register::R10),
            11 => Some(Register::R11),
            12 => Some(Register::R12),
            13 => Some(Register::R13),
            14 => Some(Register::R14),
            15 => Some(Register::R15),
            _ => None,
        }
    }

    /// The canonical, upper-case spelling of this register.
    pub fn name(self) -> (s: &'static str)
        ensures
            s@ == self.canonical_name(),
    {
        match self {
            Register::Rax => "RAX",
            Register::Rcx => "RCX",
            Register::Rdx => "RDX",
            Register::Rsi => "RSI",
            Register::Rdi => "RDI",
            Register::Rbx => "RBX",
            Register::Rbp => "RBP",
            Register::Rsp => "RSP",
            Register::R8 => "R8",
            Register::R9 => "R9",
            Register::R10 => "R10",
            Register::R11 => "R11",
            Register::R12 => "R12",
            Register::R13 => "R13",
            Register::R14 => "R14",
            Register::R15 => "R15",
        }
    }

    /// The role of this register under the System V calling convention.
    pub fn info(self) -> (s: &'static str)
        ensures
            s@ == self.role(),
    {
        match self {
            Register::Rax => "caller-saved, return value",
            Register::Rcx => "caller-saved, argument 4, syscall return address",
            Register::Rdx => "caller-saved, argument 3",
            Register::Rsi => "caller-saved, argument 2",
            Register::Rdi => "caller-saved, argument 1",
            Register::Rbx => "callee-saved",
            Register::Rbp => "frame pointer",
            Register::Rsp => "stack pointer",
            Register::R8 => "caller-saved, argument 5",
            Register::R9 => "caller-saved, argument 6",
            Register::R10 => "caller-saved, argument 7",
            Register::R11 => "caller-saved, argument 8, syscall rflags",
            Register::R12 => "callee-saved",
            Register::R13 => "callee-saved",
            Register::R14 => "callee-saved",
            Register::R15 => "callee-saved",
        }
    }

    /// The register whose canonical name is exactly `name`. The match is
    /// case-sensitive and takes the whole of `name`.
    pub fn from_name(name: &str) -> (r: Option<Register>)
        ensures
            r == register_named(name@),
    {
        let ghost wanted = spelled(name@);
        let mut i: usize = 0;
        while i < REGISTER_COUNT
            invariant
                i <= REGISTER_COUNT,
                wanted == spelled(name@),
                first_from(wanted, 0) == first_from(wanted, i as int),
            decreases REGISTER_COUNT - i,
        {
            let reg = Register::from_index(i).unwrap();
            if same_text(name, reg.name()) {
                assert(wanted(reg));
                return Some(reg);
            }
            assert(!wanted(reg));
            i += 1;
        }
        None
    }
}

/// The first register at table position `from` or later that `wanted`
/// accepts.
pub open spec fn first_from(wanted: spec_fn(Register) -> bool, from: int) -> Option<Register>
    decreases REGISTER_COUNT - from,
{
    if from < 0 || from >= REGISTER_COUNT {
        None
    } else if wanted(Register::at(from)) {
        Some(Register::at(from))
    } else {
        first_from(wanted, from + 1)
    }
}

/// Whether the first three characters of `input`, upper-cased, are the first
/// three characters of the canonical name of `reg`. A side with fewer than
/// three characters takes part with all of them.
pub open spec fn name_matches(input: Seq<char>, reg: Register) -> bool {
    leading(ascii_uppercase(input), PREFIX_LEN) == leading(reg.canonical_name(), PREFIX_LEN)
}

/// The registers whose names match the start of `input`.
pub open spec fn matching(input: Seq<char>) -> spec_fn(Register) -> bool {
    |reg: Register| name_matches(input, reg)
}

/// The registers whose canonical name is exactly `name`.
pub open spec fn spelled(name: Seq<char>) -> spec_fn(Register) -> bool {
    |reg: Register| reg.canonical_name() == name
}

/// The register that the start of `input` names: the first one, in table
/// order, for which [`name_matches`] holds.
pub open spec fn matched_register(input: Seq<char>) -> Option<Register> {
    first_from(matching(input), 0)
}

/// What follows the three characters that a register match consumes. An
/// input of fewer than three characters leaves nothing.
pub open spec fn remainder(input: Seq<char>) -> Seq<char> {
    if input.len() >= PREFIX_LEN {
        input.skip(PREFIX_LEN as int)
    } else {
        Seq::empty()
    }
}

/// The register whose canonical name is exactly `name`, case and all.
pub open spec fn register_named(name: Seq<char>) -> Option<Register> {
    first_from(spelled(name), 0)
}

/// Looks for a register at the start of `input`.
///
/// The first three characters of `input`, upper-cased, are compared with the
/// first three characters of each canonical name, in table order; the first
/// register for which they agree is returned, together with what follows
/// those three characters in `input`, its case untouched.
pub fn match_register<'a>(input: &'a str) -> (r: Option<(Register, &'a str)>)
    ensures
        match r {
            Some((reg, rest)) => matched_register(input@) == Some(reg) && rest@ == remainder(
                input@,
            ),
            None => matched_register(input@) is None,
        },
{
    let upper = to_ascii_uppercase(input);
    let ghost wanted = matching(input@);
    let ghost mut k: int = 0;
    let mut i: usize = 0;
    while i < REGISTER_COUNT
        invariant
            k == i,
            i <= REGISTER_COUNT,
            upper@ == ascii_uppercase(input@),
            wanted == matching(input@),
            first_from(wanted, 0) == first_from(wanted, k),
        decreases REGISTER_COUNT - i,
    {
        let reg = Register::from_index(i).unwrap();
        proof {
            lemma_lex_order_equal(
                leading(upper@, PREFIX_LEN),
                leading(reg.canonical_name(), PREFIX_LEN),
            );
        }
        match strncmp(upper.as_str(), reg.name(), PREFIX_LEN) {
            Ordering::Equal => {
                assert(wanted(reg));
                let len = input.unicode_len();
                if len >= PREFIX_LEN {
                    return Some((reg, input.substring_char(PREFIX_LEN, len)));
                } else {
                    proof {
                        reveal_strlit("");
                    }
                    return Some((reg, ""));
                }
            },
            _ => {
                assert(!wanted(reg));
            },
        }
        i += 1;
        proof {
            k = k + 1;
        }
    }
    None
}

/// Makes the characters of the sixteen canonical names known.
pub proof fn lemma_canonical_names()
    ensures
        Register::Rax.canonical_name() == seq!['R', 'A', 'X'],
        Register::Rcx.canonical_name() == seq!['R', 'C', 'X'],
        Register::Rdx.canonical_name() == seq!['R', 'D', 'X'],
        Register::Rsi.canonical_name() == seq!['R', 'S', 'I'],
        Register::Rdi.canonical_name() == seq!['R', 'D', 'I'],
        Register::Rbx.canonical_name() == seq!['R', 'B', 'X'],
        Register::Rbp.canonical_name() == seq!['R', 'B', 'P'],
        Register::Rsp.canonical_name() == seq!['R', 'S', 'P'],
        Register::R8.canonical_name() == seq!['R', '8'],
        Register::R9.canonical_name() == seq!['R', '9'],
        Register::R10.canonical_name() == seq!['R', '1', '0'],
        Register::R11.canonical_name() == seq!['R', '1', '1'],
        Register::R12.canonical_name() == seq!['R', '1', '2'],
        Register::R13.canonical_name() == seq!['R', '1', '3'],
        Register::R14.canonical_name() == seq!['R', '1', '4'],
        Register::R15.canonical_name() == seq!['R', '1', '5'],
{
    reveal_strlit("RAX");
    reveal_strlit("RCX");
    reveal_strlit("RDX");
    reveal_strlit("RSI");
    reveal_strlit("RDI");
    reveal_strlit("RBX");
    reveal_strlit("RBP");
    reveal_strlit("RSP");
    reveal_strlit("R8");
    reveal_strlit("R9");
    reveal_strlit("R10");
    reveal_strlit("R11");
    reveal_strlit("R12");
    reveal_strlit("R13");
    reveal_strlit("R14");
    reveal_strlit("R15");
    assert("RAX"@ =~= seq!['R', 'A', 'X']);
    assert("RCX"@ =~= seq!['R', 'C', 'X']);
    assert("RDX"@ =~= seq!['R', 'D', 'X']);
    assert("RSI"@ =~= seq!['R', 'S', 'I']);
    assert("RDI"@ =~= seq!['R', 'D', 'I']);
    assert("RBX"@ =~= seq!['R', 'B', 'X']);
    assert("RBP"@ =~= seq!['R', 'B', 'P']);
    assert("RSP"@ =~= seq!['R', 'S', 'P']);
    assert("R8"@ =~= seq!['R', '8']);
    assert("R9"@ =~= seq!['R', '9']);
    assert("R10"@ =~= seq!['R', '1', '0']);
    assert("R11"@ =~= seq!['R', '1', '1']);
    assert("R12"@ =~= seq!['R', '1', '2']);
    assert("R13"@ =~= seq!['R', '1', '3']);
    assert("R14"@ =~= seq!['R', '1', '4']);
    assert("R15"@ =~= seq!['R', '1', '5']);
}

/// The table lists every register once, at its own position.
pub proof fn lemma_table(reg: Register)
    ensures
        0 <= reg.position() < REGISTER_COUNT,
        Register::at(reg.position()) == reg,
{
}

/// What [`first_from`] finds is accepted and comes before every other
/// accepted register from `from` on; it finds nothing only when nothing from
/// `from` on is accepted.
pub proof fn lemma_first_from(wanted: spec_fn(Register) -> bool, from: int)
    requires
        0 <= from <= REGISTER_COUNT,
    ensures
        match first_from(wanted, from) {
            Some(reg) => {
                &&& wanted(reg)
                &&& from <= reg.position()
                &&& forall|j: int| from <= j < reg.position() ==> !wanted(#[trigger] Register::at(j))
            },
            None => forall|j: int|
                from <= j < REGISTER_COUNT ==> !wanted(#[trigger] Register::at(j)),
        },
    decreases REGISTER_COUNT - from,
{
    if from < REGISTER_COUNT && !wanted(Register::at(from)) {
        lemma_first_from(wanted, from + 1);
    }
}

/// No canonical name is longer than what the prefix matcher compares, so the
/// matcher compares the whole of it.
pub proof fn lemma_name_fits_prefix(reg: Register)
    ensures
        leading(reg.canonical_name(), PREFIX_LEN) == reg.canonical_name(),
{
    lemma_canonical_names();
}

/// No two registers share a canonical name.
pub proof fn lemma_names_distinct(a: Register, b: Register)
    ensures
        a.canonical_name() == b.canonical_name() ==> a == b,
{
    lemma_canonical_names();
    if a.canonical_name() == b.canonical_name() {
        let x = a.canonical_name();
        let y = b.canonical_name();
        assert(x.len() == y.len());
        assert(x[1] == y[1]);
        if x.len() == 3 {
            assert(x[2] == y[2]);
        }
    }
}

/// At most one register matches the start of a given input, so the order of
/// the table never decides a match.
pub proof fn lemma_match_unique(input: Seq<char>, a: Register, b: Register)
    requires
        name_matches(input, a),
        name_matches(input, b),
    ensures
        a == b,
{
    lemma_name_fits_prefix(a);
    lemma_name_fits_prefix(b);
    lemma_names_distinct(a, b);
}

/// The prefix matcher finds `reg` exactly when the start of `input` matches
/// the name of `reg`.
pub proof fn lemma_matched_register(input: Seq<char>, reg: Register)
    ensures
        matched_register(input) == Some(reg) <==> name_matches(input, reg),
{
    lemma_first_from(matching(input), 0);
    lemma_table(reg);
    match matched_register(input) {
        Some(found) => {
            if name_matches(input, reg) {
                lemma_match_unique(input, found, reg);
            }
        },
        None => {
            assert(!matching(input)(Register::at(reg.position())));
        },
    }
}

/// The exact-name lookup finds `reg` exactly when `name` is its canonical
/// name.
pub proof fn lemma_register_named(name: Seq<char>, reg: Register)
    ensures
        register_named(name) == Some(reg) <==> reg.canonical_name() == name,
{
    lemma_first_from(spelled(name), 0);
    lemma_table(reg);
    match register_named(name) {
        Some(found) => {
            if reg.canonical_name() == name {
                lemma_names_distinct(found, reg);
            }
        },
        None => {
            assert(!spelled(name)(Register::at(reg.position())));
        },
    }
}

/// Every canonical register name, in any mix of upper and lower case, is
/// recognised by the prefix matcher as that register, and nothing is left
/// over after it.
pub proof fn lemma_canonical_spelling_is_matched(input: Seq<char>, reg: Register)
    requires
        ascii_uppercase(input) == reg.canonical_name(),
    ensures
        matched_register(input) == Some(reg),
        remainder(input) == Seq::<char>::empty(),
{
    lemma_canonical_names();
    lemma_matched_register(input, reg);
    assert(input.len() == ascii_uppercase(input).len());
    assert(remainder(input) =~= Seq::<char>::empty());
}

} // verus!
