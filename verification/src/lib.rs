//! A notepad for the purpose of each x86-64 general-purpose register.
//!
//! While writing or debugging assembly by hand one keeps track of what each
//! register currently holds. This crate is the core of an interactive tool
//! for that: it records a free-text note against a register, shows or clears
//! it, puts whole sets of notes aside under a name and takes them back, and
//! tells the role of a register under the calling convention.
//!
//! The crate neither reads nor writes. A caller feeds input lines to a
//! [`dispatch::Dispatcher`] and writes out the [`dispatch::Reply`] to each.
//!
//! - [`text`]: trimming, prefixes and case folding over sequences of
//!   characters;
//! - [`lexical`]: the bounded dictionary comparison of two strings;
//! - [`register`]: the table of registers and the prefix matcher;
//! - [`command`]: the command grammar;
//! - [`store`]: the notes and the named scopes;
//! - [`dispatch`]: what each command does and what is said in reply.
//!
//! Every function carries a contract over mathematical values (sequences of
//! characters, maps) and is proved to meet it. The one exception is the call
//! to `str::to_ascii_uppercase` in [`text`], which is taken on trust.

pub mod command;
pub mod dispatch;
pub mod lexical;
pub mod register;
pub mod store;
pub mod text;
