use regnotes::command::{Action, Command};
use regnotes::dispatch::{display_info, Dispatcher, Reply};
use regnotes::register::Register;

fn said(lines: &[&str]) -> Reply {
    Reply::Output(lines.iter().map(|line| line.to_string()).collect())
}

fn complained(line: &str) -> Reply {
    Reply::Error(line.to_string())
}

#[test]
fn query_of_an_unused_register() {
    let mut d = Dispatcher::new();
    assert_eq!(d.execute("RAX"), said(&["RAX is unused"]));
    assert_eq!(d.execute("r8"), said(&["R8 is unused"]));
    assert_eq!(d.execute("r15"), said(&["R15 is unused"]));
}

#[test]
fn first_note_on_a_register() {
    let mut d = Dispatcher::new();
    assert_eq!(d.execute("rdi argument 1"), said(&["RDI : argument 1"]));
    assert_eq!(d.execute("RDI"), said(&["RDI : argument 1"]));
}

#[test]
fn a_changed_note_shows_old_and_new() {
    let mut d = Dispatcher::new();
    assert_eq!(d.execute("RAX one"), said(&["RAX : one"]));
    assert_eq!(d.execute("RAX two"), said(&["RAX : one -> two"]));
    assert_eq!(d.execute("RAX two"), said(&["RAX : two -> two"]));
    assert_eq!(d.execute("RAX"), said(&["RAX : two"]));
}

#[test]
fn the_note_is_the_trimmed_text() {
    let mut d = Dispatcher::new();
    assert_eq!(d.execute("  RAX    spaced  out   \n"), said(&["RAX : spaced  out"]));
    assert_eq!(d.execute("RAX"), said(&["RAX : spaced  out"]));
    assert_eq!(d.store().query(Register::Rax), Some("spaced  out"));
}

#[test]
fn clear_reports_unused_either_way() {
    let mut d = Dispatcher::new();
    assert_eq!(d.execute("RBX clear"), said(&["RBX is unused"]));
    assert_eq!(d.execute("RBX x"), said(&["RBX : x"]));
    assert_eq!(d.execute("RBX clear"), said(&["RBX is unused"]));
    assert_eq!(d.execute("RBX"), said(&["RBX is unused"]));
}

#[test]
fn lines_are_trimmed_before_they_are_read() {
    let mut d = Dispatcher::new();
    assert_eq!(d.execute("   dump\n"), said(&[]));
    assert_eq!(d.execute("\treset\r\n"), said(&["cleared all saved scopes and registers"]));
    assert_eq!(d.execute("  exit  "), Reply::Exit);
    assert_eq!(d.execute(" foobar \n"), complained("Error: unknown command `foobar`"));
}

#[test]
fn save_and_load_say_nothing() {
    let mut d = Dispatcher::new();
    d.execute("RAX a");
    assert_eq!(d.execute("end main"), said(&[]));
    assert_eq!(d.execute("load main"), said(&[]));
    assert_eq!(d.execute("RAX"), said(&["RAX : a"]));
}

#[test]
fn load_of_a_missing_scope_complains_and_changes_nothing() {
    let mut d = Dispatcher::new();
    d.execute("RAX a");
    assert_eq!(d.execute("load main"), complained("Error: no such scope"));
    assert_eq!(d.execute("RAX"), said(&["RAX : a"]));
}

#[test]
fn scope_names_keep_their_inner_whitespace() {
    let mut d = Dispatcher::new();
    d.execute("RAX a");
    assert_eq!(d.execute("end  main"), said(&[]));
    assert_eq!(d.execute("load main"), complained("Error: no such scope"));
    assert_eq!(d.execute("load  main"), said(&[]));
    assert_eq!(d.execute("RAX"), said(&["RAX : a"]));
}

#[test]
fn about_every_register() {
    let mut d = Dispatcher::new();
    assert_eq!(d.execute("about rax"), said(&["RAX : caller-saved, return value"]));
    assert_eq!(
        d.execute("about rcx"),
        said(&["RCX : caller-saved, argument 4, syscall return address"])
    );
    assert_eq!(d.execute("about rdx"), said(&["RDX : caller-saved, argument 3"]));
    assert_eq!(d.execute("about rsi"), said(&["RSI : caller-saved, argument 2"]));
    assert_eq!(d.execute("about rdi"), said(&["RDI : caller-saved, argument 1"]));
    assert_eq!(d.execute("about rbx"), said(&["RBX : callee-saved"]));
    assert_eq!(d.execute("about rbp"), said(&["RBP : frame pointer"]));
    assert_eq!(d.execute("about rsp"), said(&["RSP : stack pointer"]));
    assert_eq!(d.execute("about r8"), said(&["R8 : caller-saved, argument 5"]));
    assert_eq!(d.execute("about r9"), said(&["R9 : caller-saved, argument 6"]));
    assert_eq!(d.execute("about r10"), said(&["R10 : caller-saved, argument 7"]));
    assert_eq!(d.execute("about r11"), said(&["R11 : caller-saved, argument 8, syscall rflags"]));
    assert_eq!(d.execute("about r12"), said(&["R12 : callee-saved"]));
    assert_eq!(d.execute("about r13"), said(&["R13 : callee-saved"]));
    assert_eq!(d.execute("about r14"), said(&["R14 : callee-saved"]));
    assert_eq!(d.execute("about R15"), said(&["R15 : callee-saved"]));
}

#[test]
fn about_something_else_complains() {
    let mut d = Dispatcher::new();
    assert_eq!(d.execute("about zzz"), complained("Error: no such register: `ZZZ`"));
    assert_eq!(d.execute("about raxx"), complained("Error: no such register: `RAXX`"));
    assert_eq!(d.execute("about  rax"), complained("Error: no such register: ` RAX`"));
    assert_eq!(d.execute("about r"), complained("Error: no such register: `R`"));
}

#[test]
fn display_info_wants_the_canonical_name() {
    assert_eq!(display_info("RSP"), said(&["RSP : stack pointer"]));
    assert_eq!(display_info("RBP"), said(&["RBP : frame pointer"]));
    assert_eq!(display_info("rsp"), complained("Error: no such register: `rsp`"));
    assert_eq!(display_info(""), complained("Error: no such register: ``"));
    assert_eq!(display_info("RSP "), complained("Error: no such register: `RSP `"));
}

#[test]
fn dump_shows_one_line_per_note() {
    let mut d = Dispatcher::new();
    assert_eq!(d.execute("dump"), said(&[]));
    d.execute("r12 twelve");
    d.execute("rax zero");
    d.execute("rsp seven");
    assert_eq!(d.execute("dump"), said(&["RAX : zero", "RSP : seven", "R12 : twelve"]));
    d.execute("rsp clear");
    assert_eq!(d.execute("dump"), said(&["RAX : zero", "R12 : twelve"]));
}

#[test]
fn reset_confirms_and_forgets() {
    let mut d = Dispatcher::new();
    d.execute("RAX a");
    d.execute("end main");
    d.execute("RBX b");
    assert_eq!(d.execute("reset"), said(&["cleared all saved scopes and registers"]));
    assert_eq!(d.execute("RBX"), said(&["RBX is unused"]));
    assert_eq!(d.execute("load main"), complained("Error: no such scope"));
    assert_eq!(d.execute("dump"), said(&[]));
}

#[test]
fn exit_asks_to_leave_and_changes_nothing() {
    let mut d = Dispatcher::new();
    d.execute("RAX a");
    assert_eq!(d.execute("exit"), Reply::Exit);
    assert_eq!(d.store().query(Register::Rax), Some("a"));
}

#[test]
fn unknown_lines_complain_and_change_nothing() {
    let mut d = Dispatcher::new();
    d.execute("RAX a");
    assert_eq!(d.execute("foobar"), complained("Error: unknown command `foobar`"));
    assert_eq!(d.execute(""), complained("Error: unknown command ``"));
    assert_eq!(d.execute("   "), complained("Error: unknown command ``"));
    assert_eq!(d.execute("R8 x"), complained("Error: unknown command `R8 x`"));
    assert_eq!(d.execute("end"), complained("Error: unknown command `end`"));
    assert_eq!(d.execute("end "), complained("Error: unknown command `end`"));
    assert_eq!(d.execute("dump"), said(&["RAX : a"]));
}

#[test]
fn apply_takes_a_command_as_a_value() {
    let mut d = Dispatcher::new();
    let set = Command::Register { reg: Register::Rdx, action: Action::Assign("third".to_string()) };
    assert_eq!(d.apply(set), said(&["RDX : third"]));
    let query = Command::Register { reg: Register::Rdx, action: Action::Query };
    assert_eq!(d.apply(query), said(&["RDX : third"]));
    assert_eq!(d.apply(Command::SaveScope("s".to_string())), said(&[]));
    assert_eq!(d.apply(Command::LoadScope("t".to_string())), complained("Error: no such scope"));
    assert_eq!(d.apply(Command::LoadScope("s".to_string())), said(&[]));
    let clear = Command::Register { reg: Register::Rdx, action: Action::Clear };
    assert_eq!(d.apply(clear), said(&["RDX is unused"]));
    assert_eq!(d.apply(Command::Info("R9".to_string())), said(&["R9 : caller-saved, argument 6"]));
    assert_eq!(d.apply(Command::Info("r9".to_string())), complained("Error: no such register: `r9`"));
    assert_eq!(d.apply(Command::Dump), said(&[]));
    assert_eq!(d.apply(Command::Reset), said(&["cleared all saved scopes and registers"]));
    assert_eq!(d.apply(Command::Exit), Reply::Exit);
    assert_eq!(
        d.apply(Command::Unknown("what".to_string())),
        complained("Error: unknown command `what`")
    );
}
