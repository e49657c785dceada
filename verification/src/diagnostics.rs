//! The texts that the emulator reports to its host.

use vstd::prelude::*;
use vstd::string::StringExecFns;
use crate::machine::Fault;

verus! {

/// The characters of each line of a log.
pub open spec fn texts(lines: Seq<String>) -> Seq<Seq<char>> {
    lines.map_values(|line: String| line@)
}

/// The character for the digit `d`, which is below 16: `0` to `9`, then `a`
/// to `f`.
pub open spec fn digit_char(d: int) -> char {
    "0123456789abcdef"@[d]
}

/// A byte in lower-case hexadecimal, without leading zero.
pub open spec fn hex(byte: u8) -> Seq<char> {
    if byte < 16 {
        seq![digit_char(byte as int)]
    } else {
        seq![digit_char(byte as int / 16), digit_char(byte as int % 16)]
    }
}

/// A number in decimal, without leading zeros.
pub open spec fn decimal(n: nat) -> Seq<char>
    decreases n,
{
    if n < 10 {
        seq![digit_char(n as int)]
    } else {
        decimal(n / 10).push(digit_char(n as int % 10))
    }
}

/// Reported when a return finds the call stack empty.
pub open spec fn empty_stack_text() -> Seq<char> {
    "Warning: attempted to return while stack is empty."@
}

/// Reported when the bytes `first`, `second` encode no instruction.
pub open spec fn unknown_instruction_text(first: u8, second: u8) -> Seq<char> {
    "Unknown instruction "@ + hex(first) + hex(second) + "; skipping"@
}

/// Reported when a program image has been loaded from `name`.
pub open spec fn loaded_text(name: Seq<char>) -> Seq<char> {
    "ROM loaded: "@ + name
}

/// Reported when a program image of `len` bytes ends in half an instruction.
pub open spec fn odd_size_text(len: nat) -> Seq<char> {
    "Warning: ROM size "@ + decimal(len) + " is odd. This may cause undefined behaviors."@
}

/// Why an image that does not fit into memory is refused.
pub open spec fn too_big_text() -> Seq<char> {
    "ROM size too big"@
}

/// Reported when the program image from `name` is refused.
pub open spec fn load_failed_text(name: Seq<char>) -> Seq<char> {
    "Error when loading "@ + name + ": "@ + too_big_text()
}

/// Reported when the host's file dialog was closed without a choice.
pub open spec fn dialog_closed_text() -> Seq<char> {
    "Dialog closed"@
}

/// Reported when an instruction cycle is refused with `fault`.
pub open spec fn fault_text(fault: Fault) -> Seq<char> {
    match fault {
        Fault::Fetch => "Error: program counter out of bounds; emulation halted"@,
        Fault::Memory => "Error: memory access out of bounds; emulation halted"@,
    }
}

/// The log `after` is the log `before` with lines of the texts `added` behind it.
pub open spec fn appended(before: Seq<String>, after: Seq<String>, added: Seq<Seq<char>>) -> bool {
    &&& after.len() == before.len() + added.len()
    &&& after.take(before.len() as int) == before
    &&& texts(after.skip(before.len() as int)) == added
}

/// Pushing one line appends its text.
pub proof fn lemma_appended_one(before: Seq<String>, line: String)
    ensures
        appended(before, before.push(line), seq![line@]),
{
    let after = before.push(line);
    assert(after.take(before.len() as int) =~= before);
    assert(texts(after.skip(before.len() as int)) =~= seq![line@]);
}

/// An unchanged log has nothing appended.
pub proof fn lemma_appended_none(before: Seq<String>)
    ensures
        appended(before, before, Seq::empty()),
{
    assert(before.take(before.len() as int) =~= before);
    assert(texts(before.skip(before.len() as int)) =~= Seq::<Seq<char>>::empty());
}

/// The digit `d` as a string slice.
fn digit_str(d: u8) -> (s: &'static str)
    requires
        d < 16,
    ensures
        s@ == seq![digit_char(d as int)],
{
    proof {
        reveal_strlit("0123456789abcdef");
        reveal_strlit("0");
        reveal_strlit("1");
        reveal_strlit("2");
        reveal_strlit("3");
        reveal_strlit("4");
        reveal_strlit("5");
        reveal_strlit("6");
        reveal_strlit("7");
        reveal_strlit("8");
        reveal_strlit("9");
        reveal_strlit("a");
        reveal_strlit("b");
        reveal_strlit("c");
        reveal_strlit("d");
        reveal_strlit("e");
        reveal_strlit("f");
    }
    let s = match d {
        0 => "0",
        1 => "1",
        2 => "2",
        3 => "3",
        4 => "4",
        5 => "5",
        6 => "6",
        7 => "7",
        8 => "8",
        9 => "9",
        10 => "a",
        11 => "b",
        12 => "c",
        13 => "d",
        14 => "e",
        _ => "f",
    };
    assert(s@ =~= seq![digit_char(d as int)]);
    s
}

/// Appends a byte in hexadecimal.
fn push_hex(text: &mut String, byte: u8)
    ensures
        final(text)@ == old(text)@ + hex(byte),
{
    if byte >= 16 {
        text.append(digit_str(byte / 16));
    }
    text.append(digit_str(byte % 16));
    assert(text@ =~= old(text)@ + hex(byte));
}

/// Appends a number in decimal.
fn push_decimal(text: &mut String, n: usize)
    ensures
        final(text)@ == old(text)@ + decimal(n as nat),
    decreases n,
{
    if n >= 10 {
        push_decimal(text, n / 10);
    }
    text.append(digit_str((n % 10) as u8));
    assert(text@ =~= old(text)@ + decimal(n as nat));
}

/// The warning for a return with an empty call stack.
pub fn empty_stack_message() -> (message: String)
    ensures
        message@ == empty_stack_text(),
{
    String::from_str("Warning: attempted to return while stack is empty.")
}

/// The warning for bytes that encode no instruction.
pub fn unknown_instruction_message(first: u8, second: u8) -> (message: String)
    ensures
        message@ == unknown_instruction_text(first, second),
{
    let mut message = String::from_str("Unknown instruction ");
    push_hex(&mut message, first);
    push_hex(&mut message, second);
    message.append("; skipping");
    assert(message@ =~= unknown_instruction_text(first, second));
    message
}

/// The note that a program image was loaded from `name`.
pub fn loaded_message(name: &str) -> (message: String)
    ensures
        message@ == loaded_text(name@),
{
    let mut message = String::from_str("ROM loaded: ");
    message.append(name);
    message
}

/// The advisory for a program image with an odd number of bytes.
pub fn odd_size_message(len: usize) -> (message: String)
    ensures
        message@ == odd_size_text(len as nat),
{
    let mut message = String::from_str("Warning: ROM size ");
    push_decimal(&mut message, len);
    message.append(" is odd. This may cause undefined behaviors.");
    message
}

/// Why a program image that does not fit into memory is refused.
pub fn too_big_message() -> (message: String)
    ensures
        message@ == too_big_text(),
{
    String::from_str("ROM size too big")
}

/// The error for a program image from `name` that does not fit into memory.
pub fn load_failed_message(name: &str) -> (message: String)
    ensures
        message@ == load_failed_text(name@),
{
    let mut message = String::from_str("Error when loading ");
    message.append(name);
    message.append(": ");
    message.append(too_big_message().as_str());
    assert(message@ =~= load_failed_text(name@));
    message
}

/// The note that the file dialog was closed without a choice.
pub fn dialog_closed_message() -> (message: String)
    ensures
        message@ == dialog_closed_text(),
{
    String::from_str("Dialog closed")
}

/// The error for an instruction cycle that was refused with `fault`.
pub fn fault_message(fault: Fault) -> (message: String)
    ensures
        message@ == fault_text(fault),
{
    match fault {
        Fault::Fetch => String::from_str("Error: program counter out of bounds; emulation halted"),
        Fault::Memory => String::from_str("Error: memory access out of bounds; emulation halted"),
    }
}

} // verus!
