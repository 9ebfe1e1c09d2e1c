//! Finding the target session and reading what the automation tools answer.
//!
//! The process table and the automation scripts are asked by the caller. What
//! they print is read here: the candidate processes in a listing, the terminal
//! device of a process, the terminal that hosts it, and the outcome of a script
//! run.
use crate::router::{DeliveryOutcome, DeliveryRouter, RouterView};
use crate::text::{
    contains, copy_text, decimal_i32, has_prefix, has_substring, join, lowercase, lowercase_of,
    parse_trimmed_i32, same_text, split, split_on, starts_with, texts, trim, trimmed,
};
use vstd::prelude::*;

verus! {

/// The number of backends that find a session by its content or its processes.
pub const ADDRESSED_BACKENDS: usize = 3;

/// The number of backends that find a session by its terminal device.
pub const DEVICE_BACKENDS: usize = 1;

/// The backends that find a session without a terminal device, in the order in
/// which they are tried.
#[derive(Debug, Clone, Copy, PartialEq, Eq, Structural)]
pub enum AddressedBackend {
    /// Looks through the sessions of iTerm2 for one whose text names the target.
    ITerm2,
    /// Looks through the tabs of Terminal.app for one that runs the target.
    TerminalApp,
    /// Raises Ghostty and types the message into its front window.
    Ghostty,
}

/// The backends that find a session by its terminal device, in the order in
/// which they are tried.
#[derive(Debug, Clone, Copy, PartialEq, Eq, Structural)]
pub enum DeviceBackend {
    /// Looks through the tabs of Terminal.app for the one that owns the device.
    TerminalApp,
}

/// The addressed backend with number `index` in the chain.
pub open spec fn addressed_backend_at(index: int) -> Option<AddressedBackend> {
    if index == 0 {
        Some(AddressedBackend::ITerm2)
    } else if index == 1 {
        Some(AddressedBackend::TerminalApp)
    } else if index == 2 {
        Some(AddressedBackend::Ghostty)
    } else {
        None
    }
}

/// The addressed backend with number `index` in the chain, if there is one.
pub fn addressed_backend(index: usize) -> (b: Option<AddressedBackend>)
    ensures
        b == addressed_backend_at(index as int),
        b is Some <==> index < ADDRESSED_BACKENDS,
{
    if index == 0 {
        Some(AddressedBackend::ITerm2)
    } else if index == 1 {
        Some(AddressedBackend::TerminalApp)
    } else if index == 2 {
        Some(AddressedBackend::Ghostty)
    } else {
        None
    }
}

/// The device backend with number `index` in the chain, if there is one.
pub fn device_backend(index: usize) -> (b: Option<DeviceBackend>)
    ensures
        b == (if index == 0 {
            Some(DeviceBackend::TerminalApp)
        } else {
            None
        }),
        b is Some <==> index < DEVICE_BACKENDS,
{
    if index == 0 {
        Some(DeviceBackend::TerminalApp)
    } else {
        None
    }
}

/// The process ids that `lines` hold, in order: of each line that, without the
/// white space around it, writes a 32-bit decimal number, that number.
pub open spec fn pids_of_lines(lines: Seq<Seq<char>>) -> Seq<i32>
    decreases lines.len(),
{
    if lines.len() == 0 {
        Seq::empty()
    } else {
        let before = pids_of_lines(lines.drop_last());
        match decimal_i32(trimmed(lines.last())) {
            Some(pid) => before.push(pid),
            None => before,
        }
    }
}

/// The process ids in a listing that holds one id to a line.
pub open spec fn pids_in(listing: Seq<char>) -> Seq<i32> {
    pids_of_lines(split_on(listing, '\n'))
}

/// The candidate processes in a listing that holds one process id to a line.
/// Lines that hold no number are passed over.
pub fn candidate_pids(listing: &str) -> (pids: Vec<i32>)
    ensures
        pids@ == pids_in(listing@),
{
    let lines = split(listing, '\n');
    let mut pids: Vec<i32> = Vec::new();
    let mut i: usize = 0;
    assert(texts(lines@).subrange(0, 0) == Seq::<Seq<char>>::empty());
    while i < lines.len()
        invariant
            i <= lines.len(),
            pids@ == pids_of_lines(texts(lines@).subrange(0, i as int)),
        decreases lines.len() - i,
    {
        let found = parse_trimmed_i32(lines[i].as_str());
        proof {
            let upto = texts(lines@).subrange(0, i + 1);
            assert(upto.drop_last() == texts(lines@).subrange(0, i as int));
            assert(upto.last() == lines@[i as int]@);
        }
        match found {
            Some(pid) => {
                pids.push(pid);
            },
            None => {},
        }
        i = i + 1;
    }
    assert(texts(lines@).subrange(0, lines@.len() as int) == texts(lines@));
    pids
}

/// The view of a string that may be absent.
pub open spec fn opt_text(s: Option<String>) -> Option<Seq<char>> {
    match s {
        Some(text) => Some(text@),
        None => None,
    }
}

/// The terminal device that the process table names for a process: the answer
/// without the white space around it, below `/dev/`. An empty answer and `??`
/// name no device.
pub open spec fn device_in(answer: Seq<char>) -> Option<Seq<char>> {
    let tty = trimmed(answer);
    if tty.len() == 0 || tty == "??"@ {
        None
    } else if has_prefix(tty, "/dev/"@) {
        Some(tty)
    } else {
        Some("/dev/"@ + tty)
    }
}

/// The terminal device in the process table's answer for one process.
pub fn terminal_device(answer: &str) -> (device: Option<String>)
    ensures
        opt_text(device) == device_in(answer@),
{
    let tty = trim(answer);
    if tty.as_str().unicode_len() == 0 || same_text(tty.as_str(), "??") {
        None
    } else if starts_with(tty.as_str(), "/dev/") {
        Some(tty)
    } else {
        Some(join("/dev/", tty.as_str()))
    }
}

/// The id of a process's parent in the process table's answer: the number that
/// the answer writes, without the white space around it.
pub fn parent_pid(answer: &str) -> (pid: Option<i32>)
    ensures
        pid == decimal_i32(trimmed(answer@)),
{
    parse_trimmed_i32(answer)
}

/// The name of a command in the process table's answer: the answer without the
/// white space around it, unless that is empty.
pub open spec fn name_in(answer: Seq<char>) -> Option<Seq<char>> {
    if trimmed(answer).len() == 0 {
        None
    } else {
        Some(trimmed(answer))
    }
}

/// The name of the terminal that hosts a process, in the process table's answer
/// for the parent's command.
pub fn terminal_name(answer: &str) -> (name: Option<String>)
    ensures
        opt_text(name) == name_in(answer@),
{
    let name = trim(answer);
    if name.as_str().unicode_len() == 0 {
        None
    } else {
        Some(name)
    }
}

/// Whether a terminal's name, already in lower case, is that of Ghostty.
pub fn mentions_ghostty(lowered: &str) -> (r: bool)
    ensures
        r == has_substring(lowered@, "ghostty"@),
{
    contains(lowered, "ghostty")
}

/// Whether a terminal's name is that of Ghostty, whatever its case.
pub fn is_ghostty(name: &str) -> (r: bool)
    ensures
        r == has_substring(lowercase_of(name@), "ghostty"@),
{
    let lowered = lowercase(name);
    mentions_ghostty(lowered.as_str())
}

/// Starts the delivery of `message` to the target session: the chain of the
/// three addressed backends and the one device backend, over the candidate
/// processes that `listing` holds, one process id to a line.
pub fn send_to_claude_code_terminal(message: &str, listing: &str) -> (router: DeliveryRouter)
    ensures
        router@ == RouterView::start(
            message@,
            ADDRESSED_BACKENDS,
            DEVICE_BACKENDS,
            pids_in(listing@),
        ),
        router@.wf(),
{
    let pids = candidate_pids(listing);
    DeliveryRouter::new(copy_text(message), ADDRESSED_BACKENDS, DEVICE_BACKENDS, pids)
}

} // verus!
