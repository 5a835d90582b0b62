//! Finding and ending the processes that hold a tool's port.

use crate::text::{
    after_token, all_digits, chars_of, decimal, digits_value, find_line_end, line_end,
    matches_at, next_token, parse_digits, push_decimal, slice_chars, starts_with, token,
    trim_start,
};
use vstd::prelude::*;
use vstd::string::StringExecFns;

verus! {

/// The digits of a number's text: the text without a leading `+`.
pub open spec fn unsigned(t: Seq<char>) -> Seq<char> {
    if t.len() > 0 && t[0] == '+' {
        t.drop_first()
    } else {
        t
    }
}

/// The process that a text names: a decimal number greater than 1 (what is
/// lower belongs to the system) that fits into 32 bits with a sign.
pub open spec fn pid_of(t: Seq<char>) -> Option<i32> {
    let d = unsigned(t);
    if all_digits(d) && 1 < digits_value(d) <= i32::MAX {
        Some(digits_value(d) as i32)
    } else {
        None
    }
}

/// The process that one line of a listing of a port's holders names: the
/// second word of a line whose first word, the command, begins with `ovsy-`.
pub open spec fn listener_of(line: Seq<char>) -> Option<i32> {
    let first = trim_start(line);
    if starts_with(token(first), "ovsy-"@) {
        pid_of(token(trim_start(after_token(first))))
    } else {
        None
    }
}

/// The processes that the lines of a text name, in order.
pub open spec fn pids_in(s: Seq<char>) -> Seq<i32>
    decreases s.len(),
{
    if s.len() == 0 {
        Seq::empty()
    } else {
        let e = line_end(s);
        let rest = if 0 <= e < s.len() {
            s.skip(e + 1)
        } else {
            Seq::empty()
        };
        let found = match listener_of(s.take(e)) {
            Some(p) => seq![p],
            None => Seq::empty(),
        };
        found + pids_in(rest)
    }
}

/// The processes to end, by the listing of a port's holders: its first line
/// is a heading, every other line stands for one holder.
pub open spec fn listeners_of(output: Seq<char>) -> Seq<i32> {
    let e = line_end(output);
    if 0 <= e < output.len() {
        pids_in(output.skip(e + 1))
    } else {
        Seq::empty()
    }
}

/// Reads a text as the number of a process.
fn parse_pid(t: &[char]) -> (r: Option<i32>)
    ensures
        r == pid_of(t@),
{
    let from: usize = if t.len() > 0 && t[0] == '+' {
        1
    } else {
        0
    };
    let digits = slice_chars(t, from, t.len());
    proof {
        if from == 1 {
            assert(t@.subrange(1, t.len() as int) == t@.drop_first());
        } else {
            assert(t@.subrange(0, t.len() as int) == t@);
        }
    }
    match parse_digits(digits.as_slice(), 0x7fff_ffff) {
        Some(n) => if n > 1 {
            Some(n as i32)
        } else {
            None
        },
        None => None,
    }
}

/// Reads one line of a listing of a port's holders.
fn listener(line: &[char]) -> (r: Option<i32>)
    ensures
        r == listener_of(line@),
{
    proof {
        assert(line@.skip(0) == line@);
    }
    let (a, b) = next_token(line, 0);
    let (c, d) = next_token(line, b);
    let command = slice_chars(line, a, b);
    let mark = chars_of("ovsy-");
    proof {
        assert(command@.skip(0) == command@);
    }
    if matches_at(command.as_slice(), 0, mark.as_slice()) {
        let number = slice_chars(line, c, d);
        parse_pid(number.as_slice())
    } else {
        None
    }
}

/// Reads the listing of a port's holders: the processes to end, in order.
pub fn listeners(output: &str) -> (pids: Vec<i32>)
    ensures
        pids@ == listeners_of(output@),
        forall|i: int| 0 <= i < pids@.len() ==> pids@[i] > 1,
{
    let cs = chars_of(output);
    let mut pids: Vec<i32> = Vec::new();
    proof {
        assert(cs@.skip(0) == cs@);
    }
    let first = find_line_end(cs.as_slice(), 0);
    if first >= cs.len() {
        return pids;
    }
    let mut pos: usize = first + 1;
    let ghost body = cs@.skip(pos as int);
    proof {
        assert(pids@ + pids_in(body) == pids_in(body));
    }
    while pos < cs.len()
        invariant
            pos <= cs.len(),
            pids_in(body) == pids@ + pids_in(cs@.skip(pos as int)),
            forall|i: int| 0 <= i < pids@.len() ==> pids@[i] > 1,
        decreases cs.len() - pos,
    {
        let ghost rest = cs@.skip(pos as int);
        let ghost before = pids@;
        let end = find_line_end(cs.as_slice(), pos);
        let line = slice_chars(cs.as_slice(), pos, end);
        proof {
            assert(line@ == rest.take(end - pos));
        }
        let found = listener(line.as_slice());
        match found {
            Some(p) => {
                pids.push(p);
            },
            None => {},
        }
        let next = if end < cs.len() {
            end + 1
        } else {
            end
        };
        proof {
            let tail = if end < cs.len() {
                rest.skip(end - pos + 1)
            } else {
                Seq::empty()
            };
            assert(tail == cs@.skip(next as int));
            let here = match listener_of(rest.take(end - pos)) {
                Some(p) => seq![p],
                None => Seq::<i32>::empty(),
            };
            assert(pids@ == before + here);
            assert(before + (here + pids_in(tail)) == (before + here) + pids_in(tail));
        }
        pos = next;
    }
    proof {
        assert(cs@.skip(pos as int).len() == 0);
        assert(pids@ + Seq::<i32>::empty() == pids@);
    }
    pids
}

/// How a process is asked to end.
#[derive(Debug, Clone, Copy, PartialEq, Eq, Structural)]
pub enum Signal {
    /// Ask the process to end by itself.
    Terminate,
    /// End the process by force.
    Kill,
}

/// What is to be done after a process was asked to end by itself: nothing
/// where it reported success, and else it is ended by force.
pub fn escalation(terminated: bool) -> (r: Option<Signal>)
    ensures
        r == if terminated {
            None
        } else {
            Some(Signal::Kill)
        },
{
    if terminated {
        None
    } else {
        Some(Signal::Kill)
    }
}

/// The arguments of the listing of a port's holders, over both transports.
pub open spec fn listing_arguments(port: u16) -> Seq<Seq<char>> {
    seq!["-i"@, "TCP:"@ + decimal(port as nat), "-i"@, "UDP:"@ + decimal(port as nat)]
}

/// The arguments with which `lsof` lists the holders of a port.
pub fn lsof_arguments(port: u16) -> (args: Vec<String>)
    ensures
        args@.len() == 4,
        forall|i: int| 0 <= i < 4 ==> args@[i]@ == listing_arguments(port)[i],
{
    let mut tcp = String::from_str("TCP:");
    push_decimal(&mut tcp, port as u64);
    let mut udp = String::from_str("UDP:");
    push_decimal(&mut udp, port as u64);
    let mut args: Vec<String> = Vec::new();
    args.push(String::from_str("-i"));
    args.push(tcp);
    args.push(String::from_str("-i"));
    args.push(udp);
    args
}

/// The arguments of a signal to a process.
pub open spec fn signal_arguments(signal: Signal, pid: i32) -> Seq<Seq<char>> {
    seq![
        match signal {
            Signal::Terminate => "-TERM"@,
            Signal::Kill => "-9"@,
        },
        decimal(pid as nat),
    ]
}

/// The arguments with which `kill` sends a signal to a process.
pub fn kill_arguments(signal: Signal, pid: i32) -> (args: Vec<String>)
    requires
        pid > 1,
    ensures
        args@.len() == 2,
        forall|i: int| 0 <= i < 2 ==> args@[i]@ == signal_arguments(signal, pid)[i],
{
    let mut number = String::new();
    push_decimal(&mut number, pid as u64);
    proof {
        assert(Seq::<char>::empty() + decimal(pid as nat) == decimal(pid as nat));
    }
    let mut args: Vec<String> = Vec::new();
    args.push(
        match signal {
            Signal::Terminate => String::from_str("-TERM"),
            Signal::Kill => String::from_str("-9"),
        },
    );
    args.push(number);
    args
}

} // verus!
