//! The port announcement that the backend writes to its standard output.
//!
//! The backend announces its listening port with one line that starts with
//! the sentinel `SERVER_PORT:` and continues with the port number and nothing
//! else. Every other line is log text.

use crate::port::{decimal_digits, lemma_port_round_trip, parse_port, port_value};
use vstd::prelude::*;
use vstd::string::*;

verus! {

/// The number of characters in the sentinel.
pub const SENTINEL_LEN: usize = 12;

/// The text that an announcement line starts with.
pub open spec fn sentinel() -> Seq<char> {
    seq!['S', 'E', 'R', 'V', 'E', 'R', '_', 'P', 'O', 'R', 'T', ':']
}

/// Whether `line` starts with the sentinel.
pub open spec fn has_sentinel(line: Seq<char>) -> bool {
    sentinel().is_prefix_of(line)
}

/// The port that `line` announces: the port denoted by what follows the
/// sentinel, if the line starts with the sentinel and the rest denotes a port.
pub open spec fn announced_port(line: Seq<char>) -> Option<u16> {
    if has_sentinel(line) {
        port_value(line.skip(SENTINEL_LEN as int))
    } else {
        None
    }
}

/// The line with which a backend announces `port`: the sentinel, then the
/// port in base ten.
pub open spec fn announcement(port: u16) -> Seq<char> {
    sentinel() + decimal_digits(port as nat)
}

/// The announcement of a port is read as that port, for every port.
pub proof fn lemma_announcement_is_read(port: u16)
    ensures
        has_sentinel(announcement(port)),
        announced_port(announcement(port)) == Some(port),
{
    let line = announcement(port);
    assert(line.subrange(0, SENTINEL_LEN as int) =~= sentinel());
    assert(line.skip(SENTINEL_LEN as int) =~= decimal_digits(port as nat));
    lemma_port_round_trip(port);
}

/// The sentinel as text.
pub fn sentinel_text() -> (text: &'static str)
    ensures
        text@ == sentinel(),
{
    let text = "SERVER_PORT:";
    proof {
        reveal_strlit("SERVER_PORT:");
        assert(text@ =~= sentinel());
    }
    text
}

/// Removes the sentinel from the front of `line`, if it is there.
pub fn strip_sentinel(line: &str) -> (rest: Option<&str>)
    ensures
        rest is Some <==> has_sentinel(line@),
        rest matches Some(r) ==> r@ == line@.skip(SENTINEL_LEN as int),
{
    let prefix = sentinel_text();
    let n = line.unicode_len();
    if n < SENTINEL_LEN {
        return None;
    }
    let mut i: usize = 0;
    while i < SENTINEL_LEN
        invariant
            i <= SENTINEL_LEN <= n,
            n == line@.len(),
            prefix@ == sentinel(),
            forall|j: int| 0 <= j < i ==> line@[j] == sentinel()[j],
        decreases SENTINEL_LEN - i,
    {
        if line.get_char(i) != prefix.get_char(i) {
            return None;
        }
        i = i + 1;
    }
    assert(line@.subrange(0, SENTINEL_LEN as int) =~= sentinel());
    let rest = line.substring_char(SENTINEL_LEN, n);
    assert(rest@ =~= line@.skip(SENTINEL_LEN as int));
    Some(rest)
}

/// Reads `line` as a port announcement.
pub fn read_announcement(line: &str) -> (port: Option<u16>)
    ensures
        port == announced_port(line@),
{
    match strip_sentinel(line) {
        Some(rest) => parse_port(rest),
        None => None,
    }
}

} // verus!
