//! Request framing: the header terminator and the fixed response.

use vstd::prelude::*;
use vstd::string::StringSliceAdditionalSpecFns;

verus! {

/// Carriage return.
pub const CR: u8 = 13;

/// Line feed.
pub const LF: u8 = 10;

/// Length of the header terminator in bytes.
pub const TERMINATOR_LEN: usize = 4;

/// The text sent in answer to every request: a status line, an empty line and
/// an HTML body.
pub const RESPONSE_TEXT: &'static str =
    "HTTP/1.0 200 OK\r\n\r\n<html><body><h1>Hello Rust! Hello esp-radio!</h1></body></html>\r\n";

/// The header terminator: an empty line after a line end.
pub open spec fn terminator() -> Seq<u8> {
    seq![CR, LF, CR, LF]
}

/// The terminator stands in `data` at offset `at`.
pub open spec fn terminator_at(data: Seq<u8>, at: int) -> bool {
    &&& 0 <= at
    &&& at + 4 <= data.len()
    &&& data[at] == CR
    &&& data[at + 1] == LF
    &&& data[at + 2] == CR
    &&& data[at + 3] == LF
}

/// The terminator stands somewhere in `data`.
pub open spec fn has_terminator(data: Seq<u8>) -> bool {
    exists|at: int| terminator_at(data, at)
}

/// The bytes of the fixed response.
pub open spec fn response_bytes() -> Seq<u8> {
    RESPONSE_TEXT.spec_bytes()
}

/// Offset of the first terminator in `data`, if there is one.
pub fn find_terminator(data: &[u8]) -> (found: Option<usize>)
    ensures
        match found {
            Some(at) => terminator_at(data@, at as int) && forall|earlier: int|
                earlier < at ==> !terminator_at(data@, earlier),
            None => !has_terminator(data@),
        },
{
    let len: usize = data.len();
    if len < TERMINATOR_LEN {
        return None;
    }
    let last: usize = len - TERMINATOR_LEN;
    let mut at: usize = 0;
    while at <= last
        invariant
            len == data@.len(),
            last + 4 == len,
            at <= last + 1,
            forall|earlier: int| earlier < at ==> !terminator_at(data@, earlier),
        decreases last + 1 - at,
    {
        if data[at] == CR && data[at + 1] == LF && data[at + 2] == CR && data[at + 3] == LF {
            return Some(at);
        }
        at = at + 1;
    }
    None
}

/// Whether the terminator stands somewhere in `data`.
pub fn contains_terminator(data: &[u8]) -> (found: bool)
    ensures
        found == has_terminator(data@),
{
    find_terminator(data).is_some()
}

/// The fixed response, as it goes on the wire.
pub fn response() -> (bytes: &'static [u8])
    ensures
        bytes@ == response_bytes(),
{
    RESPONSE_TEXT.as_bytes()
}

} // verus!
