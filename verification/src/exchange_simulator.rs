//! The exchange server's line protocol.
//!
//! The server accepts raw byte requests and streams back a fixed small
//! number of synthetic ASCII lines, each echoing the request verbatim.
//! Building those lines is the logic verified here; the listening socket,
//! the per-connection reads and writes, the inter-line delays and the
//! final shutdown are I/O at the edge and live outside the library.

use vstd::prelude::*;

verus! {

/// How many synthetic response lines one connection receives.
pub const RESPONSE_LINES: usize = 3;

/// The fixed marker between the echoed request and the line number:
/// the bytes of "-> line::".
pub open spec fn line_marker() -> Seq<u8> {
    seq![45u8, 62u8, 32u8, 108u8, 105u8, 110u8, 101u8, 58u8, 58u8]
}

/// The closing marker of every line: the bytes of "<p>".
pub open spec fn line_closer() -> Seq<u8> {
    seq![60u8, 112u8, 62u8]
}

/// The `n`-th response line for a request: the request echoed verbatim,
/// the marker, the line number as one decimal digit, and the closer.
pub open spec fn response_line(req: Seq<u8>, n: int) -> Seq<u8> {
    req + line_marker() + seq![(48 + n) as u8] + line_closer()
}

/// Build the `n`-th response line for a request.
pub fn build_line(req: &Vec<u8>, n: usize) -> (r: Vec<u8>)
    requires
        n < 10,
    ensures
        r@ == response_line(req@, n as int),
{
    let mut r: Vec<u8> = Vec::new();
    let mut i: usize = 0;
    while i < req.len()
        invariant
            i <= req@.len(),
            r@ == req@.take(i as int),
        decreases req@.len() - i,
    {
        r.push(req[i]);
        proof {
            assert(r@ =~= req@.take(i + 1));
        }
        i = i + 1;
    }
    proof {
        assert(r@ =~= req@);
    }
    r.push(45);
    r.push(62);
    r.push(32);
    r.push(108);
    r.push(105);
    r.push(110);
    r.push(101);
    r.push(58);
    r.push(58);
    r.push(48 + (n as u8));
    r.push(60);
    r.push(112);
    r.push(62);
    proof {
        assert(r@ =~= response_line(req@, n as int));
    }
    r
}

/// The full response streamed back over one connection: exactly
/// `RESPONSE_LINES` lines, in order of their line numbers, each echoing
/// the request.
pub fn respond(req: &Vec<u8>) -> (r: Vec<Vec<u8>>)
    ensures
        r@.len() == RESPONSE_LINES,
        forall|n: int| 0 <= n < r@.len() ==> (#[trigger] r@[n])@ == response_line(req@, n),
{
    let mut r: Vec<Vec<u8>> = Vec::new();
    let mut n: usize = 0;
    while n < RESPONSE_LINES
        invariant
            n <= RESPONSE_LINES,
            r@.len() == n,
            forall|k: int| 0 <= k < n ==> (#[trigger] r@[k])@ == response_line(req@, k),
        decreases RESPONSE_LINES - n,
    {
        let line = build_line(req, n);
        r.push(line);
        n = n + 1;
    }
    r
}

/// Every response line carries the request verbatim: the line's first
/// bytes are exactly the request.
pub proof fn lemma_line_echoes_request(req: Seq<u8>, n: int)
    ensures
        response_line(req, n).take(req.len() as int) == req,
{
    assert(response_line(req, n).take(req.len() as int) =~= req);
}

} // verus!
