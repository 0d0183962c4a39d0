//! Byte-buffer helpers shared by the protocol layers: extracting the
//! text of a fixed-size response window past a skip offset, with the
//! bounded-capacity behaviour of the original buffers, and ASCII
//! token handling.

use vstd::prelude::*;

verus! {

broadcast use vstd::string::group_string_axioms;

use vstd::string::StrSliceExecFns;
use vstd::string::is_ascii;

/// The response window held more text than the bounded output buffer
/// could take.
#[derive(Debug, Eq, PartialEq, Copy, Clone, Structural)]
pub struct StringFromBufError {}

/// The bytes of an ASCII character sequence, one byte per character.
pub open spec fn ascii_bytes(s: Seq<char>) -> Seq<u8> {
    Seq::new(s.len(), |i: int| s[i] as u8)
}

/// The byte form of an ASCII token or command line.
pub fn ascii_bytes_of(s: &str) -> (r: Vec<u8>)
    requires
        is_ascii(s),
    ensures
        r@ == ascii_bytes(s@),
{
    let r = s.as_bytes_vec();
    proof {
        assert(r@ =~= ascii_bytes(s@));
    }
    r
}

/// Extracts the text of a response window from `skip` onward into a
/// buffer of capacity `cap`, one byte per character.  A window that
/// ends at or before `skip` gives the empty text; a remainder larger
/// than `cap` does not fit and fails.
pub fn string_from_buf_with_skip(buf: &Vec<u8>, skip: usize, cap: usize) -> (r: Result<
    Vec<u8>,
    StringFromBufError,
>)
    ensures
        skip >= buf@.len() ==> (r matches Ok(s) && s@ == Seq::<u8>::empty()),
        skip < buf@.len() && buf@.len() - skip <= cap ==> (r matches Ok(s) && s@ == buf@.skip(
            skip as int,
        )),
        skip < buf@.len() && buf@.len() - skip > cap ==> r is Err,
{
    let n: usize = buf.len();
    if skip >= n {
        return Ok(Vec::new());
    }
    if n - skip > cap {
        return Err(StringFromBufError {  });
    }
    let mut s: Vec<u8> = Vec::new();
    let mut i: usize = skip;
    while i < n
        invariant
            skip <= i <= n,
            n == buf@.len(),
            s@ == buf@.subrange(skip as int, i as int),
        decreases n - i,
    {
        s.push(buf[i]);
        i = i + 1;
        proof {
            assert(s@ =~= buf@.subrange(skip as int, i as int));
        }
    }
    proof {
        assert(buf@.subrange(skip as int, n as int) =~= buf@.skip(skip as int));
    }
    Ok(s)
}

/// Byte-wise equality of two buffers.
pub fn bytes_eq(a: &Vec<u8>, b: &Vec<u8>) -> (r: bool)
    ensures
        r == (a@ == b@),
{
    if a.len() != b.len() {
        return false;
    }
    let mut i: usize = 0;
    while i < a.len()
        invariant
            i <= a@.len(),
            a@.len() == b@.len(),
            forall|j: int| 0 <= j < i ==> a@[j] == b@[j],
        decreases a@.len() - i,
    {
        if a[i] != b[i] {
            return false;
        }
        i = i + 1;
    }
    proof {
        assert(a@ =~= b@);
    }
    true
}

} // verus!
