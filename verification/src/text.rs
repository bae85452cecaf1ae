//! Text taken from raw bytes.
use vstd::prelude::*;
use vstd::slice::slice_subrange;

verus! {

/// The text that `String::from_utf8_lossy` makes of `bytes`: valid UTF-8 is kept,
/// and every ill-formed run becomes one replacement character.
pub uninterp spec fn lossy_text(bytes: Seq<u8>) -> Seq<char>;

/// The view of an optional string.
pub open spec fn text_view(text: Option<String>) -> Option<Seq<char>> {
    match text {
        Some(s) => Some(s@),
        None => None,
    }
}

/// The view of optional bytes.
pub open spec fn bytes_view(bytes: Option<Vec<u8>>) -> Option<Seq<u8>> {
    match bytes {
        Some(b) => Some(b@),
        None => None,
    }
}

/// `bytes` without the zero bytes at its end.
pub open spec fn trimmed(bytes: Seq<u8>) -> Seq<u8>
    decreases bytes.len(),
{
    if bytes.len() > 0 && bytes.last() == 0 {
        trimmed(bytes.drop_last())
    } else {
        bytes
    }
}

/// Trimming keeps a prefix, drops only zero bytes, and leaves no zero byte at the end.
pub proof fn law_trimmed_drops_trailing_zeros(bytes: Seq<u8>)
    ensures
        trimmed(bytes).len() <= bytes.len(),
        trimmed(bytes) == bytes.take(trimmed(bytes).len() as int),
        forall|i: int| trimmed(bytes).len() <= i < bytes.len() ==> bytes[i] == 0,
        trimmed(bytes).len() > 0 ==> trimmed(bytes).last() != 0,
    decreases bytes.len(),
{
    if bytes.len() > 0 && bytes.last() == 0 {
        law_trimmed_drops_trailing_zeros(bytes.drop_last());
        let n = trimmed(bytes).len() as int;
        assert(bytes.drop_last().take(n) =~= bytes.take(n));
        assert forall|i: int| n <= i < bytes.len() implies bytes[i] == 0 by {
            if i < bytes.len() - 1 {
                assert(bytes.drop_last()[i] == bytes[i]);
            }
        }
    } else {
        assert(bytes.take(bytes.len() as int) =~= bytes);
    }
}

/// Calls `String::from_utf8_lossy` on `bytes` and takes the text as an owned string.
/// Trusted: the text depends on the bytes alone.
#[verifier::external_body]
fn text_of_bytes(bytes: &[u8]) -> (s: String)
    ensures
        s@ == lossy_text(bytes@),
{
    String::from_utf8_lossy(bytes).into_owned()
}

/// How many bytes of `bytes` are left once the zero bytes at its end are dropped.
pub fn trimmed_len(bytes: &Vec<u8>) -> (n: usize)
    ensures
        n <= bytes.len(),
        n == trimmed(bytes@).len(),
        bytes@.take(n as int) == trimmed(bytes@),
{
    let mut n: usize = bytes.len();
    proof {
        assert(bytes@.take(n as int) =~= bytes@);
    }
    while n > 0 && bytes[n - 1] == 0
        invariant
            n <= bytes.len(),
            trimmed(bytes@.take(n as int)) == trimmed(bytes@),
        decreases n,
    {
        proof {
            assert(bytes@.take(n as int).drop_last() =~= bytes@.take(n - 1));
        }
        n = n - 1;
    }
    n
}

/// The text of a fixed-width name: the zero bytes at the end are dropped and the
/// rest is read as text. Bytes of any length are taken, not only 32 of them.
pub fn bytes32_to_string(bytes: &Vec<u8>) -> (s: String)
    ensures
        s@ == lossy_text(trimmed(bytes@)),
{
    let n: usize = trimmed_len(bytes);
    let kept = slice_subrange(bytes.as_slice(), 0, n);
    assert(kept@ =~= bytes@.take(n as int));
    text_of_bytes(kept)
}

} // verus!
