//! The text of a compositor keymap. `wl_keyboard.keymap` hands over a block
//! of `size` bytes holding the keymap in xkb text format, ended by a NUL byte;
//! the text is what comes before the first NUL (or the whole block when there
//! is none), and it is only usable when it is valid UTF-8.
use vstd::prelude::*;
use vstd::string::*;
use vstd::utf8::*;

verus! {

/// `n` is where the text of `bytes` ends: no NUL byte comes before `n`, and
/// `n` is either the length or the position of a NUL.
pub open spec fn is_text_end(bytes: Seq<u8>, n: int) -> bool {
    &&& 0 <= n <= bytes.len()
    &&& forall|i: int| 0 <= i < n ==> bytes[i] != 0
    &&& n < bytes.len() ==> bytes[n] == 0
}

/// The position of the first NUL byte of `bytes`, or its length when it holds none.
pub open spec fn text_end(bytes: Seq<u8>) -> int {
    choose|n: int| is_text_end(bytes, n)
}

/// There is one end of text only.
pub proof fn lemma_text_end_unique(bytes: Seq<u8>, n: int, m: int)
    requires
        is_text_end(bytes, n),
        is_text_end(bytes, m),
    ensures
        n == m,
{
    if n < m {
        assert(bytes[n] != 0);
    } else if m < n {
        assert(bytes[m] != 0);
    }
}

proof fn lemma_text_end_from(bytes: Seq<u8>, i: int)
    requires
        0 <= i <= bytes.len(),
        forall|j: int| 0 <= j < i ==> bytes[j] != 0,
    ensures
        exists|n: int| is_text_end(bytes, n),
    decreases bytes.len() - i,
{
    if i == bytes.len() || bytes[i] == 0 {
        assert(is_text_end(bytes, i));
    } else {
        lemma_text_end_from(bytes, i + 1);
    }
}

/// The text of any block ends at its first NUL byte, or at its end when it
/// holds none: every byte before the end is non-zero, and the byte at the end,
/// if any, is zero.
pub proof fn lemma_text_end(bytes: Seq<u8>)
    ensures
        0 <= text_end(bytes) <= bytes.len(),
        forall|i: int| 0 <= i < text_end(bytes) ==> bytes[i] != 0,
        text_end(bytes) < bytes.len() ==> bytes[text_end(bytes)] == 0,
{
    lemma_text_end_from(bytes, 0);
}

/// Calls `std::str::from_utf8`, which by its documentation succeeds exactly
/// when the bytes are valid UTF-8 and then returns the string slice made of
/// those very bytes. The contract claims that the bytes of the result are the
/// input and that success coincides with `valid_utf8`.
#[verifier::external_body]
fn str_from_utf8(bytes: &[u8]) -> (r: Option<&str>)
    ensures
        r is Some <==> valid_utf8(bytes@),
        r matches Some(s) ==> s.spec_bytes() == bytes@,
{
    std::str::from_utf8(bytes).ok()
}

/// The length of the text held in `bytes`: the position of the first NUL
/// byte, or the length of `bytes` when there is none.
pub fn keymap_text_len(bytes: &[u8]) -> (n: usize)
    ensures
        n == text_end(bytes@),
        is_text_end(bytes@, n as int),
{
    let mut n: usize = 0;
    while n < bytes.len() && bytes[n] != 0
        invariant
            n <= bytes.len(),
            forall|i: int| 0 <= i < n ==> bytes@[i] != 0,
        decreases bytes.len() - n,
    {
        n = n + 1;
    }
    proof {
        assert(is_text_end(bytes@, n as int));
        lemma_text_end_unique(bytes@, n as int, text_end(bytes@));
    }
    n
}

/// The keymap text held in `bytes`: the bytes before the first NUL, decoded
/// as UTF-8, or `None` when they are not valid UTF-8.
pub fn keymap_source(bytes: &[u8]) -> (r: Option<String>)
    ensures
        ({
            let text = bytes@.take(text_end(bytes@));
            &&& r is Some <==> valid_utf8(text)
            &&& r matches Some(s) ==> s@ == decode_utf8(text)
        }),
{
    let n = keymap_text_len(bytes);
    let text = vstd::slice::slice_subrange(bytes, 0, n);
    assert(text@ == bytes@.take(text_end(bytes@)));
    match str_from_utf8(text) {
        Some(s) => {
            proof {
                decode_utf8_encode_utf8(text@);
                encode_utf8_decode_utf8(s@);
            }
            let owned = s.to_string();
            Some(owned)
        },
        None => None,
    }
}

} // verus!
