//! Verified text helpers: decoding ASCII byte sequences into strings.

use vstd::prelude::*;

verus! {

/// Whether every byte is in the ASCII range.
pub open spec fn all_ascii(s: Seq<u8>) -> bool {
    forall|i: int| 0 <= i < s.len() ==> s[i] < 128
}

/// The characters that a sequence of ASCII bytes spells.
pub open spec fn chars_of(s: Seq<u8>) -> Seq<char> {
    s.map_values(|b: u8| b as char)
}

/// Relies on String::push: appends one character to the string.
#[verifier::external_body]
fn push_char(s: &mut String, c: char)
    ensures
        final(s)@ == old(s)@.push(c),
{
    s.push(c);
}

/// Decode a byte sequence as ASCII text: `Some` exactly when every byte is
/// in the ASCII range, `None` otherwise — malformed input is data, not a
/// panic.
pub fn ascii_to_string(bytes: &[u8]) -> (r: Option<String>)
    ensures
        r is Some <==> all_ascii(bytes@),
        r matches Some(s) ==> s@ == chars_of(bytes@),
{
    let mut out = String::new();
    let mut i: usize = 0;
    while i < bytes.len()
        invariant
            0 <= i <= bytes@.len(),
            all_ascii(bytes@.take(i as int)),
            out@ == chars_of(bytes@.take(i as int)),
        decreases bytes@.len() - i,
    {
        let b = *vstd::slice::slice_index_get(bytes, i);
        if b >= 128 {
            proof {
                assert(bytes@[i as int] >= 128);
                assert(!all_ascii(bytes@));
            }
            return None;
        }
        push_char(&mut out, b as char);
        proof {
            assert(bytes@.take(i as int + 1) =~= bytes@.take(i as int).push(bytes@[i as int]));
            assert(chars_of(bytes@.take(i as int + 1)) =~= out@);
        }
        i = i + 1;
    }
    proof {
        assert(bytes@.take(bytes@.len() as int) =~= bytes@);
    }
    Some(out)
}

} // verus!
