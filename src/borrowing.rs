//! Borrowing a `String` to find where its first word ends.
use vstd::prelude::*;
use vstd::utf8::encode_utf8;

verus! {

/// `i` is where the first word of `bytes` ends: the index of the first
/// space byte, or the length where there is none.
pub open spec fn ends_first_word(bytes: Seq<u8>, i: int) -> bool {
    &&& 0 <= i <= bytes.len()
    &&& forall|j: int| 0 <= j < i ==> bytes[j] != 32u8
    &&& i < bytes.len() ==> bytes[i] == 32u8
}

/// Relies on `String::clear`, which truncates the string to nothing.
#[verifier::external_body]
fn clear_string(s: &mut String)
    ensures
        final(s)@ == Seq::<char>::empty(),
{
    s.clear()
}

/// The byte index at which the first word of `s` ends: the index of its
/// first space, or its length in bytes where it has no space.
pub fn first_word(s: &String) -> (r: usize)
    ensures
        ends_first_word(encode_utf8(s@), r as int),
{
    let text = s.as_str();
    let bytes = text.as_bytes();
    for i in 0..bytes.len()
        invariant
            bytes@ == encode_utf8(s@),
            forall|j: int| 0 <= j < i ==> bytes@[j] != 32u8,
    {
        if bytes[i] == 32u8 {
            return i;
        }
    }
    text.len()
}

/// Takes the end of the first word of "hello world", then clears the
/// string; the index is a value of its own and outlives the text. Returns
/// the index and the cleared string.
pub fn references_borrowing() -> (r: (usize, String))
    ensures
        r.0 == 5,
        r.1@ == Seq::<char>::empty(),
{
    let mut s = String::from_str("hello world");
    proof {
        reveal_strlit("hello world");
        vstd::string::is_ascii_spec_bytes("hello world");
    }
    assert(encode_utf8(s@) == seq![104u8, 101, 108, 108, 111, 32, 119, 111, 114, 108, 100]);
    let word = first_word(&s);
    clear_string(&mut s);
    (word, s)
}

} // verus!
