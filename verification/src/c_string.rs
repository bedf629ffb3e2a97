//! NUL-terminated byte strings, as the C library takes URLs, user names and passwords.

use vstd::prelude::*;
use vstd::string::StringSliceAdditionalSpecFns;

verus! {

/// The NUL-terminated bytes of `text` (its UTF-8 bytes followed by one 0 byte), or `None` where
/// the bytes of `text` already hold a 0 byte, which a C string cannot carry.
pub open spec fn spec_c_string_bytes(text: Seq<u8>) -> Option<Seq<u8>> {
    if text.contains(0u8) {
        None
    } else {
        Some(text.push(0u8))
    }
}

/// The bytes that `CString::new(text)` holds with its terminator (`as_bytes_with_nul`): the UTF-8
/// bytes of `text` followed by one 0 byte, or `None` where `text` holds a NUL character.
pub fn c_string_bytes(text: &str) -> (bytes: Option<Vec<u8>>)
    ensures
        bytes matches Some(b) ==> spec_c_string_bytes(text.spec_bytes()) == Some(b@),
        bytes is None <==> spec_c_string_bytes(text.spec_bytes()) is None,
        bytes is None <==> exists|i: int|
            0 <= i < text.spec_bytes().len() && text.spec_bytes()[i] == 0u8,
        bytes matches Some(b) ==> b@ == text.spec_bytes().push(0u8),
{
    let source = text.as_bytes();
    let mut bytes: Vec<u8> = Vec::new();
    let mut i: usize = 0;
    while i < source.len()
        invariant
            source@ == text.spec_bytes(),
            i <= source@.len(),
            bytes@ == source@.subrange(0, i as int),
            forall|j: int| 0 <= j < i ==> source@[j] != 0u8,
        decreases source@.len() - i,
    {
        if source[i] == 0 {
            assert(source@.contains(0u8)) by {
                assert(source@[i as int] == 0u8);
            }
            return None;
        }
        bytes.push(source[i]);
        i = i + 1;
        assert(bytes@ == source@.subrange(0, i as int));
    }
    assert(!source@.contains(0u8));
    assert(source@.subrange(0, i as int) == source@);
    bytes.push(0);
    Some(bytes)
}

/// The bytes of a C string end in a 0 byte and hold no other, and dropping that terminator gives
/// back the text.
pub proof fn c_string_has_one_terminator(text: Seq<u8>)
    requires
        spec_c_string_bytes(text) is Some,
    ensures
        ({
            let bytes = spec_c_string_bytes(text)->0;
            &&& bytes.len() == text.len() + 1
            &&& bytes.last() == 0u8
            &&& forall|i: int| 0 <= i < bytes.len() - 1 ==> bytes[i] != 0u8
            &&& bytes.drop_last() == text
        }),
{
    let bytes = text.push(0u8);
    assert(bytes.drop_last() == text);
    assert forall|i: int| 0 <= i < bytes.len() - 1 implies bytes[i] != 0u8 by {
        if bytes[i] == 0u8 {
            assert(text[i] == 0u8);
            assert(text.contains(0u8));
        }
    }
}

/// A text becomes a C string exactly when none of its bytes is 0, and then its C string is its
/// bytes followed by one 0 byte: every other byte, whatever its value, is accepted and kept.
pub proof fn c_string_refuses_only_nul(text: Seq<u8>)
    ensures
        spec_c_string_bytes(text) is None <==> exists|i: int| 0 <= i < text.len() && text[i] == 0u8,
        (forall|i: int| 0 <= i < text.len() ==> text[i] != 0u8) ==> spec_c_string_bytes(text)
            == Some(text.push(0u8)),
{
    if exists|i: int| 0 <= i < text.len() && text[i] == 0u8 {
        let i = choose|i: int| 0 <= i < text.len() && text[i] == 0u8;
        assert(text.contains(0u8));
    }
}

} // verus!
