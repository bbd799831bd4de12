//! Decoder for the proprietary single-byte text codepage.
//!
//! Byte 10 becomes a line feed (the line ending is fixed to `\n` so that the
//! produced text is identical on every platform), bytes 11 through 136 map to
//! the code point ten below their value, a handful of named bytes map to
//! accented letters, and every other byte is illegal and aborts the decode of
//! the whole buffer. The decoded text always starts with a byte-order mark.
//!
//! The upper bound of the shifted range is fixed at 136: byte 137 is illegal
//! in this build, always.

use vstd::prelude::*;

use crate::error::ConvertError;
use crate::strutil::push_char;

verus! {

/// The character one byte of the proprietary codepage decodes to, or `None`
/// for a byte outside the codepage.
pub open spec fn byte_to_char(b: u8) -> Option<char> {
    if b == 10 {
        Some('\n')
    } else if 11 <= b && b <= 136 {
        Some(((b - 10) as u8) as char)
    } else if b == 139 {
        Some('\u{fc}')  // u umlaut
    } else if b == 142 {
        Some('\u{e4}')  // a umlaut
    } else if b == 152 {
        Some('\u{c4}')  // capital A umlaut
    } else if b == 158 {
        Some('\u{f6}')  // o umlaut
    } else if b == 163 {
        Some('\u{d6}')  // capital O umlaut
    } else if b == 164 {
        Some('\u{dc}')  // capital U umlaut
    } else if b == 183 {
        Some('\u{f4}')  // o circumflex
    } else if b == 235 {
        Some('\u{df}')  // sharp s
    } else {
        None
    }
}

/// Whether every byte of the buffer lies inside the codepage.
pub open spec fn text_valid(bytes: Seq<u8>) -> bool {
    forall|i: int| 0 <= i < bytes.len() ==> byte_to_char(bytes[i]) is Some
}

/// The characters a valid buffer decodes to, one per byte.
pub open spec fn decoded_chars(bytes: Seq<u8>) -> Seq<char> {
    Seq::new(bytes.len(), |i: int| byte_to_char(bytes[i])->Some_0)
}

/// The full decoded text: a byte-order mark followed by the decoded characters.
pub open spec fn decoded_text(bytes: Seq<u8>) -> Seq<char> {
    seq!['\u{feff}'] + decoded_chars(bytes)
}

/// The codepage is a pure function, total over its domain: a buffer of
/// valid bytes decodes to exactly one character per byte after the
/// byte-order mark, each determined by the mapping table alone.
pub proof fn lemma_decode_total(bytes: Seq<u8>)
    requires
        text_valid(bytes),
    ensures
        decoded_text(bytes).len() == bytes.len() + 1,
        decoded_text(bytes)[0] == '\u{feff}',
        forall|i: int|
            0 <= i < bytes.len() ==> decoded_text(bytes)[i + 1] == byte_to_char(bytes[i])->Some_0,
{
}

/// Decodes one text buffer from the proprietary codepage to text.
///
/// Succeeds exactly when every byte lies inside the codepage; the first byte
/// outside it aborts the decode and is reported, so no partial output exists.
pub fn decode_text(bytes: &Vec<u8>) -> (r: Result<String, ConvertError>)
    ensures
        r is Ok <==> text_valid(bytes@),
        r matches Ok(s) ==> s@ == decoded_text(bytes@),
        r matches Err(e) ==> exists|i: int|
            0 <= i < bytes@.len()
                && #[trigger] byte_to_char(bytes@[i]) is None
                && (forall|j: int| 0 <= j < i ==> byte_to_char(bytes@[j]) is Some)
                && e == ConvertError::IllegalCharacterError(bytes@[i]),
{
    let mut s = String::new();
    push_char(&mut s, '\u{feff}');
    let n = bytes.len();
    let mut i: usize = 0;
    while i < n
        invariant
            n == bytes@.len(),
            i <= n,
            forall|j: int| 0 <= j < i ==> byte_to_char(bytes@[j]) is Some,
            s@ == seq!['\u{feff}'] + decoded_chars(bytes@.take(i as int)),
        decreases n - i,
    {
        let b = bytes[i];
        let c: char = if b == 10 {
            '\n'
        } else if 11 <= b && b <= 136 {
            (b - 10) as char
        } else if b == 139 {
            '\u{fc}'
        } else if b == 142 {
            '\u{e4}'
        } else if b == 152 {
            '\u{c4}'
        } else if b == 158 {
            '\u{f6}'
        } else if b == 163 {
            '\u{d6}'
        } else if b == 164 {
            '\u{dc}'
        } else if b == 183 {
            '\u{f4}'
        } else if b == 235 {
            '\u{df}'
        } else {
            return Err(ConvertError::IllegalCharacterError(b));
        };
        proof {
            assert(byte_to_char(bytes@[i as int]) == Some(c));
        }
        push_char(&mut s, c);
        i = i + 1;
        proof {
            assert(bytes@.take(i as int) =~= bytes@.take(i as int - 1).push(bytes@[i - 1]));
            assert(decoded_chars(bytes@.take(i as int)) =~= decoded_chars(
                bytes@.take(i as int - 1),
            ).push(c));
        }
    }
    proof {
        assert(bytes@.take(n as int) =~= bytes@);
    }
    Ok(s)
}

} // verus!
