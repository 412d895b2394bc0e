//! Identifiers of traces and spans.
use vstd::prelude::*;

verus! {

/// A digit of the hexadecimal notation, in either case.
pub open spec fn is_hex_digit(c: char) -> bool {
    ||| '0' <= c <= '9'
    ||| 'a' <= c <= 'f'
    ||| 'A' <= c <= 'F'
}

/// The text is a byte string in hexadecimal notation: two digits for each byte.
pub open spec fn is_hex_encoded(text: Seq<char>) -> bool {
    &&& text.len() % 2 == 0
    &&& forall|i: int| 0 <= i < text.len() ==> is_hex_digit(#[trigger] text[i])
}

/// The text was not a hex encoded identifier.
#[derive(Debug, Clone, Copy, PartialEq, Eq, Structural)]
pub struct InvalidHexEncodedId;

/// The hex encoded identifier of a trace or of a span.
#[derive(Debug)]
pub struct HexEncodedId {
    text: String,
}

impl View for HexEncodedId {
    type V = Seq<char>;

    closed spec fn view(&self) -> Seq<char> {
        self.text@
    }
}

impl HexEncodedId {
    /// The identifier is hex encoded.
    #[verifier::type_invariant]
    spec fn is_valid(self) -> bool {
        is_hex_encoded(self.text@)
    }

    /// Takes the text over as an identifier, where it is hex encoded.
    pub fn parse(text: String) -> (id: Result<HexEncodedId, InvalidHexEncodedId>)
        ensures
            id is Ok <==> is_hex_encoded(text@),
            id matches Ok(id) ==> id@ == text@,
    {
        let length: usize = text.as_str().unicode_len();
        if length % 2 != 0 {
            return Err(InvalidHexEncodedId);
        }
        let mut i: usize = 0;
        while i < length
            invariant
                length == text@.len(),
                i <= length,
                forall|j: int| 0 <= j < i ==> is_hex_digit(#[trigger] text@[j]),
            decreases length - i,
        {
            let c = text.as_str().get_char(i);
            let digit = (c >= '0' && c <= '9') || (c >= 'a' && c <= 'f') || (c >= 'A' && c <= 'F');
            if !digit {
                return Err(InvalidHexEncodedId);
            }
            i = i + 1;
        }
        Ok(HexEncodedId { text })
    }

    /// The identifier as text, which is hex encoded.
    pub fn as_str(&self) -> (text: &str)
        ensures
            text@ == self@,
            is_hex_encoded(text@),
    {
        proof {
            use_type_invariant(self);
        }
        self.text.as_str()
    }
}

/// A text is hex encoded where it has an even number of characters, each of them one
/// of the sixteen digits, of which six may be in upper case.
pub proof fn law_hex_encoding_has_its_digits_only(text: Seq<char>)
    ensures
        is_hex_encoded(text) <==> (text.len() % 2 == 0 && forall|i: int|
            0 <= i < text.len() ==> "0123456789abcdefABCDEF"@.contains(#[trigger] text[i])),
{
    reveal_strlit("0123456789abcdefABCDEF");
    let digits = "0123456789abcdefABCDEF"@;
    assert forall|c: char| is_hex_digit(c) implies digits.contains(c) by {
        let at = if c <= '9' {
            c as int - '0' as int
        } else if c >= 'a' {
            c as int - 'a' as int + 10
        } else {
            c as int - 'A' as int + 16
        };
        assert(digits[at] == c);
    }
    assert forall|i: int| 0 <= i < digits.len() implies is_hex_digit(#[trigger] digits[i]) by {}
    if forall|i: int| 0 <= i < text.len() ==> digits.contains(#[trigger] text[i]) {
        assert forall|i: int| 0 <= i < text.len() implies is_hex_digit(#[trigger] text[i]) by {
            assert(digits.contains(text[i]));
        }
    }
}

/// Two hex encoded texts make one, one behind the other.
pub proof fn law_hex_encodings_join(left: Seq<char>, right: Seq<char>)
    requires
        is_hex_encoded(left),
    ensures
        is_hex_encoded(left + right) <==> is_hex_encoded(right),
{
    if is_hex_encoded(left + right) {
        assert forall|i: int| 0 <= i < right.len() implies is_hex_digit(#[trigger] right[i]) by {
            assert((left + right)[left.len() + i] == right[i]);
        }
    }
}

} // verus!
