//! The ids of sessions: drawn by chance, or else numbered.
use crate::text::join;
use vstd::prelude::*;

verus! {

/// A digit of a UUID.
pub open spec fn is_uuid_digit(c: char) -> bool {
    ||| '0' <= c <= '9'
    ||| 'a' <= c <= 'f'
}

/// The text of a random UUID: 36 characters, groups of digits with hyphens
/// between them, with its version and its variant in their places.
pub open spec fn is_random_uuid(text: Seq<char>) -> bool {
    &&& text.len() == 36
    &&& forall|i: int|
        0 <= i < 36 ==> if i == 8 || i == 13 || i == 18 || i == 23 {
            #[trigger] text[i] == '-'
        } else {
            is_uuid_digit(text[i])
        }
    &&& text[14] == '4'
    &&& (text[19] == '8' || text[19] == '9' || text[19] == 'a' || text[19] == 'b')
}

/// `uuid::Uuid::new_v4`, written out by its `to_string`. Which UUID comes is
/// chance: two calls may, if hardly ever, draw the same one.
#[verifier::external_body]
pub(crate) fn random_uuid() -> (id: String)
    ensures
        is_random_uuid(id@),
{
    uuid::Uuid::new_v4().to_string()
}

/// The digit of the hexadecimal notation, in lower case, for a number under 16.
pub open spec fn lower_hex(digit: int) -> char {
    if digit < 10 {
        ('0' as int + digit) as char
    } else {
        ('a' as int + digit - 10) as char
    }
}

/// The last digits of a number in the hexadecimal notation.
pub open spec fn hex_text(number: nat, width: nat) -> Seq<char>
    decreases width,
{
    if width == 0 {
        Seq::empty()
    } else {
        hex_text(number / 16, (width - 1) as nat).push(lower_hex((number % 16) as int))
    }
}

/// The first number that does not have so few digits.
pub open spec fn pow16(width: nat) -> nat
    decreases width,
{
    if width == 0 {
        1
    } else {
        16 * pow16((width - 1) as nat)
    }
}

/// The id of this number: a text of the shape of a random UUID, with the digits of
/// the number in it.
pub open spec fn numbered_id(number: nat) -> Seq<char> {
    let digits = hex_text(number, 16);
    digits.subrange(0, 8) + "-"@ + digits.subrange(8, 12) + "-4000-8000-"@ + digits.subrange(12, 16)
        + "00000000"@
}

/// The ids of the first numbers.
pub open spec fn numbered_ids(count: nat) -> Seq<Seq<char>> {
    Seq::new(count, |number: int| numbered_id(number as nat))
}

/// There are as many digits as asked for, and they are digits of a UUID.
proof fn lemma_hex_text(number: nat, width: nat)
    ensures
        hex_text(number, width).len() == width,
        forall|i: int| 0 <= i < width ==> is_uuid_digit(#[trigger] hex_text(number, width)[i]),
    decreases width,
{
    if width > 0 {
        lemma_hex_text(number / 16, (width - 1) as nat);
    }
}

/// Two numbers with so few digits that have the same digits are the same.
proof fn lemma_hex_text_tells_apart(left: nat, right: nat, width: nat)
    requires
        left < pow16(width),
        right < pow16(width),
        hex_text(left, width) == hex_text(right, width),
    ensures
        left == right,
    decreases width,
{
    if width > 0 {
        let left_rest = hex_text(left / 16, (width - 1) as nat);
        let right_rest = hex_text(right / 16, (width - 1) as nat);
        lemma_hex_text(left / 16, (width - 1) as nat);
        lemma_hex_text(right / 16, (width - 1) as nat);
        assert(hex_text(left, width).drop_last() =~= left_rest);
        assert(hex_text(right, width).drop_last() =~= right_rest);
        assert(hex_text(left, width).last() == lower_hex((left % 16) as int));
        assert(hex_text(right, width).last() == lower_hex((right % 16) as int));
        assert(left % 16 == right % 16);
        lemma_hex_text_tells_apart(left / 16, right / 16, (width - 1) as nat);
    }
}

/// A numbered id has the shape of a random UUID.
pub proof fn lemma_numbered_id_shape(number: nat)
    ensures
        is_random_uuid(numbered_id(number)),
{
    reveal_strlit("-");
    reveal_strlit("-4000-8000-");
    reveal_strlit("00000000");
    lemma_hex_text(number, 16);
    let digits = hex_text(number, 16);
    let id = numbered_id(number);
    assert forall|i: int| 0 <= i < 36 implies if i == 8 || i == 13 || i == 18 || i == 23 {
        #[trigger] id[i] == '-'
    } else {
        is_uuid_digit(id[i])
    } by {
        if i < 8 {
            assert(id[i] == digits[i]);
        } else if 9 <= i < 13 {
            assert(id[i] == digits[i - 1]);
        } else if 24 <= i < 28 {
            assert(id[i] == digits[i - 12]);
        }
    }
}

/// Two numbers have two ids.
pub proof fn lemma_numbered_ids_differ(left: nat, right: nat)
    requires
        left <= u64::MAX,
        right <= u64::MAX,
        numbered_id(left) == numbered_id(right),
    ensures
        left == right,
{
    reveal_strlit("-");
    reveal_strlit("-4000-8000-");
    reveal_strlit("00000000");
    lemma_hex_text(left, 16);
    lemma_hex_text(right, 16);
    let left_digits = hex_text(left, 16);
    let right_digits = hex_text(right, 16);
    let left_id = numbered_id(left);
    let right_id = numbered_id(right);
    assert forall|i: int| 0 <= i < 16 implies left_digits[i] == right_digits[i] by {
        if i < 8 {
            assert(left_id[i] == left_digits[i]);
            assert(right_id[i] == right_digits[i]);
        } else if i < 12 {
            assert(left_id[i + 1] == left_digits[i]);
            assert(right_id[i + 1] == right_digits[i]);
        } else {
            assert(left_id[i + 12] == left_digits[i]);
            assert(right_id[i + 12] == right_digits[i]);
        }
    }
    assert(left_digits =~= right_digits);
    reveal_with_fuel(pow16, 17);
    lemma_hex_text_tells_apart(left, right, 16);
}

/// The digit of the hexadecimal notation for a number under 16, as text.
fn hex_digit(digit: u64) -> (text: &'static str)
    requires
        digit < 16,
    ensures
        text@ == seq![lower_hex(digit as int)],
{
    proof {
        reveal_strlit("0");
        reveal_strlit("1");
        reveal_strlit("2");
        reveal_strlit("3");
        reveal_strlit("4");
        reveal_strlit("5");
        reveal_strlit("6");
        reveal_strlit("7");
        reveal_strlit("8");
        reveal_strlit("9");
        reveal_strlit("a");
        reveal_strlit("b");
        reveal_strlit("c");
        reveal_strlit("d");
        reveal_strlit("e");
        reveal_strlit("f");
    }
    match digit {
        0 => "0",
        1 => "1",
        2 => "2",
        3 => "3",
        4 => "4",
        5 => "5",
        6 => "6",
        7 => "7",
        8 => "8",
        9 => "9",
        10 => "a",
        11 => "b",
        12 => "c",
        13 => "d",
        14 => "e",
        _ => "f",
    }
}

/// The last digits of a number in the hexadecimal notation.
fn hex_digits(number: u64, width: u32) -> (text: String)
    ensures
        text@ == hex_text(number as nat, width as nat),
    decreases width,
{
    if width == 0 {
        String::new()
    } else {
        let rest = hex_digits(number / 16, width - 1);
        join(rest.as_str(), hex_digit(number % 16))
    }
}

/// The id of this number.
pub fn number_id(number: u64) -> (id: String)
    ensures
        id@ == numbered_id(number as nat),
{
    let digits = hex_digits(number, 16);
    proof {
        lemma_hex_text(number as nat, 16);
    }
    let mut id = join(digits.as_str().substring_char(0, 8), "-");
    id = join(id.as_str(), digits.as_str().substring_char(8, 12));
    id = join(id.as_str(), "-4000-8000-");
    id = join(id.as_str(), digits.as_str().substring_char(12, 16));
    join(id.as_str(), "00000000")
}

/// A text has the shape of a random UUID where it has the places for 32 digits and
/// four hyphens between them, and says so itself: that it is of the version that is
/// random, and of the variant that has versions.
pub proof fn law_shape_of_a_random_uuid(text: Seq<char>)
    ensures
        is_random_uuid(text) <==> {
            &&& text.len() == 36
            &&& text[8] == '-' && text[13] == '-' && text[18] == '-' && text[23] == '-'
            &&& text[14] == '4'
            &&& "89ab"@.contains(text[19])
            &&& forall|i: int|
                0 <= i < 36 && i != 8 && i != 13 && i != 18 && i != 23
                    ==> "0123456789abcdef"@.contains(#[trigger] text[i])
        },
{
    reveal_strlit("0123456789abcdef");
    reveal_strlit("89ab");
    let digits = "0123456789abcdef"@;
    let variants = "89ab"@;
    assert forall|c: char| is_uuid_digit(c) implies digits.contains(c) by {
        let at = if c <= '9' {
            c as int - '0' as int
        } else {
            c as int - 'a' as int + 10
        };
        assert(digits[at] == c);
    }
    assert(variants[0] == '8' && variants[1] == '9' && variants[2] == 'a' && variants[3] == 'b');
    assert forall|i: int| 0 <= i < digits.len() implies is_uuid_digit(#[trigger] digits[i]) by {}
    if text.len() == 36 && forall|i: int|
        0 <= i < 36 && i != 8 && i != 13 && i != 18 && i != 23 ==> digits.contains(
            #[trigger] text[i],
        ) {
        assert forall|i: int|
            0 <= i < 36 && i != 8 && i != 13 && i != 18 && i != 23 implies is_uuid_digit(
            #[trigger] text[i],
        ) by {
            assert(digits.contains(text[i]));
        }
    }
}

/// A numbered id holds its number and nothing else: the ids of two numbers that
/// differ only in their last digit differ in one place only, and there have these
/// digits.
pub proof fn law_numbered_id_ends_in_its_last_digit(number: nat, other: nat)
    requires
        number / 16 == other / 16,
    ensures
        numbered_id(number).len() == 36,
        numbered_id(number)[27] == "0123456789abcdef"@[(number % 16) as int],
        numbered_id(other) == numbered_id(number).update(27, numbered_id(other)[27]),
{
    reveal_strlit("0123456789abcdef");
    reveal_strlit("-");
    reveal_strlit("-4000-8000-");
    reveal_strlit("00000000");
    lemma_hex_text(number, 16);
    lemma_hex_text(other, 16);
    let rest = hex_text(number / 16, 15);
    lemma_hex_text(number / 16, 15);
    assert(hex_text(number, 16) == rest.push(lower_hex((number % 16) as int)));
    assert(hex_text(other, 16) == rest.push(lower_hex((other % 16) as int)));
    assert(numbered_id(number)[27] == hex_text(number, 16)[15]);
    let changed = numbered_id(number).update(27, numbered_id(other)[27]);
    assert forall|i: int| 0 <= i < 36 implies numbered_id(other)[i] == #[trigger] changed[i] by {
        if i < 8 {
            assert(numbered_id(number)[i] == rest[i]);
            assert(numbered_id(other)[i] == rest[i]);
        } else if 9 <= i < 13 {
            assert(numbered_id(number)[i] == rest[i - 1]);
            assert(numbered_id(other)[i] == rest[i - 1]);
        } else if 24 <= i < 27 {
            assert(numbered_id(number)[i] == rest[i - 12]);
            assert(numbered_id(other)[i] == rest[i - 12]);
        }
    }
    assert(numbered_id(other) =~= changed);
}

} // verus!
