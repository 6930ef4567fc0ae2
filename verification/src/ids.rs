//! Game identifiers. A game is known by a UUID; the library holds its 128-bit value.
use vstd::prelude::*;

use std::str::FromStr;
use vstd::utf8::encode_utf8;
use uuid::Uuid;

verus! {

/// The 128-bit value of the UUID that `uuid::Uuid::from_str` reads from `text`, or `None` where
/// it rejects the text.
pub uninterp spec fn parsed_game_id(text: Seq<char>) -> Option<u128>;

/// The value of an ASCII hexadecimal digit, of either case.
pub open spec fn hex_digit_value(b: u8) -> Option<int> {
    if 48 <= b <= 57 {
        Some(b - 48)
    } else if 97 <= b <= 102 {
        Some(b - 87)
    } else if 65 <= b <= 70 {
        Some(b - 55)
    } else {
        None
    }
}

/// Whether every byte of `digits` is a hexadecimal digit.
pub open spec fn all_hex_digits(digits: Seq<u8>) -> bool {
    forall|i: int| 0 <= i < digits.len() ==> #[trigger] hex_digit_value(digits[i]) is Some
}

/// The number that the hexadecimal digits `digits` write, most significant digit first.
pub open spec fn hex_digits_value(digits: Seq<u8>) -> int
    decreases digits.len(),
{
    if digits.len() == 0 {
        0
    } else {
        let last = match hex_digit_value(digits.last()) {
            Some(v) => v,
            None => 0,
        };
        hex_digits_value(digits.drop_last()) * 16 + last
    }
}

/// The position, in a hyphenated UUID (`xxxxxxxx-xxxx-xxxx-xxxx-xxxxxxxxxxxx`), of its `k`-th
/// hexadecimal digit.
pub open spec fn hyphenated_position(k: int) -> int {
    if k < 8 {
        k
    } else if k < 12 {
        k + 1
    } else if k < 16 {
        k + 2
    } else if k < 20 {
        k + 3
    } else {
        k + 4
    }
}

/// The 32 digit bytes of a hyphenated UUID text: 36 bytes with hyphens at positions 8, 13, 18
/// and 23.
pub open spec fn hyphenated_digits(s: Seq<u8>) -> Option<Seq<u8>> {
    if s.len() == 36 && s[8] == 45u8 && s[13] == 45u8 && s[18] == 45u8 && s[23] == 45u8 {
        Some(Seq::new(32, |k: int| s[hyphenated_position(k)]))
    } else {
        None
    }
}

/// An ASCII byte in lower case.
pub open spec fn ascii_lowercase(b: u8) -> u8 {
    if 65 <= b <= 90 {
        (b + 32) as u8
    } else {
        b
    }
}

/// The bytes of `urn:uuid:`.
pub open spec fn urn_prefix() -> Seq<u8> {
    seq![117u8, 114u8, 110u8, 58u8, 117u8, 117u8, 105u8, 100u8, 58u8]
}

/// The 32 digit bytes of a UUID text in one of the forms `uuid` reads: simple (32 digits),
/// hyphenated, braced (`{` hyphenated `}`), or URN (`urn:uuid:`, in any case, then hyphenated).
/// Any other shape has none.
pub open spec fn uuid_text_digits(text: Seq<u8>) -> Option<Seq<u8>> {
    if text.len() == 32 {
        Some(text)
    } else if text.len() == 36 {
        hyphenated_digits(text)
    } else if text.len() == 38 && text[0] == 123u8 && text[37] == 125u8 {
        hyphenated_digits(text.subrange(1, 37))
    } else if text.len() == 45 && text.subrange(0, 9).map_values(|b: u8| ascii_lowercase(b))
        == urn_prefix() {
        hyphenated_digits(text.subrange(9, 45))
    } else {
        None
    }
}

/// The value of the UUID written by the UTF-8 bytes `text`: the number its 32 hexadecimal
/// digits write, of either case; `None` where the text has none of the forms, or a digit byte is
/// not a hexadecimal digit.
pub open spec fn uuid_text_value(text: Seq<u8>) -> Option<u128> {
    match uuid_text_digits(text) {
        Some(digits) => if all_hex_digits(digits) {
            Some(hex_digits_value(digits) as u128)
        } else {
            None
        },
        None => None,
    }
}

/// Reads a game id with `uuid::Uuid::from_str`. The contract states what the source of
/// `Uuid::parse_str` shows: it reads the text's bytes in the simple, hyphenated, braced or URN
/// form (the URN prefix in any case), decodes hexadecimal digits of either case, rejects any
/// other shape and any other byte, and `as_u128` reads the 16 bytes big-endian.
#[verifier::external_body]
pub(crate) fn parse_game_id(text: &str) -> (id: Option<u128>)
    ensures
        id == parsed_game_id(text@),
        id == uuid_text_value(encode_utf8(text@)),
{
    match Uuid::from_str(text) {
        Ok(uuid) => Some(uuid.as_u128()),
        Err(_) => None,
    }
}

/// Whether two byte sequences are equal when ASCII letters are compared regardless of case.
pub open spec fn same_ignoring_case(a: Seq<u8>, b: Seq<u8>) -> bool {
    &&& a.len() == b.len()
    &&& forall|i: int| 0 <= i < a.len() ==> ascii_lowercase(#[trigger] a[i]) == ascii_lowercase(b[i])
}

/// The hyphenated text of the 32 digit bytes `digits`.
pub open spec fn hyphenate(digits: Seq<u8>) -> Seq<u8> {
    Seq::new(
        36,
        |k: int|
            if k == 8 || k == 13 || k == 18 || k == 23 {
                45u8
            } else if k < 8 {
                digits[k]
            } else if k < 13 {
                digits[k - 1]
            } else if k < 18 {
                digits[k - 2]
            } else if k < 23 {
                digits[k - 3]
            } else {
                digits[k - 4]
            },
    )
}

/// Sixteen to the power `n`.
pub open spec fn pow16(n: nat) -> int
    decreases n,
{
    if n == 0 {
        1
    } else {
        16 * pow16((n - 1) as nat)
    }
}

proof fn lemma_hex_digit_ignores_case(b: u8)
    ensures
        hex_digit_value(b) == hex_digit_value(ascii_lowercase(b)),
{
}

proof fn lemma_same_digits(a: Seq<u8>, b: Seq<u8>)
    requires
        a.len() == b.len(),
        forall|i: int| 0 <= i < a.len() ==> hex_digit_value(#[trigger] a[i]) == hex_digit_value(b[i]),
    ensures
        all_hex_digits(a) == all_hex_digits(b),
        hex_digits_value(a) == hex_digits_value(b),
    decreases a.len(),
{
    if a.len() > 0 {
        lemma_same_digits(a.drop_last(), b.drop_last());
        assert(hex_digit_value(a[a.len() - 1]) == hex_digit_value(b[b.len() - 1]));
    }
    if all_hex_digits(a) {
        assert forall|i: int| 0 <= i < b.len() implies #[trigger] hex_digit_value(b[i]) is Some by {
            assert(hex_digit_value(a[i]) is Some);
        }
    }
    if all_hex_digits(b) {
        assert forall|i: int| 0 <= i < a.len() implies #[trigger] hex_digit_value(a[i]) is Some by {
            assert(hex_digit_value(b[i]) is Some);
        }
    }
}

proof fn lemma_hyphenated_ignores_case(a: Seq<u8>, b: Seq<u8>)
    requires
        same_ignoring_case(a, b),
    ensures
        hyphenated_digits(a) is Some <==> hyphenated_digits(b) is Some,
        hyphenated_digits(a) matches Some(da) ==> hyphenated_digits(b) matches Some(db)
            && same_ignoring_case(da, db),
{
    if a.len() == 36 {
        assert(ascii_lowercase(a[8]) == ascii_lowercase(b[8]));
        assert(ascii_lowercase(a[13]) == ascii_lowercase(b[13]));
        assert(ascii_lowercase(a[18]) == ascii_lowercase(b[18]));
        assert(ascii_lowercase(a[23]) == ascii_lowercase(b[23]));
        if let Some(da) = hyphenated_digits(a) {
            let db = hyphenated_digits(b).unwrap();
            assert forall|k: int| 0 <= k < da.len() implies ascii_lowercase(#[trigger] da[k])
                == ascii_lowercase(db[k]) by {
                assert(ascii_lowercase(a[hyphenated_position(k)]) == ascii_lowercase(
                    b[hyphenated_position(k)],
                ));
            }
        }
    }
}

/// Game ids are read regardless of the case of their letters: two texts whose bytes differ only
/// in the case of ASCII letters (in the hexadecimal digits, or in the `urn:uuid:` prefix) name
/// the same game, or are both rejected.
pub proof fn lemma_game_id_ignores_case(a: Seq<u8>, b: Seq<u8>)
    requires
        same_ignoring_case(a, b),
    ensures
        uuid_text_value(a) == uuid_text_value(b),
{
    let da = uuid_text_digits(a);
    let db = uuid_text_digits(b);
    if a.len() == 32 {
    } else if a.len() == 36 {
        lemma_hyphenated_ignores_case(a, b);
    } else if a.len() == 38 {
        assert(ascii_lowercase(a[0]) == ascii_lowercase(b[0]));
        assert(ascii_lowercase(a[37]) == ascii_lowercase(b[37]));
        lemma_hyphenated_ignores_case(a.subrange(1, 37), b.subrange(1, 37));
    } else if a.len() == 45 {
        let pa = a.subrange(0, 9).map_values(|x: u8| ascii_lowercase(x));
        let pb = b.subrange(0, 9).map_values(|x: u8| ascii_lowercase(x));
        assert(pa =~= pb) by {
            assert forall|i: int| 0 <= i < 9 implies pa[i] == pb[i] by {
                assert(ascii_lowercase(a[i]) == ascii_lowercase(b[i]));
            }
        }
        lemma_hyphenated_ignores_case(a.subrange(9, 45), b.subrange(9, 45));
    }
    if da is Some {
        let x = da.unwrap();
        let y = db.unwrap();
        assert forall|i: int| 0 <= i < x.len() implies hex_digit_value(#[trigger] x[i])
            == hex_digit_value(y[i]) by {
            lemma_hex_digit_ignores_case(x[i]);
            lemma_hex_digit_ignores_case(y[i]);
        }
        lemma_same_digits(x, y);
    }
}

/// The number written by `n` hexadecimal digits is below sixteen to the power `n`; for the 32
/// digits of a UUID, it is below 2^128.
pub proof fn lemma_hex_value_bound(digits: Seq<u8>)
    requires
        all_hex_digits(digits),
    ensures
        0 <= hex_digits_value(digits) < pow16(digits.len()),
        digits.len() == 32 ==> hex_digits_value(digits) <= u128::MAX,
    decreases digits.len(),
{
    if digits.len() > 0 {
        let rest = digits.drop_last();
        assert(all_hex_digits(rest)) by {
            assert forall|i: int| 0 <= i < rest.len() implies #[trigger] hex_digit_value(rest[i])
                is Some by {
                assert(hex_digit_value(digits[i]) is Some);
            }
        }
        assert(hex_digit_value(digits[digits.len() - 1]) is Some);
        lemma_hex_value_bound(rest);
    }
    if digits.len() == 32 {
        assert(pow16(32) == 0x1_0000_0000_0000_0000_0000_0000_0000_0000) by {
            reveal_with_fuel(pow16, 33);
        }
    }
}

/// The four textual forms of a UUID name the same game: the 32 hexadecimal digits `digits` on
/// their own, hyphenated, braced, and as a URN all read as the number the digits write, and all
/// are rejected if a digit byte is not a hexadecimal digit.
pub proof fn lemma_game_id_forms(digits: Seq<u8>)
    requires
        digits.len() == 32,
    ensures
        ({
            let value = if all_hex_digits(digits) {
                Some(hex_digits_value(digits) as u128)
            } else {
                None
            };
            &&& uuid_text_value(digits) == value
            &&& uuid_text_value(hyphenate(digits)) == value
            &&& uuid_text_value(seq![123u8] + hyphenate(digits) + seq![125u8]) == value
            &&& uuid_text_value(urn_prefix() + hyphenate(digits)) == value
        }),
        all_hex_digits(digits) ==> hex_digits_value(digits) <= u128::MAX,
{
    let h = hyphenate(digits);
    assert(hyphenated_digits(h) == Some(digits)) by {
        assert(Seq::new(32, |k: int| h[hyphenated_position(k)]) =~= digits);
    }
    let braced = seq![123u8] + h + seq![125u8];
    assert(braced.subrange(1, 37) =~= h);
    let urn = urn_prefix() + h;
    assert(urn.subrange(9, 45) =~= h);
    assert(urn.subrange(0, 9).map_values(|b: u8| ascii_lowercase(b)) =~= urn_prefix());
    if all_hex_digits(digits) {
        lemma_hex_value_bound(digits);
    }
}

/// Draws a fresh game id with `uuid::Uuid::new_v4`, from the operating system's randomness.
/// Whatever is drawn, the id is that of a version 4 UUID of the RFC 4122 variant: `new_v4` masks
/// the random value and sets the version nibble to 4 and the two top variant bits to `10`, and
/// `as_u128` reads the bytes big-endian. Nothing else is stated of the value.
#[verifier::external_body]
pub(crate) fn new_game_id() -> (id: u128)
    ensures
        id & 0xF000_C000_0000_0000_0000u128 == 0x4000_8000_0000_0000_0000u128,
{
    Uuid::new_v4().as_u128()
}

} // verus!
