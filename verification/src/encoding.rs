//! Lowercase hexadecimal text of byte strings.

use vstd::prelude::*;

verus! {

/// The lowercase hex digit of a nibble (`0..=15`).
pub open spec fn hex_digit(nibble: u8) -> char {
    if nibble < 10 {
        (nibble + 48) as char
    } else {
        (nibble + 87) as char
    }
}

/// Two lowercase hex digits per byte, high nibble first.
pub open spec fn hex_lower(data: Seq<u8>) -> Seq<char> {
    Seq::new(
        2 * data.len(),
        |i: int|
            if i % 2 == 0 {
                hex_digit(data[i / 2] / 16)
            } else {
                hex_digit(data[i / 2] % 16)
            },
    )
}

/// `hex::encode` writes each byte as two lowercase hex digits, high nibble
/// first; this is all its contract claims.
#[verifier::external_body]
pub(crate) fn hex_encode(data: &[u8]) -> (text: String)
    ensures
        text@ == hex_lower(data@),
{
    hex::encode(data)
}

/// A lowercase hex digit: `0`-`9` or `a`-`f`.
pub open spec fn is_hex_char(c: char) -> bool {
    (48 <= c as int <= 57) || (97 <= c as int <= 102)
}

/// Hex text has two digits per byte, each a lowercase hex digit.
pub proof fn lemma_hex_lower_shape(data: Seq<u8>)
    ensures
        hex_lower(data).len() == 2 * data.len(),
        forall|i: int| 0 <= i < hex_lower(data).len() ==> is_hex_char(#[trigger] hex_lower(data)[i]),
{
    assert forall|i: int| 0 <= i < hex_lower(data).len() implies is_hex_char(
        #[trigger] hex_lower(data)[i],
    ) by {
        let b = data[i / 2];
        assert(b / 16 < 16 && b % 16 < 16);
    }
}

proof fn lemma_hex_digit_injective(a: u8, b: u8)
    requires
        a < 16,
        b < 16,
        hex_digit(a) == hex_digit(b),
    ensures
        a == b,
{
    assert((hex_digit(a) as int) == (hex_digit(b) as int));
}

/// Distinct byte strings have distinct hex text.
pub proof fn lemma_hex_lower_injective(a: Seq<u8>, b: Seq<u8>)
    requires
        hex_lower(a) == hex_lower(b),
    ensures
        a == b,
{
    assert(hex_lower(a).len() == 2 * a.len());
    assert(hex_lower(b).len() == 2 * b.len());
    assert(a.len() == b.len());
    assert forall|k: int| 0 <= k < a.len() implies a[k] == b[k] by {
        assert((2 * k) % 2 == 0 && (2 * k) / 2 == k);
        assert((2 * k + 1) % 2 == 1 && (2 * k + 1) / 2 == k);
        assert(hex_lower(a)[2 * k] == hex_digit(a[k] / 16));
        assert(hex_lower(b)[2 * k] == hex_digit(b[k] / 16));
        assert(hex_lower(a)[2 * k + 1] == hex_digit(a[k] % 16));
        assert(hex_lower(b)[2 * k + 1] == hex_digit(b[k] % 16));
        lemma_hex_digit_injective(a[k] / 16, b[k] / 16);
        lemma_hex_digit_injective(a[k] % 16, b[k] % 16);
        assert(a[k] == (a[k] / 16) * 16 + a[k] % 16);
        assert(b[k] == (b[k] / 16) * 16 + b[k] % 16);
    }
    assert(a =~= b);
}

} // verus!
