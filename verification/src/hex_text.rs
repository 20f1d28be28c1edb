//! Lowercase hexadecimal text, as a mathematical function of the bytes it
//! stands for.

use vstd::prelude::*;

verus! {

/// The sixteen lowercase hexadecimal digits, in the order of their values.
pub open spec fn hex_alphabet() -> Seq<char> {
    seq!['0', '1', '2', '3', '4', '5', '6', '7', '8', '9', 'a', 'b', 'c', 'd', 'e', 'f']
}

/// The lowercase hexadecimal spelling of `bytes`: two digits for each byte,
/// the high half first.
pub open spec fn lower_hex(bytes: Seq<u8>) -> Seq<char> {
    Seq::new(
        2 * bytes.len(),
        |i: int|
            hex_alphabet()[if i % 2 == 0 {
                bytes[i / 2] as int / 16
            } else {
                bytes[i / 2] as int % 16
            }],
    )
}

/// Every character of `text` is one of the sixteen lowercase digits.
pub open spec fn is_lower_hex(text: Seq<char>) -> bool {
    forall|i: int| 0 <= i < text.len() ==> hex_alphabet().contains(#[trigger] text[i])
}

/// A spelling is twice as long as the bytes it spells and holds lowercase
/// digits only.
pub proof fn lower_hex_shape(bytes: Seq<u8>)
    ensures
        lower_hex(bytes).len() == 2 * bytes.len(),
        is_lower_hex(lower_hex(bytes)),
{
    let text = lower_hex(bytes);
    assert forall|i: int| 0 <= i < text.len() implies hex_alphabet().contains(
        #[trigger] text[i],
    ) by {
        let byte = bytes[i / 2] as int;
        let digit = if i % 2 == 0 {
            byte / 16
        } else {
            byte % 16
        };
        assert(text[i] == hex_alphabet()[digit]);
    }
}

/// Distinct byte strings have distinct spellings.
pub proof fn lower_hex_is_injective(a: Seq<u8>, b: Seq<u8>)
    requires
        lower_hex(a) == lower_hex(b),
    ensures
        a == b,
{
    assert(lower_hex(a).len() == 2 * a.len());
    assert(lower_hex(b).len() == 2 * b.len());
    assert forall|k: int| 0 <= k < a.len() implies a[k] == b[k] by {
        // The two digits of byte `k` stand at `2 * k` and `2 * k + 1`.
        assert(lower_hex(a)[2 * k] == hex_alphabet()[a[k] as int / 16]);
        assert(lower_hex(b)[2 * k] == hex_alphabet()[b[k] as int / 16]);
        assert(lower_hex(a)[2 * k + 1] == hex_alphabet()[a[k] as int % 16]);
        assert(lower_hex(b)[2 * k + 1] == hex_alphabet()[b[k] as int % 16]);
        digits_are_distinct(a[k] as int / 16, b[k] as int / 16);
        digits_are_distinct(a[k] as int % 16, b[k] as int % 16);
    }
    assert(a =~= b);
}

/// No two values share a digit.
proof fn digits_are_distinct(m: int, n: int)
    requires
        0 <= m < 16,
        0 <= n < 16,
        hex_alphabet()[m] == hex_alphabet()[n],
    ensures
        m == n,
{
}

} // verus!
