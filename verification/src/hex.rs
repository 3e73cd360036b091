//! Lower-case hexadecimal rendering of byte strings.

use vstd::prelude::*;

verus! {

/// The lower-case hex digit for a value below 16.
pub open spec fn hex_digit(v: u8) -> char {
    if v < 10 {
        (('0' as u8) + v) as char
    } else {
        (('a' as u8) + (v - 10)) as char
    }
}

/// Two lower-case hex digits per byte, high nibble first.
pub open spec fn spec_hex(data: Seq<u8>) -> Seq<char> {
    Seq::new(
        (2 * data.len()) as nat,
        |i: int|
            if i % 2 == 0 {
                hex_digit(data[i / 2] >> 4)
            } else {
                hex_digit(data[i / 2] & 0x0f)
            },
    )
}

/// `String::push`: appends one character.
#[verifier::external_body]
fn string_push(s: &mut String, c: char)
    ensures
        final(s)@ == old(s)@.push(c),
{
    s.push(c)
}

fn digit(v: u8) -> (c: char)
    requires
        v < 16,
    ensures
        c == hex_digit(v),
{
    if v < 10 {
        (48u8 + v) as char
    } else {
        (97u8 + (v - 10)) as char
    }
}

/// Renders `data` as lower-case hex, two digits per byte.
pub fn hex(data: &[u8]) -> (res: String)
    ensures
        res@ == spec_hex(data@),
{
    let mut res = String::new();
    let n = data.len();
    for i in 0..n
        invariant
            n == data@.len(),
            res@ == spec_hex(data@.subrange(0, i as int)),
    {
        let b = data[i];
        assert(b >> 4 < 16 && b & 0x0f < 16) by (bit_vector);
        string_push(&mut res, digit(b >> 4));
        string_push(&mut res, digit(b & 0x0f));
        assert(res@ =~= spec_hex(data@.subrange(0, i + 1)));
    }
    assert(data@.subrange(0, n as int) =~= data@);
    res
}

proof fn lemma_digit_injective(x: u8, y: u8)
    requires
        x < 16,
        y < 16,
        hex_digit(x) == hex_digit(y),
    ensures
        x == y,
{
}

proof fn lemma_nibbles_determine_byte(x: u8, y: u8)
    requires
        x >> 4 == y >> 4,
        x & 0x0f == y & 0x0f,
    ensures
        x == y,
{
    assert(x >> 4 == y >> 4 && x & 0x0f == y & 0x0f ==> x == y) by (bit_vector);
}

/// Hex text is two digits per byte, each one of `0-9a-f`, and it loses
/// nothing: different byte strings render differently.
pub proof fn law_hex_lossless(a: Seq<u8>, b: Seq<u8>)
    ensures
        spec_hex(a).len() == 2 * a.len(),
        forall|i: int|
            0 <= i < spec_hex(a).len() ==> ('0' <= #[trigger] spec_hex(a)[i] <= '9' || 'a' <= spec_hex(a)[i]
                <= 'f'),
        spec_hex(a) == spec_hex(b) ==> a == b,
{
    assert forall|i: int| 0 <= i < spec_hex(a).len() implies ('0' <= #[trigger] spec_hex(a)[i] <= '9' || 'a'
        <= spec_hex(a)[i] <= 'f') by {
        let x = a[i / 2];
        assert(x >> 4 < 16 && x & 0x0f < 16) by (bit_vector);
    }
    if spec_hex(a) == spec_hex(b) {
        assert(spec_hex(a).len() == spec_hex(b).len());
        assert(a.len() == b.len());
        assert forall|k: int| 0 <= k < a.len() implies a[k] == b[k] by {
            let x = a[k];
            let y = b[k];
            assert(x >> 4 < 16 && x & 0x0f < 16) by (bit_vector);
            assert(y >> 4 < 16 && y & 0x0f < 16) by (bit_vector);
            assert(spec_hex(a)[2 * k] == spec_hex(b)[2 * k]);
            assert(spec_hex(a)[2 * k + 1] == spec_hex(b)[2 * k + 1]);
            lemma_digit_injective(x >> 4, y >> 4);
            lemma_digit_injective(x & 0x0f, y & 0x0f);
            lemma_nibbles_determine_byte(x, y);
        }
        assert(a =~= b);
    }
}

/// The value of a lower-case hex digit.
pub open spec fn digit_value(c: char) -> int {
    if '0' <= c <= '9' {
        c as int - '0' as int
    } else {
        c as int - 'a' as int + 10
    }
}

/// Each byte is written as its high nibble's digit followed by its low
/// nibble's: reading the two digits back gives the byte.
pub proof fn law_hex_digits(data: Seq<u8>, k: int)
    requires
        0 <= k < data.len(),
    ensures
        digit_value(spec_hex(data)[2 * k]) * 16 + digit_value(spec_hex(data)[2 * k + 1]) == data[k] as int,
{
    let b = data[k];
    assert(b >> 4 < 16 && b & 0x0f < 16 && (b >> 4) * 16 + (b & 0x0f) == b) by (bit_vector);
    assert(spec_hex(data)[2 * k] == hex_digit(b >> 4));
    assert(spec_hex(data)[2 * k + 1] == hex_digit(b & 0x0f));
}

} // verus!
