//! Standard base64 encoding (RFC 4648, with padding), used to turn
//! `username:password` pairs into Basic-Auth credentials.
use vstd::prelude::*;

verus! {

/// The 64 digits of the standard base64 alphabet, in value order.
pub const BASE64_ALPHABET: [char; 64] = [
    'A', 'B', 'C', 'D', 'E', 'F', 'G', 'H', 'I', 'J', 'K', 'L', 'M', 'N', 'O', 'P',
    'Q', 'R', 'S', 'T', 'U', 'V', 'W', 'X', 'Y', 'Z', 'a', 'b', 'c', 'd', 'e', 'f',
    'g', 'h', 'i', 'j', 'k', 'l', 'm', 'n', 'o', 'p', 'q', 'r', 's', 't', 'u', 'v',
    'w', 'x', 'y', 'z', '0', '1', '2', '3', '4', '5', '6', '7', '8', '9', '+', '/',
];

/// The standard base64 encoding of a byte sequence: each group of three
/// bytes becomes four alphabet characters; a trailing group of one or two
/// bytes is padded with `=` to a full group of four.
pub open spec fn base64_encode(s: Seq<u8>) -> Seq<char>
    decreases s.len(),
{
    if s.len() == 0 {
        seq![]
    } else if s.len() == 1 {
        seq![
            BASE64_ALPHABET@[(s[0] >> 2) as int],
            BASE64_ALPHABET@[((s[0] & 3) << 4) as int],
            '=',
            '=',
        ]
    } else if s.len() == 2 {
        seq![
            BASE64_ALPHABET@[(s[0] >> 2) as int],
            BASE64_ALPHABET@[(((s[0] & 3) << 4) | (s[1] >> 4)) as int],
            BASE64_ALPHABET@[((s[1] & 15) << 2) as int],
            '=',
        ]
    } else {
        seq![
            BASE64_ALPHABET@[(s[0] >> 2) as int],
            BASE64_ALPHABET@[(((s[0] & 3) << 4) | (s[1] >> 4)) as int],
            BASE64_ALPHABET@[(((s[1] & 15) << 2) | (s[2] >> 6)) as int],
            BASE64_ALPHABET@[(s[2] & 63) as int],
        ] + base64_encode(s.skip(3))
    }
}

/// The encoding of a non-empty input is non-empty (it holds at least one
/// four-character group).
pub proof fn lemma_base64_encode_nonempty(s: Seq<u8>)
    requires
        s.len() > 0,
    ensures
        base64_encode(s).len() >= 4,
{
}

/// Relies on `String::push`: appends the given character to the end of the
/// string.
#[verifier::external_body]
fn push_char(s: &mut String, c: char)
    ensures
        final(s)@ == old(s)@ + seq![c],
{
    s.push(c);
}

/// Encode a byte slice as a standard base64 string with padding.
pub fn base64_encode_bytes(bytes: &[u8]) -> (r: String)
    ensures
        r@ == base64_encode(bytes@),
{
    let n = bytes.len();
    let mut r = String::new();
    let mut i: usize = 0;
    assert(bytes@.skip(0) == bytes@);
    while n - i >= 3
        invariant
            i <= n,
            n == bytes@.len(),
            base64_encode(bytes@) =~= r@ + base64_encode(bytes@.skip(i as int)),
        decreases n - i,
    {
        let b0 = bytes[i];
        let b1 = bytes[i + 1];
        let b2 = bytes[i + 2];
        assert(b0 >> 2 < 64 && ((b0 & 3) << 4) | (b1 >> 4) < 64 && ((b1 & 15) << 2) | (b2 >> 6)
            < 64 && b2 & 63 < 64) by (bit_vector);
        push_char(&mut r, BASE64_ALPHABET[(b0 >> 2) as usize]);
        push_char(&mut r, BASE64_ALPHABET[(((b0 & 3) << 4) | (b1 >> 4)) as usize]);
        push_char(&mut r, BASE64_ALPHABET[(((b1 & 15) << 2) | (b2 >> 6)) as usize]);
        push_char(&mut r, BASE64_ALPHABET[(b2 & 63) as usize]);
        proof {
            assert(bytes@.skip(i as int).skip(3) =~= bytes@.skip(i + 3));
        }
        i = i + 3;
    }
    if n - i == 2 {
        let b0 = bytes[i];
        let b1 = bytes[i + 1];
        assert(b0 >> 2 < 64 && ((b0 & 3) << 4) | (b1 >> 4) < 64 && (b1 & 15) << 2 < 64)
            by (bit_vector);
        push_char(&mut r, BASE64_ALPHABET[(b0 >> 2) as usize]);
        push_char(&mut r, BASE64_ALPHABET[(((b0 & 3) << 4) | (b1 >> 4)) as usize]);
        push_char(&mut r, BASE64_ALPHABET[((b1 & 15) << 2) as usize]);
        push_char(&mut r, '=');
    } else if n - i == 1 {
        let b0 = bytes[i];
        assert(b0 >> 2 < 64 && (b0 & 3) << 4 < 64) by (bit_vector);
        push_char(&mut r, BASE64_ALPHABET[(b0 >> 2) as usize]);
        push_char(&mut r, BASE64_ALPHABET[((b0 & 3) << 4) as usize]);
        push_char(&mut r, '=');
        push_char(&mut r, '=');
    } else {
        assert(bytes@.skip(i as int) =~= Seq::<u8>::empty());
    }
    r
}

} // verus!
