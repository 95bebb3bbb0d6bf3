use vstd::prelude::*;

verus! {

/// Character of the standard base64 alphabet for a six-bit value.
pub open spec fn b64_char(v: int) -> char {
    if 0 <= v < 26 {
        ((65 + v) as u32) as char
    } else if 26 <= v < 52 {
        ((97 + (v - 26)) as u32) as char
    } else if 52 <= v < 62 {
        ((48 + (v - 52)) as u32) as char
    } else if v == 62 {
        '+'
    } else {
        '/'
    }
}

/// Six-bit value of a character of the standard base64 alphabet,
/// or -1 for a character outside it.
pub open spec fn b64_val(c: char) -> int {
    let i = (c as u32) as int;
    if 65 <= i <= 90 {
        i - 65
    } else if 97 <= i <= 122 {
        i - 97 + 26
    } else if 48 <= i <= 57 {
        i - 48 + 52
    } else if i == 43 {
        62
    } else if i == 47 {
        63
    } else {
        -1
    }
}

/// Four output characters for one group of one to three input bytes,
/// padded with '=' as RFC 4648 asks.
pub open spec fn b64_group(b: Seq<u8>) -> Seq<char>
    recommends
        1 <= b.len() <= 3,
{
    let b0 = b[0] as int;
    if b.len() == 1 {
        seq![b64_char(b0 / 4), b64_char((b0 % 4) * 16), '=', '=']
    } else {
        let b1 = b[1] as int;
        if b.len() == 2 {
            seq![
                b64_char(b0 / 4),
                b64_char((b0 % 4) * 16 + b1 / 16),
                b64_char((b1 % 16) * 4),
                '=',
            ]
        } else {
            let b2 = b[2] as int;
            seq![
                b64_char(b0 / 4),
                b64_char((b0 % 4) * 16 + b1 / 16),
                b64_char((b1 % 16) * 4 + b2 / 64),
                b64_char(b2 % 64),
            ]
        }
    }
}

/// Standard base64 (RFC 4648 alphabet, '=' padded) of a byte sequence.
pub open spec fn b64_encode(b: Seq<u8>) -> Seq<char>
    decreases b.len(),
{
    if b.len() == 0 {
        Seq::empty()
    } else if b.len() <= 3 {
        b64_group(b)
    } else {
        b64_group(b.take(3)) + b64_encode(b.skip(3))
    }
}

/// Bytes of one group of four base64 characters, '=' padding honoured.
pub open spec fn b64_degroup(s: Seq<char>) -> Seq<u8>
    recommends
        s.len() == 4,
{
    let v0 = b64_val(s[0]);
    let v1 = b64_val(s[1]);
    if s[2] == '=' {
        seq![(v0 * 4 + v1 / 16) as u8]
    } else {
        let v2 = b64_val(s[2]);
        if s[3] == '=' {
            seq![(v0 * 4 + v1 / 16) as u8, ((v1 % 16) * 16 + v2 / 4) as u8]
        } else {
            let v3 = b64_val(s[3]);
            seq![
                (v0 * 4 + v1 / 16) as u8,
                ((v1 % 16) * 16 + v2 / 4) as u8,
                ((v2 % 4) * 64 + v3) as u8,
            ]
        }
    }
}

/// Decode of '='-padded standard base64, four characters at a time.
pub open spec fn b64_decode(s: Seq<char>) -> Seq<u8>
    decreases s.len(),
{
    if s.len() < 4 {
        Seq::empty()
    } else {
        b64_degroup(s.take(4)) + b64_decode(s.skip(4))
    }
}

proof fn lemma_char_val(v: int)
    requires
        0 <= v < 64,
    ensures
        b64_val(b64_char(v)) == v,
        b64_char(v) != '=',
{
}

proof fn lemma_degroup_group(b: Seq<u8>)
    requires
        1 <= b.len() <= 3,
    ensures
        b64_degroup(b64_group(b)) =~= b,
{
    let b0 = b[0] as int;
    if b.len() == 1 {
        lemma_char_val(b0 / 4);
        lemma_char_val((b0 % 4) * 16);
        assert((b0 / 4) * 4 + ((b0 % 4) * 16) / 16 == b0) by (nonlinear_arith)
            requires
                0 <= b0 < 256,
        ;
    } else if b.len() == 2 {
        let b1 = b[1] as int;
        lemma_char_val(b0 / 4);
        lemma_char_val((b0 % 4) * 16 + b1 / 16);
        lemma_char_val((b1 % 16) * 4);
        assert((b0 / 4) * 4 + ((b0 % 4) * 16 + b1 / 16) / 16 == b0) by (nonlinear_arith)
            requires
                0 <= b0 < 256 && 0 <= b1 < 256,
        ;
        assert((((b0 % 4) * 16 + b1 / 16) % 16) * 16 + ((b1 % 16) * 4) / 4 == b1)
            by (nonlinear_arith)
            requires
                0 <= b0 < 256 && 0 <= b1 < 256,
        ;
    } else {
        let b1 = b[1] as int;
        let b2 = b[2] as int;
        lemma_char_val(b0 / 4);
        lemma_char_val((b0 % 4) * 16 + b1 / 16);
        lemma_char_val((b1 % 16) * 4 + b2 / 64);
        lemma_char_val(b2 % 64);
        assert((b0 / 4) * 4 + ((b0 % 4) * 16 + b1 / 16) / 16 == b0) by (nonlinear_arith)
            requires
                0 <= b0 < 256 && 0 <= b1 < 256,
        ;
        assert((((b0 % 4) * 16 + b1 / 16) % 16) * 16 + ((b1 % 16) * 4 + b2 / 64) / 4 == b1)
            by (nonlinear_arith)
            requires
                0 <= b0 < 256 && 0 <= b1 < 256 && 0 <= b2 < 256,
        ;
        assert((((b1 % 16) * 4 + b2 / 64) % 4) * 64 + b2 % 64 == b2) by (nonlinear_arith)
            requires
                0 <= b1 < 256 && 0 <= b2 < 256,
        ;
    }
}

/// Standard base64 decoding undoes the encoding: every byte sequence
/// comes back from its own encoding unchanged.
pub proof fn lemma_b64_round_trip(b: Seq<u8>)
    ensures
        b64_decode(b64_encode(b)) =~= b,
    decreases b.len(),
{
    if b.len() == 0 {
    } else if b.len() <= 3 {
        lemma_degroup_group(b);
        let s = b64_group(b);
        assert(s.len() == 4);
        assert(s.take(4) =~= s);
        assert(s.skip(4).len() == 0);
        assert(b64_decode(s.skip(4)) =~= Seq::<u8>::empty());
        assert(b64_decode(s) =~= b64_degroup(s) + Seq::<u8>::empty());
        assert(b64_degroup(s) + Seq::<u8>::empty() =~= b64_degroup(s));
    } else {
        let head = b.take(3);
        let tail = b.skip(3);
        lemma_degroup_group(head);
        lemma_b64_round_trip(tail);
        let enc = b64_group(head) + b64_encode(tail);
        assert(enc.take(4) =~= b64_group(head));
        assert(enc.skip(4) =~= b64_encode(tail));
        assert(b64_decode(enc) =~= head + tail);
        assert(head + tail =~= b);
    }
}

/// Relies on base64's `Engine::encode` with the `STANDARD` engine:
/// RFC 4648 standard alphabet with '=' padding.
#[verifier::external_body]
pub(crate) fn encode_standard(b: &[u8]) -> (r: String)
    requires
        (b@.len() + 2) / 3 * 4 <= usize::MAX,
    ensures
        r@ == b64_encode(b@),
{
    base64::Engine::encode(&base64::engine::general_purpose::STANDARD, b)
}

} // verus!
