//! URL-safe base64 without padding: the content-addressed name of a stored
//! download is this encoding of the source URL's bytes.
use vstd::prelude::*;
use vstd::string::StringSliceAdditionalSpecFns;

verus! {

/// Largest input length the encoder accepts; keeps the output length within
/// `usize` on any machine.
pub const B64_INPUT_MAX: usize = usize::MAX / 2;

/// The URL-safe base64 alphabet, as an ASCII code: `A-Z`, `a-z`, `0-9`, `-`, `_`.
pub open spec fn b64_digit(v: int) -> u8 {
    if v < 26 {
        (v + 65) as u8
    } else if v < 52 {
        (v + 71) as u8
    } else if v < 62 {
        (v - 4) as u8
    } else if v == 62 {
        45u8
    } else {
        95u8
    }
}

/// Unpadded URL-safe base64 of a byte sequence, as ASCII codes.
pub open spec fn b64_bytes(s: Seq<u8>) -> Seq<u8>
    decreases s.len(),
{
    if s.len() == 0 {
        Seq::<u8>::empty()
    } else if s.len() == 1 {
        seq![b64_digit(s[0] as int / 4), b64_digit((s[0] as int % 4) * 16)]
    } else if s.len() == 2 {
        seq![
            b64_digit(s[0] as int / 4),
            b64_digit((s[0] as int % 4) * 16 + s[1] as int / 16),
            b64_digit((s[1] as int % 16) * 4),
        ]
    } else {
        seq![
            b64_digit(s[0] as int / 4),
            b64_digit((s[0] as int % 4) * 16 + s[1] as int / 16),
            b64_digit((s[1] as int % 16) * 4 + s[2] as int / 64),
            b64_digit(s[2] as int % 64),
        ] + b64_bytes(s.skip(3))
    }
}

/// The same encoding as a character sequence (every code is ASCII).
pub open spec fn b64_chars(s: Seq<u8>) -> Seq<char> {
    b64_bytes(s).map(|i: int, b: u8| b as char)
}

proof fn lemma_b64_digit_inj(v1: int, v2: int)
    requires
        0 <= v1 < 64,
        0 <= v2 < 64,
        b64_digit(v1) == b64_digit(v2),
    ensures
        v1 == v2,
{
}

proof fn lemma_b64_len(s: Seq<u8>)
    ensures
        s.len() % 3 == 0 ==> b64_bytes(s).len() == s.len() / 3 * 4,
        s.len() % 3 == 1 ==> b64_bytes(s).len() == s.len() / 3 * 4 + 2,
        s.len() % 3 == 2 ==> b64_bytes(s).len() == s.len() / 3 * 4 + 3,
    decreases s.len(),
{
    if s.len() >= 3 {
        lemma_b64_len(s.skip(3));
    }
}

proof fn lemma_b64_len_inj(x: Seq<u8>, y: Seq<u8>)
    requires
        b64_bytes(x).len() == b64_bytes(y).len(),
    ensures
        x.len() == y.len(),
{
    lemma_b64_len(x);
    lemma_b64_len(y);
}

/// The encoding of byte sequences loses nothing: equal encodings come only
/// from equal inputs.
pub proof fn lemma_b64_bytes_injective(x: Seq<u8>, y: Seq<u8>)
    requires
        b64_bytes(x) == b64_bytes(y),
    ensures
        x == y,
    decreases x.len(),
{
    lemma_b64_len_inj(x, y);
    if x.len() == 0 {
        assert(x =~= y);
    } else if x.len() == 1 {
        lemma_b64_digit_inj(x[0] as int / 4, y[0] as int / 4);
        lemma_b64_digit_inj((x[0] as int % 4) * 16, (y[0] as int % 4) * 16);
        assert(x =~= y);
    } else if x.len() == 2 {
        lemma_b64_digit_inj(x[0] as int / 4, y[0] as int / 4);
        lemma_b64_digit_inj(
            (x[0] as int % 4) * 16 + x[1] as int / 16,
            (y[0] as int % 4) * 16 + y[1] as int / 16,
        );
        lemma_b64_digit_inj((x[1] as int % 16) * 4, (y[1] as int % 16) * 4);
        assert(x =~= y);
    } else {
        let xr = b64_bytes(x.skip(3));
        let yr = b64_bytes(y.skip(3));
        let gx = seq![
            b64_digit(x[0] as int / 4),
            b64_digit((x[0] as int % 4) * 16 + x[1] as int / 16),
            b64_digit((x[1] as int % 16) * 4 + x[2] as int / 64),
            b64_digit(x[2] as int % 64),
        ];
        let gy = seq![
            b64_digit(y[0] as int / 4),
            b64_digit((y[0] as int % 4) * 16 + y[1] as int / 16),
            b64_digit((y[1] as int % 16) * 4 + y[2] as int / 64),
            b64_digit(y[2] as int % 64),
        ];
        assert(b64_bytes(x) == gx + xr);
        assert(b64_bytes(y) == gy + yr);
        assert(gx[0] == (gx + xr)[0] && gx[1] == (gx + xr)[1] && gx[2] == (gx + xr)[2] && gx[3]
            == (gx + xr)[3]);
        assert(gy[0] == (gy + yr)[0] && gy[1] == (gy + yr)[1] && gy[2] == (gy + yr)[2] && gy[3]
            == (gy + yr)[3]);
        lemma_b64_digit_inj(x[0] as int / 4, y[0] as int / 4);
        lemma_b64_digit_inj(
            (x[0] as int % 4) * 16 + x[1] as int / 16,
            (y[0] as int % 4) * 16 + y[1] as int / 16,
        );
        lemma_b64_digit_inj(
            (x[1] as int % 16) * 4 + x[2] as int / 64,
            (y[1] as int % 16) * 4 + y[2] as int / 64,
        );
        lemma_b64_digit_inj(x[2] as int % 64, y[2] as int % 64);
        assert(xr =~= yr) by {
            assert forall|i: int| 0 <= i < xr.len() implies xr[i] == yr[i] by {
                assert(xr[i] == b64_bytes(x)[i + 4]);
                assert(yr[i] == b64_bytes(y)[i + 4]);
            }
        }
        lemma_b64_bytes_injective(x.skip(3), y.skip(3));
        assert(x =~= y) by {
            assert forall|i: int| 0 <= i < x.len() implies x[i] == y[i] by {
                if i >= 3 {
                    assert(x[i] == x.skip(3)[i - 3]);
                    assert(y[i] == y.skip(3)[i - 3]);
                }
            }
        }
    }
}

/// Equal character-level encodings come only from equal byte inputs.
pub proof fn lemma_b64_chars_injective(x: Seq<u8>, y: Seq<u8>)
    requires
        b64_chars(x) == b64_chars(y),
    ensures
        x == y,
{
    let xb = b64_bytes(x);
    let yb = b64_bytes(y);
    assert(b64_chars(x).len() == xb.len());
    assert(b64_chars(y).len() == yb.len());
    assert(xb.len() == yb.len());
    assert(xb =~= yb) by {
        assert forall|i: int| 0 <= i < xb.len() implies xb[i] == yb[i] by {
            assert(b64_chars(x)[i] == b64_chars(y)[i]);
            assert(b64_chars(x)[i] == (xb[i] as char));
            assert(b64_chars(y)[i] == (yb[i] as char));
            assert((xb[i] as char) as u32 == xb[i] as u32);
            assert((yb[i] as char) as u32 == yb[i] as u32);
        }
    }
    lemma_b64_bytes_injective(x, y);
}

/// Law: the content-addressed name is a function of the URL alone, and it is
/// injective — two URLs with the same encoded name are the same URL.
pub proof fn lemma_encoded_name_injective(u1: Seq<char>, u2: Seq<char>)
    requires
        b64_chars(vstd::utf8::encode_utf8(u1)) == b64_chars(vstd::utf8::encode_utf8(u2)),
    ensures
        u1 == u2,
{
    lemma_b64_chars_injective(vstd::utf8::encode_utf8(u1), vstd::utf8::encode_utf8(u2));
    vstd::utf8::encode_utf8_decode_utf8(u1);
    vstd::utf8::encode_utf8_decode_utf8(u2);
}

/// Relies on the base64 crate: `URL_SAFE_NO_PAD.encode` produces exactly the
/// unpadded URL-safe base64 encoding of the input bytes.
#[verifier::external_body]
fn b64_url_encode(b: &[u8]) -> (r: String)
    requires
        b@.len() <= B64_INPUT_MAX,
    ensures
        r@ == b64_chars(b@),
{
    base64::Engine::encode(&base64::engine::general_purpose::URL_SAFE_NO_PAD, b)
}

/// The content-addressed name of a URL: unpadded URL-safe base64 of its bytes.
pub fn encoded_name(url: &str) -> (r: String)
    requires
        url.spec_bytes().len() <= B64_INPUT_MAX,
    ensures
        r@ == b64_chars(url.spec_bytes()),
{
    b64_url_encode(url.as_bytes())
}

} // verus!
