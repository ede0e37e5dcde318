use vstd::prelude::*;

verus! {

/// The HMAC-SHA-256 digest of `data` under `key`: a function of the two
/// arguments alone.
pub uninterp spec fn hmac_sha256_of(key: Seq<u8>, data: Seq<u8>) -> Seq<u8>;

/// Relies on hmac::Hmac over sha2::Sha256: the digest is a function of key
/// and data alone and is 32 bytes long, and a key of any length is accepted,
/// so the keyed-hash computation always succeeds.
#[verifier::external_body]
pub(crate) fn hmac_sha256(key: &[u8], data: &[u8]) -> (r: Result<Vec<u8>, ()>)
    ensures
        r is Ok,
        r matches Ok(d) ==> d@ == hmac_sha256_of(key@, data@) && d@.len() == 32,
{
    let mut mac = match <hmac::Hmac<sha2::Sha256> as hmac::Mac>::new_from_slice(key) {
        Ok(m) => m,
        Err(_) => {
            return Err(());
        },
    };
    hmac::Mac::update(&mut mac, data);
    Ok(hmac::Mac::finalize(mac).into_bytes().to_vec())
}

/// The lowercase hexadecimal digit for a nibble value.
pub open spec fn spec_hex_digit(d: u8) -> char {
    if d == 0 {
        '0'
    } else if d == 1 {
        '1'
    } else if d == 2 {
        '2'
    } else if d == 3 {
        '3'
    } else if d == 4 {
        '4'
    } else if d == 5 {
        '5'
    } else if d == 6 {
        '6'
    } else if d == 7 {
        '7'
    } else if d == 8 {
        '8'
    } else if d == 9 {
        '9'
    } else if d == 10 {
        'a'
    } else if d == 11 {
        'b'
    } else if d == 12 {
        'c'
    } else if d == 13 {
        'd'
    } else if d == 14 {
        'e'
    } else {
        'f'
    }
}

/// Lowercase hexadecimal rendering: two digits per byte, high nibble first.
pub open spec fn spec_hex_encode(bytes: Seq<u8>) -> Seq<char> {
    Seq::new(
        bytes.len() * 2,
        |i: int|
            if i % 2 == 0 {
                spec_hex_digit(bytes[i / 2] >> 4)
            } else {
                spec_hex_digit(bytes[i / 2] & 0xf)
            },
    )
}

/// Relies on hex::encode: two lowercase hexadecimal digits per input byte,
/// high nibble first.
#[verifier::external_body]
pub(crate) fn hex_encode(data: &[u8]) -> (r: String)
    ensures
        r@ == spec_hex_encode(data@),
{
    hex::encode(data)
}

/// Relies on subtle::ConstantTimeEq for byte slices: true exactly when the
/// slices have the same length and contents, evaluated in constant time over
/// the contents.
#[verifier::external_body]
pub(crate) fn ct_eq_bytes(a: &[u8], b: &[u8]) -> (r: bool)
    ensures
        r <==> a@ == b@,
{
    subtle::ConstantTimeEq::ct_eq(a, b).into()
}

/// The nibble a lowercase hexadecimal digit stands for.
pub open spec fn spec_hex_digit_val(c: char) -> u8 {
    if c == '0' {
        0
    } else if c == '1' {
        1
    } else if c == '2' {
        2
    } else if c == '3' {
        3
    } else if c == '4' {
        4
    } else if c == '5' {
        5
    } else if c == '6' {
        6
    } else if c == '7' {
        7
    } else if c == '8' {
        8
    } else if c == '9' {
        9
    } else if c == 'a' {
        10
    } else if c == 'b' {
        11
    } else if c == 'c' {
        12
    } else if c == 'd' {
        13
    } else if c == 'e' {
        14
    } else {
        15
    }
}

proof fn lemma_hex_digit_roundtrip(d: u8)
    requires
        d < 16,
    ensures
        spec_hex_digit_val(spec_hex_digit(d)) == d,
{
}

/// Hexadecimal rendering is injective: equal renderings come from equal
/// byte sequences.
pub proof fn lemma_hex_encode_injective(a: Seq<u8>, b: Seq<u8>)
    requires
        spec_hex_encode(a) == spec_hex_encode(b),
    ensures
        a == b,
{
    assert(spec_hex_encode(a).len() == a.len() * 2);
    assert(spec_hex_encode(b).len() == b.len() * 2);
    assert(a.len() == b.len());
    assert forall|i: int| 0 <= i < a.len() implies a[i] == b[i] by {
        assert((2 * i) % 2 == 0 && (2 * i) / 2 == i && (2 * i + 1) % 2 == 1 && (2 * i + 1) / 2
            == i) by (nonlinear_arith);
        assert(spec_hex_encode(a)[2 * i] == spec_hex_encode(b)[2 * i]);
        assert(spec_hex_encode(a)[2 * i + 1] == spec_hex_encode(b)[2 * i + 1]);
        let x = a[i];
        let y = b[i];
        assert(spec_hex_encode(a)[2 * i] == spec_hex_digit(x >> 4));
        assert(spec_hex_encode(a)[2 * i + 1] == spec_hex_digit(x & 0xf));
        assert(spec_hex_encode(b)[2 * i] == spec_hex_digit(y >> 4));
        assert(spec_hex_encode(b)[2 * i + 1] == spec_hex_digit(y & 0xf));
        assert((x >> 4) < 16 && (x & 0xf) < 16 && (y >> 4) < 16 && (y & 0xf) < 16) by (bit_vector);
        lemma_hex_digit_roundtrip(x >> 4);
        lemma_hex_digit_roundtrip(x & 0xf);
        lemma_hex_digit_roundtrip(y >> 4);
        lemma_hex_digit_roundtrip(y & 0xf);
        assert(x >> 4 == y >> 4 && x & 0xf == y & 0xf ==> x == y) by (bit_vector);
    }
    assert(a =~= b);
}

} // verus!
