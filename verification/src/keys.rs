use vstd::prelude::*;
use vstd::arithmetic::power::pow;
use vstd::arithmetic::power2::{lemma2_to64, lemma_pow2_adds, lemma_pow2_pos, pow2};
use vstd::arithmetic::div_mod::{lemma_mod_bound, lemma_mod_multiples_vanish};
use vstd::string::StringExecFns;

use base64::Engine;
use rsa::pkcs8::DecodePrivateKey;
use rsa::traits::{PrivateKeyParts, PublicKeyParts};

use crate::errors::AdbError;
use crate::message::u32_le;

verus! {

/// The value of a big-endian byte string.
pub open spec fn be_value(s: Seq<u8>) -> nat
    decreases s.len(),
{
    if s.len() == 0 {
        0
    } else {
        (be_value(s.drop_last()) * 256 + s.last()) as nat
    }
}

/// A big-endian byte string of `len` bytes is worth less than 256^len.
pub proof fn lemma_be_value_bound(s: Seq<u8>)
    ensures
        be_value(s) < pow(256, s.len() as nat),
    decreases s.len(),
{
    reveal(pow);
    if s.len() == 0 {
    } else {
        let prev = be_value(s.drop_last());
        let p = pow(256, (s.len() - 1) as nat);
        lemma_be_value_bound(s.drop_last());
        assert(pow(256, s.len() as nat) == 256 * p);
        assert(prev * 256 + s.last() < 256 * p) by (nonlinear_arith)
            requires
                prev < p,
                s.last() < 256,
        ;
    }
}

/// A byte string with a nonzero leading byte is worth at least 1.
pub proof fn lemma_be_value_pos(s: Seq<u8>)
    requires
        s.len() > 0,
        s[0] != 0,
    ensures
        be_value(s) >= 1,
    decreases s.len(),
{
    if s.len() == 1 {
    } else {
        lemma_be_value_pos(s.drop_last());
    }
}

/// Prepending a zero byte does not change the value.
pub proof fn lemma_be_value_prepend_zero(s: Seq<u8>)
    ensures
        be_value(seq![0u8] + s) == be_value(s),
    decreases s.len(),
{
    reveal_with_fuel(be_value, 3);
    if s.len() == 0 {
        assert(seq![0u8] + s =~= seq![0u8]);
        assert(seq![0u8].drop_last() =~= Seq::<u8>::empty());
    } else {
        lemma_be_value_prepend_zero(s.drop_last());
        assert((seq![0u8] + s).drop_last() =~= seq![0u8] + s.drop_last());
    }
}

/// Prepending any number of zero bytes does not change the value.
pub proof fn lemma_be_value_leading_zeros(n: nat, s: Seq<u8>)
    ensures
        be_value(Seq::new(n, |i: int| 0u8) + s) == be_value(s),
    decreases n,
{
    if n == 0 {
        assert(Seq::new(0, |i: int| 0u8) + s =~= s);
    } else {
        lemma_be_value_leading_zeros((n - 1) as nat, s);
        assert(Seq::new(n, |i: int| 0u8) + s =~= seq![0u8] + (Seq::new(
            (n - 1) as nat,
            |i: int| 0u8,
        ) + s));
        lemma_be_value_prepend_zero(Seq::new((n - 1) as nat, |i: int| 0u8) + s);
    }
}

/// The `len`-byte big-endian form of a value.
pub open spec fn nat_to_be_bytes(v: nat, len: nat) -> Seq<u8>
    decreases len,
{
    if len == 0 {
        Seq::empty()
    } else {
        nat_to_be_bytes(v / 256, (len - 1) as nat) + seq![(v % 256) as u8]
    }
}

/// The `len`-byte form of a value below 256^len is worth that value back.
pub proof fn lemma_nat_to_be_bytes_value(v: nat, len: nat)
    requires
        v < pow(256, len),
    ensures
        nat_to_be_bytes(v, len).len() == len,
        be_value(nat_to_be_bytes(v, len)) == v,
    decreases len,
{
    reveal(pow);
    if len == 0 {
    } else {
        let p = pow(256, (len - 1) as nat);
        assert(pow(256, len) == 256 * p);
        assert(v / 256 < p) by (nonlinear_arith)
            requires
                v < 256 * p,
                0 < p,
                v >= 0,
        ;
        lemma_nat_to_be_bytes_value(v / 256, (len - 1) as nat);
        let b = nat_to_be_bytes(v, len);
        assert(b.drop_last() =~= nat_to_be_bytes(v / 256, (len - 1) as nat));
        vstd::arithmetic::div_mod::lemma_fundamental_div_mod(v as int, 256);
    }
}

/// Two byte strings of the same length and the same value are equal.
pub proof fn lemma_be_value_injective(a: Seq<u8>, b: Seq<u8>)
    requires
        a.len() == b.len(),
        be_value(a) == be_value(b),
    ensures
        a == b,
    decreases a.len(),
{
    if a.len() > 0 {
        let pa = be_value(a.drop_last());
        let pb = be_value(b.drop_last());
        assert(pa == pb && a.last() == b.last()) by (nonlinear_arith)
            requires
                pa * 256 + a.last() == pb * 256 + b.last(),
                0 <= a.last() < 256,
                0 <= b.last() < 256,
                pa >= 0,
                pb >= 0,
        ;
        lemma_be_value_injective(a.drop_last(), b.drop_last());
        assert forall|i: int| 0 <= i < a.len() implies a[i] == b[i] by {
            if i < a.len() - 1 {
                assert(a[i] == a.drop_last()[i]);
                assert(b[i] == b.drop_last()[i]);
            }
        }
        assert(a =~= b);
    } else {
        assert(a =~= b);
    }
}

/// 32-bit wrapping product.
pub open spec fn wmul(a: u32, b: u32) -> u32 {
    (((a as u64) * (b as u64)) % 0x1_0000_0000) as u32
}

/// 32-bit wrapping difference.
pub open spec fn wsub(a: u32, b: u32) -> u32 {
    (((a as u64) + 0x1_0000_0000 - (b as u64)) % 0x1_0000_0000) as u32
}

/// One Newton refinement step for the inverse of an odd word modulo 2^32:
/// x := x * (2 - n0 * x) doubles the number of correct low bits.
pub open spec fn inv_refine(n0: u32, x: u32) -> u32 {
    wmul(x, wsub(2, wmul(n0, x)))
}

/// The inverse of an odd word modulo 2^32: an odd word is its own inverse
/// modulo 8, and four refinement steps reach 48 correct bits.
pub open spec fn inverse32(n0: u32) -> u32 {
    inv_refine(n0, inv_refine(n0, inv_refine(n0, inv_refine(n0, n0))))
}

/// The negated inverse of an odd word modulo 2^32: the `n0inv` word of the
/// Android public-key encoding.
pub open spec fn mont_n0inv_spec(n0: u32) -> u32 {
    wsub(0, inverse32(n0))
}

/// Adding any multiple of 2^32 does not change a value modulo 2^j for
/// j at most 32.
proof fn lemma_word_multiple_vanishes(a: int, c: int, j: nat)
    requires
        j <= 32,
    ensures
        (a + c * 0x1_0000_0000) % (pow2(j) as int) == a % (pow2(j) as int),
{
    lemma_pow2_pos(j);
    lemma_pow2_pos((32 - j) as nat);
    lemma_pow2_adds(j, (32 - j) as nat);
    lemma2_to64();
    assert(c * 0x1_0000_0000 == (c * pow2((32 - j) as nat)) * pow2(j)) by (nonlinear_arith)
        requires
            0x1_0000_0000 == pow2(j) * pow2((32 - j) as nat),
    ;
    lemma_mod_multiples_vanish(c * pow2((32 - j) as nat) as int, a, pow2(j) as int);
}

/// One refinement step doubles the number of correct low bits: if
/// n * x == 1 modulo 2^k, then n * inv_refine(n, x) == 1 modulo 2^j for
/// any j at most both 2k and 32.
pub proof fn lemma_inv_refine_doubles(n: u32, x: u32, k: nat, j: nat)
    requires
        ((n as int) * (x as int)) % (pow2(k) as int) == 1,
        1 <= j <= 2 * k,
        j <= 32,
    ensures
        ((n as int) * (inv_refine(n, x) as int)) % (pow2(j) as int) == 1,
{
    let m: int = 0x1_0000_0000;
    let pj: int = pow2(j) as int;
    let ni: int = n as int;
    let xi: int = x as int;
    let p: int = ni * xi;
    let y: int = wmul(n, x) as int;
    let z: int = wsub(2, wmul(n, x)) as int;
    let r: int = inv_refine(n, x) as int;
    lemma_pow2_pos(j);
    lemma_pow2_pos(k);
    lemma_mod_bound(p, m);
    assert(y == p % m);
    lemma_mod_bound(2 + m - y, m);
    assert(z == (2 + m - y) % m);
    lemma_mod_bound(xi * z, m);
    assert(r == (xi * z) % m);

    // n * r differs from n * x * z by a multiple of 2^32.
    let q1: int = (xi * z) / m;
    vstd::arithmetic::div_mod::lemma_fundamental_div_mod(xi * z, m);
    assert(ni * r == ni * (xi * z) + (-(ni * q1)) * m) by (nonlinear_arith)
        requires
            r == xi * z - m * q1,
    ;
    lemma_word_multiple_vanishes(ni * (xi * z), -(ni * q1), j);

    // n * x * z differs from p * (2 + m - y) by a multiple of 2^32.
    let q2: int = (2 + m - y) / m;
    vstd::arithmetic::div_mod::lemma_fundamental_div_mod(2 + m - y, m);
    assert(ni * (xi * z) == p * (2 + m - y) + (-(p * q2)) * m) by (nonlinear_arith)
        requires
            z == (2 + m - y) - m * q2,
            p == ni * xi,
    ;
    lemma_word_multiple_vanishes(p * (2 + m - y), -(p * q2), j);

    // p * (2 + m - y) differs from p * (2 - p) by a multiple of 2^32.
    let q3: int = p / m;
    vstd::arithmetic::div_mod::lemma_fundamental_div_mod(p, m);
    assert(p * (2 + m - y) == p * (2 - p) + (p + p * q3) * m) by (nonlinear_arith)
        requires
            y == p - m * q3,
    ;
    lemma_word_multiple_vanishes(p * (2 - p), p + p * q3, j);

    // p == 1 modulo 2^k, so (p - 1)^2 is a multiple of 2^j, and
    // p * (2 - p) == 1 - (p - 1)^2 == 1 modulo 2^j.
    let pk: int = pow2(k) as int;
    let t: int = p / pk;
    vstd::arithmetic::div_mod::lemma_fundamental_div_mod(p, pk);
    assert(p - 1 == pk * t);
    lemma_pow2_adds(k, k);
    lemma_pow2_adds((2 * k - j) as nat, j);
    lemma_pow2_pos((2 * k - j) as nat);
    assert(p * (2 - p) == 1 + (-(t * t * (pow2((2 * k - j) as nat) as int))) * pj) by (nonlinear_arith)
        requires
            p - 1 == pk * t,
            pk * pk == pow2(2 * k) as int,
            pow2(2 * k) == pow2((2 * k - j) as nat) * pow2(j),
            pj == pow2(j) as int,
    ;
    lemma_mod_multiples_vanish(-(t * t * (pow2((2 * k - j) as nat) as int)), 1, pj);
    assert(1int % pj == 1) by {
        vstd::arithmetic::power2::lemma_pow2_strictly_increases(0, j);
        lemma2_to64();
        vstd::arithmetic::div_mod::lemma_small_mod(1, pow2(j));
    }
}

/// For an odd word, the Newton chain indeed yields the negated inverse of
/// the word modulo 2^32: n0 * n0inv + 1 == 0 modulo 2^32.
pub proof fn lemma_n0inv_property(n0: u32)
    requires
        n0 & 1 == 1,
    ensures
        ((n0 as int) * (mont_n0inv_spec(n0) as int) + 1) % 0x1_0000_0000 == 0,
{
    let m: int = 0x1_0000_0000;
    let ni: int = n0 as int;
    assert(((n0 as u64) * (n0 as u64)) % 8 == 1) by (bit_vector)
        requires
            n0 & 1 == 1,
    ;
    lemma2_to64();
    let x1 = inv_refine(n0, n0);
    let x2 = inv_refine(n0, x1);
    let x3 = inv_refine(n0, x2);
    let x4 = inv_refine(n0, x3);
    lemma_inv_refine_doubles(n0, n0, 3, 6);
    lemma_inv_refine_doubles(n0, x1, 6, 12);
    lemma_inv_refine_doubles(n0, x2, 12, 24);
    lemma_inv_refine_doubles(n0, x3, 24, 32);
    assert(inverse32(n0) == x4);
    let r: int = mont_n0inv_spec(n0) as int;
    lemma_mod_bound(m - (x4 as int), m);
    assert(r == (m - (x4 as int)) % m);
    let q4: int = (m - (x4 as int)) / m;
    vstd::arithmetic::div_mod::lemma_fundamental_div_mod(m - (x4 as int), m);
    let s: int = (ni * (x4 as int)) / m;
    vstd::arithmetic::div_mod::lemma_fundamental_div_mod(ni * (x4 as int), m);
    assert(ni * r + 1 == (ni - ni * q4 - s) * m) by (nonlinear_arith)
        requires
            r == m - (x4 as int) - m * q4,
            ni * (x4 as int) == m * s + 1,
    ;
    lemma_mod_multiples_vanish(ni - ni * q4 - s, 0, m);
}

/// 32-bit wrapping product, computed in 64-bit arithmetic.
fn wmul_exec(a: u32, b: u32) -> (r: u32)
    ensures
        r == wmul(a, b),
{
    proof {
        assert((a as u64) * (b as u64) < 0x1_0000_0000_0000_0000) by (nonlinear_arith)
            requires
                a <= 0xffff_ffffu64,
                b <= 0xffff_ffffu64,
        ;
    }
    (((a as u64) * (b as u64)) % 0x1_0000_0000) as u32
}

/// 32-bit wrapping difference, computed in 64-bit arithmetic.
fn wsub_exec(a: u32, b: u32) -> (r: u32)
    ensures
        r == wsub(a, b),
{
    (((a as u64) + 0x1_0000_0000 - (b as u64)) % 0x1_0000_0000) as u32
}

/// Computes the negated inverse of an odd word modulo 2^32.
fn mont_n0inv(n0: u32) -> (r: u32)
    ensures
        r == mont_n0inv_spec(n0),
{
    let mut x = n0;
    x = wmul_exec(x, wsub_exec(2, wmul_exec(n0, x)));
    x = wmul_exec(x, wsub_exec(2, wmul_exec(n0, x)));
    x = wmul_exec(x, wsub_exec(2, wmul_exec(n0, x)));
    x = wmul_exec(x, wsub_exec(2, wmul_exec(n0, x)));
    wsub_exec(0, x)
}

/// The base64 alphabet, in value order.
pub open spec fn b64_alphabet() -> Seq<char> {
    seq![
        'A', 'B', 'C', 'D', 'E', 'F', 'G', 'H', 'I', 'J', 'K', 'L', 'M', 'N', 'O', 'P', 'Q', 'R',
        'S', 'T', 'U', 'V', 'W', 'X', 'Y', 'Z', 'a', 'b', 'c', 'd', 'e', 'f', 'g', 'h', 'i', 'j',
        'k', 'l', 'm', 'n', 'o', 'p', 'q', 'r', 's', 't', 'u', 'v', 'w', 'x', 'y', 'z', '0', '1',
        '2', '3', '4', '5', '6', '7', '8', '9', '+', '/',
    ]
}

/// Standard base64 with '=' padding: each group of three bytes becomes four
/// characters; a final group of one or two bytes is padded.
pub open spec fn base64_encode(s: Seq<u8>) -> Seq<char>
    decreases s.len(),
{
    if s.len() == 0 {
        Seq::<char>::empty()
    } else if s.len() == 1 {
        seq![
            b64_alphabet()[(s[0] >> 2) as int],
            b64_alphabet()[((s[0] & 3) << 4) as int],
            '=',
            '=',
        ]
    } else if s.len() == 2 {
        seq![
            b64_alphabet()[(s[0] >> 2) as int],
            b64_alphabet()[(((s[0] & 3) << 4) | (s[1] >> 4)) as int],
            b64_alphabet()[((s[1] & 0xf) << 2) as int],
            '=',
        ]
    } else {
        seq![
            b64_alphabet()[(s[0] >> 2) as int],
            b64_alphabet()[(((s[0] & 3) << 4) | (s[1] >> 4)) as int],
            b64_alphabet()[(((s[1] & 0xf) << 2) | (s[2] >> 6)) as int],
            b64_alphabet()[(s[2] & 0x3f) as int],
        ] + base64_encode(s.skip(3))
    }
}

/// Relies on base64's STANDARD engine: the standard alphabet with '='
/// padding, as `base64_encode` lays it out.
#[verifier::external_body]
fn base64_encode_exec(bytes: &[u8]) -> (r: String)
    ensures
        r@ == base64_encode(bytes@),
{
    base64::engine::general_purpose::STANDARD.encode(bytes)
}

/// Relies on num-bigint-dig's BigUint (re-exported by rsa): from_bytes_be,
/// modpow — (base ^ exponent) % modulus, panicking only on a zero modulus —
/// and to_bytes_be, whose result is the minimal big-endian form and so no
/// longer than the modulus given to modpow.
#[verifier::external_body]
fn big_mod_pow(base: &Vec<u8>, exponent: &Vec<u8>, modulus: &Vec<u8>) -> (r: Vec<u8>)
    requires
        be_value(modulus@) >= 1,
    ensures
        be_value(r@) as int == pow(be_value(base@) as int, be_value(exponent@)) % (be_value(
            modulus@,
        ) as int),
        r@.len() <= modulus@.len(),
{
    let b = rsa::BigUint::from_bytes_be(base);
    let e = rsa::BigUint::from_bytes_be(exponent);
    let m = rsa::BigUint::from_bytes_be(modulus);
    b.modpow(&e, &m).to_bytes_be()
}

/// The modulus, public exponent and private exponent encoded in a PKCS#8
/// private-key text, each as minimal big-endian bytes, or nothing when the
/// text does not parse. The parse is a function of the text alone; this
/// names its result, and `parse_pkcs8_parts` is the one place that
/// produces it.
pub uninterp spec fn pkcs8_parts_of(pem: Seq<char>) -> Option<(Seq<u8>, Seq<u8>, Seq<u8>)>;

/// Relies on rsa::RsaPrivateKey::from_pkcs8_pem and the n, e and d
/// accessors; the parts come back as minimal big-endian bytes
/// (num-bigint-dig to_bytes_be), so a leading byte is nonzero unless the
/// value is zero. `None` when the text is not a valid PKCS#8 private key.
#[verifier::external_body]
fn parse_pkcs8_parts(pem: &str) -> (r: Option<(Vec<u8>, Vec<u8>, Vec<u8>)>)
    ensures
        r matches Some(parts) ==> pkcs8_parts_of(pem@) == Some((parts.0@, parts.1@, parts.2@)),
        r is None ==> pkcs8_parts_of(pem@) is None,
        r matches Some(parts) ==> (parts.0@.len() > 1 ==> parts.0@[0] != 0),
{
    let key = rsa::RsaPrivateKey::from_pkcs8_pem(pem).ok()?;
    Some((key.n().to_bytes_be(), key.e().to_bytes_be(), key.d().to_bytes_be()))
}

/// Relies on rsa::RsaPrivateKey::new with rand::thread_rng: a freshly
/// generated 2048-bit key; the parts come back as minimal big-endian bytes.
/// `None` when generation fails.
#[verifier::external_body]
fn generate_key_parts() -> (r: Option<(Vec<u8>, Vec<u8>, Vec<u8>)>)
    ensures
        r matches Some(parts) ==> (parts.0@.len() > 1 ==> parts.0@[0] != 0),
{
    let mut rng = rand::thread_rng();
    let key = match rsa::RsaPrivateKey::new(&mut rng, 2048) {
        Ok(k) => k,
        Err(_) => return None,
    };
    Some((key.n().to_bytes_be(), key.e().to_bytes_be(), key.d().to_bytes_be()))
}

/// The acceptance condition of `RsaKey::from_parts`: a 2048-bit RSA
/// modulus — 256 bytes, nonzero leading byte, odd trailing byte — a public
/// exponent of one to four bytes, and a private exponent of one to 256
/// bytes.
pub open spec fn parts_accepted(n: Seq<u8>, e: Seq<u8>, d: Seq<u8>) -> bool {
    &&& n.len() == 256
    &&& n[0] != 0
    &&& n[255] & 1 == 1
    &&& 1 <= e.len() <= 4
    &&& 1 <= d.len() <= 256
}

/// The 15-byte ASN.1 DigestInfo prefix for SHA-1 of PKCS#1 v1.5.
pub open spec fn sha1_digest_info_prefix() -> Seq<u8> {
    seq![0x30u8, 0x21, 0x30, 0x09, 0x06, 0x05, 0x2b, 0x0e, 0x03, 0x02, 0x1a, 0x05, 0x00, 0x04,
        0x14]
}

/// The 256-byte EMSA-PKCS1-v1_5 block for a 20-byte token with the SHA-1
/// prefix: 0x00 0x01, 218 bytes of 0xff, 0x00, the prefix, the token.
pub open spec fn emsa_pkcs1_sha1(token: Seq<u8>) -> Seq<u8> {
    seq![0u8, 1u8] + Seq::new(218, |i: int| 0xffu8) + seq![0u8] + sha1_digest_info_prefix() + token
}

/// Builds the EMSA-PKCS1-v1_5 block for a 20-byte token.
fn build_emsa_block(token: &[u8]) -> (r: Vec<u8>)
    requires
        token@.len() == 20,
    ensures
        r@ == emsa_pkcs1_sha1(token@),
        r@.len() == 256,
{
    let mut v: Vec<u8> = Vec::new();
    v.push(0);
    v.push(1);
    let mut i: usize = 0;
    while i < 218
        invariant
            i <= 218,
            v@ =~= seq![0u8, 1u8] + Seq::new(i as nat, |j: int| 0xffu8),
        decreases 218 - i,
    {
        v.push(0xff);
        proof {
            assert(v@ =~= seq![0u8, 1u8] + Seq::new((i + 1) as nat, |j: int| 0xffu8));
        }
        i += 1;
    }
    v.push(0);
    v.push(0x30);
    v.push(0x21);
    v.push(0x30);
    v.push(0x09);
    v.push(0x06);
    v.push(0x05);
    v.push(0x2b);
    v.push(0x0e);
    v.push(0x03);
    v.push(0x02);
    v.push(0x1a);
    v.push(0x05);
    v.push(0x00);
    v.push(0x04);
    v.push(0x14);
    let mut k: usize = 0;
    while k < token.len()
        invariant
            k <= token@.len(),
            token@.len() == 20,
            v@ =~= seq![0u8, 1u8] + Seq::new(218, |j: int| 0xffu8) + seq![0u8]
                + sha1_digest_info_prefix() + token@.take(k as int),
        decreases token@.len() - k,
    {
        v.push(token[k]);
        proof {
            assert(token@.take(k + 1) =~= token@.take(k as int).push(token@[k as int]));
            assert(v@ =~= seq![0u8, 1u8] + Seq::new(218, |j: int| 0xffu8) + seq![0u8]
                + sha1_digest_info_prefix() + token@.take(k + 1));
        }
        k += 1;
    }
    proof {
        assert(token@.take(20) =~= token@);
        assert(v@ =~= emsa_pkcs1_sha1(token@));
    }
    v
}

/// Left-pads a byte string with zeros to exactly 256 bytes; the value is
/// unchanged.
fn left_pad_256(v: Vec<u8>) -> (r: Vec<u8>)
    requires
        v@.len() <= 256,
    ensures
        r@.len() == 256,
        be_value(r@) == be_value(v@),
{
    let pad: usize = 256 - v.len();
    let mut out: Vec<u8> = Vec::new();
    let mut i: usize = 0;
    while i < pad
        invariant
            i <= pad,
            out@ =~= Seq::new(i as nat, |j: int| 0u8),
        decreases pad - i,
    {
        out.push(0);
        proof {
            assert(out@ =~= Seq::new((i + 1) as nat, |j: int| 0u8));
        }
        i += 1;
    }
    let mut rest = v;
    let ghost rest_view = rest@;
    out.append(&mut rest);
    proof {
        assert(out@ =~= Seq::new(pad as nat, |j: int| 0u8) + rest_view);
        lemma_be_value_leading_zeros(pad as nat, rest_view);
    }
    out
}

/// Reads a big-endian byte string of at most four bytes as a 32-bit value.
fn be_bytes_to_u32(v: &Vec<u8>) -> (r: u32)
    requires
        1 <= v@.len() <= 4,
    ensures
        r == be_value(v@),
{
    let mut r: u32 = 0;
    let mut i: usize = 0;
    while i < v.len()
        invariant
            i <= v@.len(),
            v@.len() <= 4,
            r == be_value(v@.take(i as int)),
        decreases v@.len() - i,
    {
        proof {
            lemma_be_value_bound(v@.take(i as int));
            vstd::arithmetic::power::lemma_pow_increases(256, i as nat, 3);
            assert(pow(256, 3) == 0x100_0000) by {
                reveal_with_fuel(pow, 4);
            }
            assert(v@.take(i + 1).drop_last() =~= v@.take(i as int));
        }
        r = r * 256 + (v[i] as u32);
        i += 1;
    }
    proof {
        assert(v@.take(v@.len() as int) =~= v@);
    }
    r
}

/// A 2048-bit RSA private key held as plain big-endian byte strings: the
/// modulus (exactly 256 bytes, leading byte nonzero), the public exponent
/// (at most four bytes), and the private exponent.
pub struct RsaKey {
    n_be: Vec<u8>,
    e_be: Vec<u8>,
    d_be: Vec<u8>,
}

impl RsaKey {
    /// The key holds a 2048-bit modulus, a public exponent below 2^32, and
    /// a nonempty private exponent.
    pub closed spec fn wf(self) -> bool {
        &&& self.n_be@.len() == 256
        &&& self.n_be@[0] != 0
        &&& self.n_be@[255] & 1 == 1
        &&& 1 <= self.e_be@.len() <= 4
        &&& 1 <= self.d_be@.len() <= 256
    }

    /// The value of the modulus.
    pub closed spec fn modulus_value(self) -> nat {
        be_value(self.n_be@)
    }

    /// The value of the public exponent.
    pub closed spec fn public_exponent(self) -> nat {
        be_value(self.e_be@)
    }

    /// The value of the private exponent.
    pub closed spec fn private_exponent(self) -> nat {
        be_value(self.d_be@)
    }

    /// The big-endian bytes of the modulus.
    pub closed spec fn modulus_bytes(self) -> Seq<u8> {
        self.n_be@
    }

    /// Assembles a key from big-endian parts, as a PKCS#8 parse or a
    /// generator delivers them.
    ///
    /// Accepted exactly when the modulus is 256 bytes with a nonzero
    /// leading byte and an odd trailing byte — a 2048-bit RSA modulus — the
    /// public exponent has one to four bytes, and the private exponent has
    /// one to 256 bytes; anything else is `InvalidKey`.
    pub fn from_parts(n_be: Vec<u8>, e_be: Vec<u8>, d_be: Vec<u8>) -> (r: Result<RsaKey, AdbError>)
        ensures
            r is Ok <==> parts_accepted(n_be@, e_be@, d_be@),
            r matches Ok(k) ==> k.wf() && k.modulus_bytes() == n_be@ && k.modulus_value()
                == be_value(n_be@) && k.public_exponent() == be_value(e_be@)
                && k.private_exponent() == be_value(d_be@),
            r is Err ==> r == Err::<RsaKey, AdbError>(AdbError::InvalidKey),
    {
        if n_be.len() != 256 {
            return Err(AdbError::InvalidKey);
        }
        if n_be[0] == 0 {
            return Err(AdbError::InvalidKey);
        }
        if n_be[255] & 1 != 1 {
            return Err(AdbError::InvalidKey);
        }
        if e_be.len() < 1 || e_be.len() > 4 {
            return Err(AdbError::InvalidKey);
        }
        if d_be.len() < 1 || d_be.len() > 256 {
            return Err(AdbError::InvalidKey);
        }
        Ok(RsaKey { n_be, e_be, d_be })
    }

    /// Parses a PKCS#8 PEM private key: the key built from exactly the
    /// parts the text encodes, accepted exactly when those parts pass
    /// `from_parts`; `InvalidKey` when the text does not parse or the key
    /// is not the 2048-bit key `from_parts` demands.
    pub fn load_pkcs8(pem: &str) -> (r: Result<RsaKey, AdbError>)
        ensures
            r is Ok <==> (pkcs8_parts_of(pem@) matches Some(p) && parts_accepted(p.0, p.1, p.2)),
            r matches Ok(k) ==> (pkcs8_parts_of(pem@) matches Some(p) && k.wf()
                && k.modulus_bytes() == p.0 && k.modulus_value() == be_value(p.0)
                && k.public_exponent() == be_value(p.1) && k.private_exponent() == be_value(p.2)),
            r is Err ==> r == Err::<RsaKey, AdbError>(AdbError::InvalidKey),
    {
        match parse_pkcs8_parts(pem) {
            Some((n, e, d)) => RsaKey::from_parts(n, e, d),
            None => Err(AdbError::InvalidKey),
        }
    }

    /// Generates a fresh 2048-bit key; `InvalidKey` when the generator
    /// fails or hands back parts that `from_parts` rejects.
    pub fn generate() -> (r: Result<RsaKey, AdbError>)
        ensures
            r matches Ok(k) ==> k.wf(),
            r is Err ==> r == Err::<RsaKey, AdbError>(AdbError::InvalidKey),
    {
        match generate_key_parts() {
            Some((n, e, d)) => RsaKey::from_parts(n, e, d),
            None => Err(AdbError::InvalidKey),
        }
    }

    /// Signs a 20-byte token: the raw RSA operation em^d mod n over the
    /// EMSA-PKCS1-v1_5 block of the token, as a 256-byte signature.
    pub fn sign(&self, token: &[u8]) -> (r: Vec<u8>)
        requires
            self.wf(),
            token@.len() == 20,
        ensures
            r@.len() == 256,
            be_value(r@) as int == pow(
                be_value(emsa_pkcs1_sha1(token@)) as int,
                self.private_exponent(),
            ) % (self.modulus_value() as int),
    {
        let em = build_emsa_block(token);
        proof {
            lemma_be_value_pos(self.n_be@);
        }
        let sig_raw = big_mod_pow(&em, &self.d_be, &self.n_be);
        left_pad_256(sig_raw)
    }

    /// Checks a signature over a 20-byte token against this key's public
    /// half: true exactly when sig^e mod n equals the EMSA-PKCS1-v1_5 block
    /// of the token.
    pub fn verify(&self, token: &[u8], signature: &[u8]) -> (r: bool)
        requires
            self.wf(),
            token@.len() == 20,
        ensures
            r == (pow(be_value(signature@) as int, self.public_exponent()) % (
            self.modulus_value() as int) == be_value(emsa_pkcs1_sha1(token@)) as int),
    {
        let em = build_emsa_block(token);
        let mut sig_vec: Vec<u8> = Vec::new();
        let mut i: usize = 0;
        while i < signature.len()
            invariant
                i <= signature@.len(),
                sig_vec@ =~= signature@.take(i as int),
            decreases signature@.len() - i,
        {
            sig_vec.push(signature[i]);
            proof {
                assert(sig_vec@ =~= signature@.take(i + 1));
            }
            i += 1;
        }
        proof {
            assert(signature@.take(signature@.len() as int) =~= signature@);
            lemma_be_value_pos(self.n_be@);
        }
        let m_raw = big_mod_pow(&sig_vec, &self.e_be, &self.n_be);
        let m = left_pad_256(m_raw);
        let r = compare_bytes(&m, &em);
        proof {
            if be_value(m@) == be_value(em@) {
                lemma_be_value_injective(m@, em@);
            }
        }
        r
    }
}


/// Appends the bytes of `v` in reverse order.
fn push_reversed(out: &mut Vec<u8>, v: &Vec<u8>)
    ensures
        final(out)@ == old(out)@ + v@.reverse(),
{
    let mut i: usize = 0;
    while i < v.len()
        invariant
            i <= v@.len(),
            out@ =~= old(out)@ + v@.reverse().take(i as int),
        decreases v@.len() - i,
    {
        out.push(v[v.len() - 1 - i]);
        proof {
            assert(v@.reverse().take(i + 1) =~= v@.reverse().take(i as int).push(
                v@[v@.len() - 1 - i],
            ));
            assert(out@ =~= old(out)@ + v@.reverse().take(i + 1));
        }
        i += 1;
    }
    proof {
        assert(v@.reverse().take(v@.len() as int) =~= v@.reverse());
    }
}

/// The 32-bit value read from four big-endian bytes.
pub open spec fn u32_of_be(b0: u8, b1: u8, b2: u8, b3: u8) -> u32 {
    ((b0 as int) * 0x100_0000 + (b1 as int) * 0x1_0000 + (b2 as int) * 0x100 + (b3 as int)) as u32
}

/// The trailing `" user@host"` label of the public-key blob.
pub open spec fn key_label() -> Seq<char> {
    " user@host"@
}

impl RsaKey {
    /// The low 32-bit word of the modulus: its last four big-endian bytes.
    pub closed spec fn n0_word(self) -> u32 {
        u32_of_be(self.n_be@[252], self.n_be@[253], self.n_be@[254], self.n_be@[255])
    }

    /// The Montgomery residue R^2 mod n for R = 2^2048.
    pub closed spec fn rr_value(self) -> nat {
        (pow(2, 4096) % (self.modulus_value() as int)) as nat
    }

    /// The value of the public exponent as a 32-bit word.
    pub closed spec fn e_word(self) -> u32 {
        be_value(self.e_be@) as u32
    }

    /// The 524-byte binary public-key structure of the Android encoding:
    /// the word count 64, the negated inverse of the low modulus word, the
    /// modulus little-endian, R^2 mod n little-endian, and the exponent,
    /// all as little-endian 32-bit words.
    pub closed spec fn blob_bytes(self) -> Seq<u8> {
        u32_le(64) + u32_le(mont_n0inv_spec(self.n0_word())) + self.n_be@.reverse()
            + nat_to_be_bytes(self.rr_value(), 256).reverse() + u32_le(self.e_word())
    }

    /// The public-key blob as sent to the device, without the trailing NUL:
    /// the base64 form of the binary structure, a space, and a user label.
    pub closed spec fn blob_string(self) -> Seq<char> {
        base64_encode(self.blob_bytes()) + key_label()
    }

    /// Serializes the public key in the Android encoding: the base64 form
    /// of the 524-byte structure, followed by a space and a user label.
    pub fn android_public_key_blob(&self) -> (r: String)
        requires
            self.wf(),
        ensures
            r@ == self.blob_string(),
    {
        let mut b: Vec<u8> = Vec::new();
        crate::message::push_u32_le(&mut b, 64);
        let n0 = (self.n_be[252] as u32) * 0x100_0000 + (self.n_be[253] as u32) * 0x1_0000 + (
        self.n_be[254] as u32) * 0x100 + (self.n_be[255] as u32);
        crate::message::push_u32_le(&mut b, mont_n0inv(n0));
        push_reversed(&mut b, &self.n_be);
        let mut rr_base: Vec<u8> = Vec::new();
        rr_base.push(2);
        let mut rr_exp: Vec<u8> = Vec::new();
        rr_exp.push(0x10);
        rr_exp.push(0);
        proof {
            lemma_be_value_pos(self.n_be@);
            reveal_with_fuel(be_value, 4);
            assert(rr_base@.drop_last() =~= Seq::<u8>::empty());
            assert(rr_exp@.drop_last() =~= seq![0x10u8]);
            assert(seq![0x10u8].drop_last() =~= Seq::<u8>::empty());
            assert(be_value(rr_base@) == 2);
            assert(be_value(rr_exp@) == 0x1000);
        }
        let rr_raw = big_mod_pow(&rr_base, &rr_exp, &self.n_be);
        let rr = left_pad_256(rr_raw);
        proof {
            lemma_be_value_bound(self.n_be@);
            vstd::arithmetic::div_mod::lemma_mod_bound(
                pow(2, 4096),
                self.modulus_value() as int,
            );
            vstd::arithmetic::power::lemma_pow_positive(2, 4096);
            lemma_nat_to_be_bytes_value(self.rr_value(), 256);
            lemma_be_value_injective(rr@, nat_to_be_bytes(self.rr_value(), 256));
        }
        push_reversed(&mut b, &rr);
        let e32 = be_bytes_to_u32(&self.e_be);
        proof {
            lemma_be_value_bound(self.e_be@);
            vstd::arithmetic::power::lemma_pow_increases(256, self.e_be@.len() as nat, 4);
            assert(pow(256, 4) == 0x1_0000_0000) by {
                reveal_with_fuel(pow, 5);
            }
        }
        crate::message::push_u32_le(&mut b, e32);
        proof {
            assert(b@ =~= self.blob_bytes());
        }
        let s64 = base64_encode_exec(b.as_slice());
        let r = s64.concat(" user@host");
        proof {
            assert(r@ == self.blob_string());
        }
        r
    }
}

/// For a well-formed key the modulus is odd, so the n0inv word of the
/// blob is the negated inverse of the low modulus word modulo 2^32.
pub proof fn lemma_blob_n0inv_word(k: RsaKey)
    requires
        k.wf(),
    ensures
        ((k.n0_word() as int) * (mont_n0inv_spec(k.n0_word()) as int) + 1) % 0x1_0000_0000 == 0,
{
    let b3 = k.modulus_bytes()[255];
    let w: int = (k.modulus_bytes()[252] as int) * 0x100_0000 + (k.modulus_bytes()[253] as int)
        * 0x1_0000 + (k.modulus_bytes()[254] as int) * 0x100 + (b3 as int);
    let half: int = (k.modulus_bytes()[252] as int) * 0x80_0000 + (k.modulus_bytes()[253] as int)
        * 0x8000 + (k.modulus_bytes()[254] as int) * 0x80;
    let n0 = k.n0_word();
    assert(b3 % 2 == 1) by (bit_vector)
        requires
            b3 & 1 == 1,
    ;
    lemma_mod_multiples_vanish(half, b3 as int, 2);
    assert(w == 2 * half + b3);
    assert((n0 as int) == w);
    assert(n0 % 2 == 1);
    assert(n0 & 1 == 1) by (bit_vector)
        requires
            n0 % 2 == 1,
    ;
    lemma_n0inv_property(n0);
}

/// The public-key blob is a function of the key alone: two computations of
/// it on one key yield the same string.
pub proof fn lemma_blob_deterministic(k: RsaKey, s1: Seq<char>, s2: Seq<char>)
    requires
        s1 == k.blob_string(),
        s2 == k.blob_string(),
    ensures
        s1 == s2,
{
}

/// Compares two byte vectors for equality.
fn compare_bytes(a: &Vec<u8>, b: &Vec<u8>) -> (r: bool)
    ensures
        r == (a@ == b@),
{
    if a.len() != b.len() {
        proof {
            assert(a@ != b@);
        }
        return false;
    }
    let mut i: usize = 0;
    while i < a.len()
        invariant
            i <= a@.len(),
            a@.len() == b@.len(),
            forall|j: int| 0 <= j < i ==> a@[j] == b@[j],
        decreases a@.len() - i,
    {
        if a[i] != b[i] {
            proof {
                assert(a@[i as int] != b@[i as int]);
            }
            return false;
        }
        i += 1;
    }
    proof {
        assert(a@ =~= b@);
    }
    true
}

} // verus!
