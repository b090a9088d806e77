//! Identifiers: a 128-bit ULID, stored as 16 big-endian bytes and exchanged
//! as 26 characters of Crockford base32.
use vstd::arithmetic::div_mod::{lemma_fundamental_div_mod_converse, lemma_mod_breakdown};
use vstd::prelude::*;

verus! {

/// ulid's `Ulid`, a public wrapper of the 128-bit value `.0`.
#[verifier::external_type_specification]
pub struct ExUlid(ulid::Ulid);

/// The length of an identifier in binary form.
pub const ULID_BIN_LEN: usize = 16;

/// The length of an identifier in text form.
pub const ULID_TEXT_LEN: usize = 26;

/// Why a value is no identifier.
#[derive(Debug, Clone, Copy, PartialEq, Eq, Structural)]
pub enum IdError {
    /// The binary form has a length other than 16.
    InvalidLength,
    /// The text is not 26 base32 characters.
    InvalidText,
}

/// The number that a sequence of bytes denotes, most significant first.
pub open spec fn be_value(s: Seq<u8>) -> nat
    decreases s.len(),
{
    if s.len() == 0 {
        0
    } else {
        be_value(s.drop_last()) * 256 + s.last() as nat
    }
}

/// The `n` least significant bytes of `v`, most significant first.
pub open spec fn be_bytes(v: nat, n: nat) -> Seq<u8>
    decreases n,
{
    if n == 0 {
        Seq::empty()
    } else {
        be_bytes(v / 256, (n - 1) as nat).push((v % 256) as u8)
    }
}

/// The Crockford base32 alphabet, by digit value.
pub open spec fn alphabet() -> Seq<char> {
    seq!['0', '1', '2', '3', '4', '5', '6', '7', '8', '9', 'A', 'B', 'C', 'D', 'E', 'F',
         'G', 'H', 'J', 'K', 'M', 'N', 'P', 'Q', 'R', 'S', 'T', 'V', 'W', 'X', 'Y', 'Z']
}

/// The value of an upper-case or numeric base32 digit, by character code.
pub open spec fn upper_digit(code: int) -> Option<int> {
    if 48 <= code <= 57 {
        Some(code - 48)
    } else if 65 <= code <= 72 {
        Some(code - 65 + 10)
    } else if code == 74 || code == 75 {
        Some(code - 74 + 18)
    } else if code == 77 || code == 78 {
        Some(code - 77 + 20)
    } else if 80 <= code <= 84 {
        Some(code - 80 + 22)
    } else if 86 <= code <= 90 {
        Some(code - 86 + 27)
    } else {
        None
    }
}

/// The value of a base32 digit; a lower-case letter counts as its capital.
pub open spec fn digit_value(c: char) -> Option<int> {
    let code = c as u32 as int;
    if 97 <= code <= 122 {
        upper_digit(code - 32)
    } else {
        upper_digit(code)
    }
}

/// The last `n` base32 digits of `v`, most significant first.
pub open spec fn base32_text(v: nat, n: nat) -> Seq<char>
    decreases n,
{
    if n == 0 {
        Seq::empty()
    } else {
        base32_text(v / 32, (n - 1) as nat).push(alphabet()[(v % 32) as int])
    }
}

/// The canonical text of an identifier value.
pub open spec fn ulid_text(v: u128) -> Seq<char> {
    base32_text(v as nat, 26)
}

/// Whether every character of `s` is a base32 digit.
pub open spec fn all_digits(s: Seq<char>) -> bool {
    forall|i: int| 0 <= i < s.len() ==> (#[trigger] digit_value(s[i])) is Some
}

/// The number that a sequence of base32 digits denotes.
pub open spec fn base32_value(s: Seq<char>) -> nat
    decreases s.len(),
{
    if s.len() == 0 {
        0
    } else {
        base32_value(s.drop_last()) * 32 + digit_value(s.last()).unwrap() as nat
    }
}

/// The number of 128-bit values.
pub open spec fn id_modulus() -> nat {
    0xffff_ffff_ffff_ffff_ffff_ffff_ffff_ffff + 1
}

/// What decoding a text yields: 26 digits denote a value, of which the
/// 128 least significant bits are kept.
pub open spec fn decode_text(s: Seq<char>) -> Option<u128> {
    if s.len() == 26 && all_digits(s) {
        Some((base32_value(s) % id_modulus()) as u128)
    } else {
        None
    }
}

/// Relies on ulid's `Ulid::to_string`: 26 characters, the value's
/// five-bit groups from the most significant, each written with the
/// upper-case Crockford alphabet.
#[verifier::external_body]
fn encode_ulid(id: &ulid::Ulid) -> (r: String)
    ensures
        r@ == ulid_text(id.0),
{
    id.to_string()
}

/// Relies on ulid's `Ulid::from_string`: it accepts exactly 26 characters
/// that are Crockford digits of either case, and shifts their values into
/// a 128-bit number, most significant first.
#[verifier::external_body]
fn decode_ulid(s: &str) -> (r: Option<ulid::Ulid>)
    ensures
        r is Some <==> decode_text(s@) is Some,
        r matches Some(id) ==> decode_text(s@) == Some(id.0),
{
    match ulid::Ulid::from_string(s) {
        Ok(id) => Some(id),
        Err(_) => None,
    }
}

/// Relies on ulid's `Ulid::new`: a fresh identifier from the clock and a
/// random source; nothing is known of its value.
#[verifier::external_body]
pub(crate) fn fresh_ulid() -> (r: ulid::Ulid) {
    ulid::Ulid::new()
}

/// The canonical 26-character text of an identifier.
pub fn ulid_to_text(id: &ulid::Ulid) -> (r: String)
    ensures
        r@ == ulid_text(id.0),
{
    encode_ulid(id)
}

/// Reads an identifier from its text; either case of letter is accepted.
pub fn text_to_ulid(s: &str) -> (r: Result<ulid::Ulid, IdError>)
    ensures
        r is Ok <==> decode_text(s@) is Some,
        r matches Ok(id) ==> decode_text(s@) == Some(id.0),
        r matches Err(e) ==> e == IdError::InvalidText,
{
    match decode_ulid(s) {
        Some(id) => Ok(id),
        None => Err(IdError::InvalidText),
    }
}

/// 256 to the power `n`.
pub open spec fn pow256(n: nat) -> nat
    decreases n,
{
    if n == 0 { 1 } else { 256 * pow256((n - 1) as nat) }
}

proof fn lemma_pow256_monotone(n: nat, m: nat)
    requires
        n <= m,
    ensures
        pow256(n) <= pow256(m),
    decreases m - n,
{
    if n < m {
        lemma_pow256_monotone(n, (m - 1) as nat);
    }
}

proof fn lemma_be_value_bound(s: Seq<u8>)
    ensures
        be_value(s) < pow256(s.len()),
    decreases s.len(),
{
    if s.len() > 0 {
        lemma_be_value_bound(s.drop_last());
        let p = pow256((s.len() - 1) as nat);
        assert(be_value(s.drop_last()) + 1 <= p);
        assert((be_value(s.drop_last()) + 1) * 256 <= p * 256) by (nonlinear_arith)
            requires be_value(s.drop_last()) + 1 <= p;
    }
}

/// Decodes the binary form; any length other than 16 is an error.
pub fn binary_to_ulid(binary: &[u8]) -> (r: Result<ulid::Ulid, IdError>)
    ensures
        binary@.len() != 16 ==> r == Err::<ulid::Ulid, IdError>(IdError::InvalidLength),
        binary@.len() == 16 ==> (r matches Ok(id) && id.0 == be_value(binary@)),
{
    if binary.len() != ULID_BIN_LEN {
        return Err(IdError::InvalidLength);
    }
    let mut v: u128 = 0;
    let mut i: usize = 0;
    while i < ULID_BIN_LEN
        invariant
            binary@.len() == 16,
            i <= 16,
            v == be_value(binary@.subrange(0, i as int)),
        decreases 16 - i,
    {
        proof {
            let pre = binary@.subrange(0, i as int);
            let next = binary@.subrange(0, i + 1);
            assert(next.drop_last() =~= pre);
            lemma_be_value_bound(pre);
            assert(pre.len() == i);
            lemma_pow256_monotone(i as nat, 15);
            assert(pow256(15) == 0x1_0000_0000_0000_0000_0000_0000_0000_00) by {
                reveal_with_fuel(pow256, 16);
            }
            assert(v * 256 + 255 <= 0xffff_ffff_ffff_ffff_ffff_ffff_ffff_ffff) by (nonlinear_arith)
                requires v < pow256(i as nat), pow256(i as nat) <= pow256(15),
                    pow256(15) == 0x1_0000_0000_0000_0000_0000_0000_0000_00;
        }
        v = v * 256 + binary[i] as u128;
        i = i + 1;
    }
    assert(binary@.subrange(0, 16) =~= binary@);
    Ok(ulid::Ulid(v))
}

/// The binary form of an identifier, as a vector.
pub fn ulid_to_vec(id: ulid::Ulid) -> (r: Vec<u8>)
    ensures
        r@ == be_bytes(id.0 as nat, 16),
{
    let bytes = ulid_to_binary(id);
    let mut v: Vec<u8> = Vec::new();
    let mut i: usize = 0;
    while i < 16
        invariant
            i <= 16,
            bytes@.len() == 16,
            v@ == bytes@.subrange(0, i as int),
        decreases 16 - i,
    {
        v.push(bytes[i]);
        i = i + 1;
        assert(v@ =~= bytes@.subrange(0, i as int));
    }
    assert(bytes@.subrange(0, 16) =~= bytes@);
    v
}

/// The 16-byte big-endian binary form of an identifier.
pub fn ulid_to_binary(id: ulid::Ulid) -> (r: [u8; 16])
    ensures
        r@ == be_bytes(id.0 as nat, 16),
{
    let mut out: [u8; 16] = [0u8; 16];
    let mut v: u128 = id.0;
    let mut i: usize = 16;
    while i > 0
        invariant
            i <= 16,
            out@.len() == 16,
            be_bytes(id.0 as nat, 16) == be_bytes(v as nat, i as nat) + out@.subrange(i as int, 16),
        decreases i,
    {
        let b = (v % 256) as u8;
        let ghost tail = out@.subrange(i as int, 16);
        proof {
            assert(be_bytes(v as nat, i as nat)
                == be_bytes((v / 256) as nat, (i - 1) as nat).push(b));
            assert(be_bytes((v / 256) as nat, (i - 1) as nat).push(b) + tail
                =~= be_bytes((v / 256) as nat, (i - 1) as nat) + seq![b].add(tail));
        }
        out[i - 1] = b;
        assert(out@.subrange(i - 1, 16) =~= seq![b].add(tail));
        v = v / 256;
        i = i - 1;
    }
    assert(out@.subrange(0, 16) =~= out@);
    out
}

/// 32 to the power `n`.
pub open spec fn pow32(n: nat) -> nat
    decreases n,
{
    if n == 0 { 1 } else { 32 * pow32((n - 1) as nat) }
}

proof fn lemma_pow32_positive(n: nat)
    ensures
        pow32(n) > 0,
    decreases n,
{
    if n > 0 {
        lemma_pow32_positive((n - 1) as nat);
    }
}

proof fn lemma_bytes_round_trip(s: Seq<u8>)
    ensures
        be_bytes(be_value(s), s.len()) == s,
    decreases s.len(),
{
    if s.len() > 0 {
        let p = s.drop_last();
        lemma_bytes_round_trip(p);
        lemma_fundamental_div_mod_converse(be_value(s) as int, 256, be_value(p) as int, s.last() as int);
        assert(be_bytes(be_value(s), s.len()) =~= s);
    }
}

proof fn lemma_digit_of_alphabet(d: int)
    requires
        0 <= d < 32,
    ensures
        digit_value(alphabet()[d]) == Some(d),
{
}

proof fn lemma_text_value(v: nat, n: nat)
    ensures
        base32_text(v, n).len() == n,
        all_digits(base32_text(v, n)),
        base32_value(base32_text(v, n)) == v % pow32(n),
    decreases n,
{
    if n > 0 {
        let t = base32_text(v, n);
        let p = base32_text(v / 32, (n - 1) as nat);
        lemma_text_value(v / 32, (n - 1) as nat);
        lemma_digit_of_alphabet((v % 32) as int);
        assert(t.drop_last() =~= p);
        assert forall|i: int| 0 <= i < t.len() implies (#[trigger] digit_value(t[i])) is Some by {
            if i < n - 1 {
                assert(t[i] == p[i]);
            }
        }
        lemma_pow32_positive((n - 1) as nat);
        lemma_mod_breakdown(v as int, 32, pow32((n - 1) as nat) as int);
    }
}

/// An identifier survives its binary and its text form: for any 16 bytes,
/// the value they denote is written as a text that decodes to that value,
/// and the value's binary form gives back the same bytes.
pub proof fn lemma_id_round_trip(bytes: Seq<u8>)
    requires
        bytes.len() == 16,
    ensures
        be_value(bytes) < id_modulus(),
        decode_text(ulid_text(be_value(bytes) as u128)) == Some(be_value(bytes) as u128),
        be_bytes(be_value(bytes), 16) == bytes,
{
    let v = be_value(bytes);
    lemma_be_value_bound(bytes);
    assert(pow256(16) == id_modulus()) by {
        reveal_with_fuel(pow256, 17);
    }
    lemma_bytes_round_trip(bytes);
    lemma_text_value(v, 26);
    assert(pow32(26) == 4 * id_modulus()) by {
        reveal_with_fuel(pow32, 27);
    }
    assert(v % pow32(26) == v) by {
        vstd::arithmetic::div_mod::lemma_small_mod(v, pow32(26));
    }
    assert(v % id_modulus() == v) by {
        vstd::arithmetic::div_mod::lemma_small_mod(v, id_modulus());
    }
}

} // verus!
