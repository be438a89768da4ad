//! Identifiers. A UUID is held as the `u128` whose big-endian bytes are the
//! UUID's bytes (`Uuid::as_u128`); the `uuid` crate generates, formats and
//! parses them.

use vstd::prelude::*;
use crate::hexcodec::hex_digit;

verus! {

/// The `count` lowercase hexadecimal digits of `n`, most significant first.
pub open spec fn hex_digits(n: nat, count: nat) -> Seq<char>
    decreases count,
{
    if count == 0 {
        Seq::empty()
    } else {
        hex_digits(n / 16, (count - 1) as nat).push(hex_digit(n % 16))
    }
}

/// The hyphenated lowercase text of a UUID (`8-4-4-4-12` hexadecimal digits),
/// which is what `Uuid`'s `Display` writes.
pub open spec fn uuid_hyphenated(u: u128) -> Seq<char> {
    let d = hex_digits(u as nat, 32);
    d.subrange(0, 8) + seq!['-'] + d.subrange(8, 12) + seq!['-'] + d.subrange(12, 16) + seq!['-']
        + d.subrange(16, 20) + seq!['-'] + d.subrange(20, 32)
}

/// What `Uuid::parse_str` accepts and returns for the given text: `None` where
/// it returns an error. It accepts the simple, hyphenated, braced and URN forms
/// in either case.
pub uninterp spec fn uuid_parse_spec(text: Seq<char>) -> Option<u128>;

/// A version-4 (random) UUID of the RFC 4122 variant: its version nibble
/// (bits 76 to 79) is 4 and its variant bits (62 and 63) are `10`. The nil
/// UUID is not one.
pub open spec fn is_v4_uuid(u: u128) -> bool {
    &&& (u >> 76u128) & 0xfu128 == 4
    &&& (u >> 62u128) & 0x3u128 == 2
}

/// A version-4 UUID is never the nil UUID.
pub proof fn lemma_v4_uuid_is_not_nil(u: u128)
    requires
        is_v4_uuid(u),
    ensures
        u != 0,
{
    assert(((u >> 76u128) & 0xfu128 == 4) ==> u != 0) by (bit_vector);
}

/// `Uuid::new_v4().as_u128()`: a fresh random identifier. The crate masks the
/// random bits with `0xFFFFFFFFFFFF4FFFBFFFFFFFFFFFFFFF` and sets
/// `0x40008000000000000000`, so the value is a version-4 UUID of the RFC 4122
/// variant; the other 122 bits come from the random source and are not stated.
#[verifier::external_body]
pub(crate) fn new_v4() -> (r: u128)
    ensures
        is_v4_uuid(r),
{
    uuid::Uuid::new_v4().as_u128()
}

/// `Uuid::from_u128(u).to_string()`: the hyphenated lowercase text.
#[verifier::external_body]
pub(crate) fn uuid_to_string(u: u128) -> (r: String)
    ensures
        r@ == uuid_hyphenated(u),
{
    uuid::Uuid::from_u128(u).to_string()
}

/// `Uuid::parse_str(text).ok()`, as a `u128`. The result is named by
/// `uuid_parse_spec`; the crate documents and tests that the hyphenated text
/// of a UUID parses back to that UUID, which the second clause states.
#[verifier::external_body]
pub(crate) fn uuid_parse(text: &str) -> (r: Option<u128>)
    ensures
        r == uuid_parse_spec(text@),
        forall|u: u128| text@ == uuid_hyphenated(u) ==> r == Some(u),
{
    match uuid::Uuid::parse_str(text) {
        Ok(u) => Some(u.as_u128()),
        Err(_) => None,
    }
}

proof fn lemma_hex_digit_injective(a: nat, b: nat)
    requires
        a < 16,
        b < 16,
        hex_digit(a) == hex_digit(b),
    ensures
        a == b,
{
}

proof fn lemma_hex_digits_injective(a: nat, b: nat, count: nat)
    requires
        hex_digits(a, count) == hex_digits(b, count),
    ensures
        a % pow16(count) == b % pow16(count),
    decreases count,
{
    if count > 0 {
        let da = hex_digits(a, count);
        let db = hex_digits(b, count);
        assert(da.last() == db.last());
        lemma_hex_digit_injective(a % 16, b % 16);
        assert(da.drop_last() =~= hex_digits(a / 16, (count - 1) as nat));
        assert(db.drop_last() =~= hex_digits(b / 16, (count - 1) as nat));
        lemma_hex_digits_injective(a / 16, b / 16, (count - 1) as nat);
        lemma_mod_pow16(a, (count - 1) as nat);
        lemma_mod_pow16(b, (count - 1) as nat);
    }
}

pub open spec fn pow16(n: nat) -> nat
    decreases n,
{
    if n == 0 {
        1
    } else {
        16 * pow16((n - 1) as nat)
    }
}

proof fn lemma_mod_pow16(a: nat, n: nat)
    ensures
        a % pow16(n + 1) == (a / 16) % pow16(n) * 16 + a % 16,
{
    assert(pow16(n + 1) == 16 * pow16(n));
    lemma_pow16_pos(n);
    vstd::arithmetic::div_mod::lemma_mod_breakdown(a as int, 16, pow16(n) as int);
}

proof fn lemma_pow16_pos(n: nat)
    ensures
        pow16(n) > 0,
    decreases n,
{
    if n > 0 {
        lemma_pow16_pos((n - 1) as nat);
    }
}

proof fn lemma_pow16_32()
    ensures
        pow16(32) == 0x1_0000_0000_0000_0000_0000_0000_0000_0000,
{
    reveal_with_fuel(pow16, 33);
}

/// The hyphenated text determines the UUID: distinct ids have distinct texts.
pub proof fn lemma_uuid_hyphenated_injective(a: u128, b: u128)
    requires
        uuid_hyphenated(a) == uuid_hyphenated(b),
    ensures
        a == b,
{
    let da = hex_digits(a as nat, 32);
    let db = hex_digits(b as nat, 32);
    lemma_hex_digits_len(a as nat, 32);
    lemma_hex_digits_len(b as nat, 32);
    let ha = uuid_hyphenated(a);
    let hb = uuid_hyphenated(b);
    assert forall|i: int| 0 <= i < 32 implies da[i] == db[i] by {
        let p = if i < 8 {
            i
        } else if i < 12 {
            i + 1
        } else if i < 16 {
            i + 2
        } else if i < 20 {
            i + 3
        } else {
            i + 4
        };
        assert(ha[p] == da[i]);
        assert(hb[p] == db[i]);
    }
    assert(da =~= db);
    lemma_hex_digits_injective(a as nat, b as nat, 32);
    lemma_pow16_32();
}

proof fn lemma_hex_digits_len(n: nat, count: nat)
    ensures
        hex_digits(n, count).len() == count,
    decreases count,
{
    if count > 0 {
        lemma_hex_digits_len(n / 16, (count - 1) as nat);
    }
}

} // verus!
