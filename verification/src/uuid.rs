//! Identifiers: a UUID as the number its sixteen bytes spell, most significant byte first.
use vstd::prelude::*;

verus! {

/// A UUID, held as the 128 bit number that its bytes spell in network order.
#[derive(Clone, Copy, Debug, PartialEq, Eq, Structural)]
pub struct Uuid {
    pub value: u128,
}

/// The number that `bytes` spell, most significant byte first.
pub open spec fn big_endian(bytes: Seq<u8>) -> nat
    decreases bytes.len(),
{
    if bytes.len() == 0 {
        0
    } else {
        big_endian(bytes.drop_last()) * 256 + bytes.last() as nat
    }
}

/// Two byte strings of one length that spell the same number are the same.
pub proof fn big_endian_is_injective(a: Seq<u8>, b: Seq<u8>)
    requires
        a.len() == b.len(),
        big_endian(a) == big_endian(b),
    ensures
        a == b,
    decreases a.len(),
{
    if a.len() > 0 {
        assert(a.last() == b.last() && big_endian(a.drop_last()) == big_endian(b.drop_last()));
        big_endian_is_injective(a.drop_last(), b.drop_last());
        assert(a =~= a.drop_last().push(a.last()));
        assert(b =~= b.drop_last().push(b.last()));
    }
    assert(a =~= b);
}

/// Two hundred fifty-six to the power of `count`.
pub open spec fn byte_power(count: nat) -> nat
    decreases count,
{
    if count == 0 {
        1
    } else {
        byte_power((count - 1) as nat) * 256
    }
}

/// Bytes spell a number below the power of their count.
pub proof fn big_endian_is_bounded(bytes: Seq<u8>)
    ensures
        big_endian(bytes) < byte_power(bytes.len()),
    decreases bytes.len(),
{
    if bytes.len() > 0 {
        big_endian_is_bounded(bytes.drop_last());
    }
}

/// Sixteen bytes spell a number of 128 bits.
pub proof fn sixteen_bytes_fit(bytes: Seq<u8>)
    requires
        bytes.len() == 16,
    ensures
        big_endian(bytes) <= u128::MAX,
{
    big_endian_is_bounded(bytes);
    reveal_with_fuel(byte_power, 17);
    assert(byte_power(16) == 0x1_0000_0000_0000_0000_0000_0000_0000_0000int);
}

/// The last `count` bytes of a number, most significant first.
pub open spec fn bytes_spelling(n: nat, count: nat) -> Seq<u8>
    decreases count,
{
    if count == 0 {
        Seq::empty()
    } else {
        bytes_spelling(n / 256, (count - 1) as nat).push((n % 256) as u8)
    }
}

/// The sixteen bytes of an identifier.
pub open spec fn raw_bytes(id: Uuid) -> Seq<u8> {
    bytes_spelling(id.value as nat, 16)
}

/// The bytes of a number spell it, where it is below the power of their count.
pub proof fn bytes_spell_their_number(n: nat, count: nat)
    requires
        n < byte_power(count),
    ensures
        bytes_spelling(n, count).len() == count,
        big_endian(bytes_spelling(n, count)) == n,
    decreases count,
{
    if count > 0 {
        bytes_spell_their_number(n / 256, (count - 1) as nat);
        assert(bytes_spelling(n, count).drop_last() =~= bytes_spelling(
            n / 256,
            (count - 1) as nat,
        ));
    }
}

/// Sixteen bytes that spell the number of an identifier are its bytes.
pub proof fn raw_bytes_are_those_that_spell(id: Uuid, bytes: Seq<u8>)
    requires
        bytes.len() == 16,
        big_endian(bytes) == id.value,
    ensures
        bytes == raw_bytes(id),
{
    big_endian_is_bounded(bytes);
    bytes_spell_their_number(id.value as nat, 16);
    big_endian_is_injective(bytes, raw_bytes(id));
}

/// The lower case hexadecimal digit of `n`, which is below sixteen.
pub open spec fn hex_digit(n: nat) -> char {
    if n < 10 {
        (('0' as u32) + n) as char
    } else {
        (('a' as u32) + (n - 10)) as char
    }
}

/// The last `count` hexadecimal digits of `n`, most significant first.
pub open spec fn hex_text(n: nat, count: nat) -> Seq<char>
    decreases count,
{
    if count == 0 {
        Seq::empty()
    } else {
        hex_text(n / 16, (count - 1) as nat).push(hex_digit(n % 16))
    }
}

/// The thirty-two digits of an identifier without hyphens.
pub open spec fn simple_text(id: Uuid) -> Seq<char> {
    hex_text(id.value as nat, 32)
}

/// The digits of an identifier in groups of eight, four, four, four and twelve.
pub open spec fn hyphenated_text(id: Uuid) -> Seq<char> {
    let digits = simple_text(id);
    digits.subrange(0, 8) + "-"@ + digits.subrange(8, 12) + "-"@ + digits.subrange(12, 16) + "-"@
        + digits.subrange(16, 20) + "-"@ + digits.subrange(20, 32)
}

/// `uuid::Uuid::from_u128` and `into_bytes`: the bytes of the UUID, which spell `value` with the
/// most significant byte first.
#[verifier::external_body]
fn bytes_of(value: u128) -> (r: [u8; 16])
    ensures
        big_endian(r@) == value,
{
    uuid::Uuid::from_u128(value).into_bytes()
}

/// `uuid::Uuid::from_bytes` and `as_u128`: the number that the bytes spell with the most
/// significant byte first.
#[verifier::external_body]
fn value_of(bytes: [u8; 16]) -> (r: u128)
    ensures
        r == big_endian(bytes@),
{
    uuid::Uuid::from_bytes(bytes).as_u128()
}

/// `uuid::Uuid`'s `Display`: lower case hexadecimal digits, hyphens after the eighth, twelfth,
/// sixteenth and twentieth.
#[verifier::external_body]
fn display_of(value: u128) -> (r: String)
    ensures
        r@ == hyphenated_text(Uuid { value }),
{
    uuid::Uuid::from_u128(value).to_string()
}

/// `uuid::Uuid::simple` and its `Display`: the same digits without hyphens.
#[verifier::external_body]
fn simple_of(value: u128) -> (r: String)
    ensures
        r@ == simple_text(Uuid { value }),
{
    uuid::Uuid::from_u128(value).simple().to_string()
}

impl Uuid {
    /// The identifier whose bytes spell `value`.
    pub fn from_u128(value: u128) -> (r: Uuid)
        ensures
            r.value == value,
    {
        Uuid { value }
    }

    /// The number that the identifier's bytes spell.
    pub fn as_u128(&self) -> (r: u128)
        ensures
            r == self.value,
    {
        self.value
    }

    /// The identifier with these bytes.
    pub fn from_bytes(bytes: [u8; 16]) -> (r: Uuid)
        ensures
            r.value == big_endian(bytes@),
    {
        Uuid { value: value_of(bytes) }
    }

    /// The sixteen bytes of the identifier.
    pub fn into_bytes(self) -> (r: [u8; 16])
        ensures
            big_endian(r@) == self.value,
    {
        bytes_of(self.value)
    }

    /// The identifier in its hyphenated notation.
    pub fn to_text(&self) -> (r: String)
        ensures
            r@ == hyphenated_text(*self),
    {
        display_of(self.value)
    }

    /// The identifier's digits without hyphens.
    pub fn to_simple_text(&self) -> (r: String)
        ensures
            r@ == simple_text(*self),
    {
        simple_of(self.value)
    }
}

} // verus!
