//! Identifiers of items, item instances and auctions: 128-bit UUIDs.

use vstd::prelude::*;

verus! {

/// An identifier, as the 128 bits of a UUID, most significant byte first.
pub type Id = u128;

/// Whether the bits of `id` carry the version and variant of a random UUID.
pub open spec fn is_random_uuid(id: Id) -> bool {
    (id >> 76) & 0xf == 4 && (id >> 62) & 0x3 == 2
}

/// The `k`-th of the 32 hexadecimal digits of `id`, from the left.
pub open spec fn hex_digit(id: Id, k: int) -> char {
    "0123456789abcdef"@[((id >> ((4 * (31 - k)) as u128)) & 0xf) as int]
}

/// How many hyphens stand before position `i` of an identifier's text.
pub open spec fn hyphens_before(i: int) -> int {
    if i < 8 {
        0
    } else if i < 13 {
        1
    } else if i < 18 {
        2
    } else if i < 23 {
        3
    } else {
        4
    }
}

/// The text of an identifier: its 32 lower-case hexadecimal digits in groups
/// of 8, 4, 4, 4 and 12, with a hyphen between two groups.
pub open spec fn id_text(id: Id) -> Seq<char> {
    Seq::new(
        36,
        |i: int|
            if i == 8 || i == 13 || i == 18 || i == 23 {
                '-'
            } else {
                hex_digit(id, i - hyphens_before(i))
            },
    )
}

/// `uuid::Uuid::new_v4` followed by `Uuid::as_u128`: a random identifier.
/// `new_v4` overwrites six of the random bits with the version 4 and the
/// variant of RFC 9562; of the others nothing is known.
#[verifier::external_body]
pub(crate) fn random_uuid() -> (id: Id)
    ensures
        is_random_uuid(id),
{
    uuid::Uuid::new_v4().as_u128()
}

/// `uuid::Uuid::from_u128` followed by the `Display` of `Uuid`, which writes
/// the hyphenated lower-case form.
#[verifier::external_body]
pub(crate) fn uuid_to_string(id: Id) -> (text: String)
    ensures
        text@ == id_text(id),
{
    uuid::Uuid::from_u128(id).to_string()
}

/// Where the position `i` of an identifier's text holds its `k`-th digit.
pub open spec fn digit_position(k: int) -> int {
    if k < 8 {
        k
    } else if k < 12 {
        k + 1
    } else if k < 16 {
        k + 2
    } else if k < 20 {
        k + 3
    } else {
        k + 4
    }
}

/// Four bits are a number below sixteen.
proof fn lemma_digit_is_small(id: Id, shift: u128)
    by (bit_vector)
    ensures
        (id >> shift) & 0xf < 16,
{
}

/// Two numbers with the same 32 hexadecimal digits are one number.
proof fn lemma_same_digits(a: u128, b: u128)
    by (bit_vector)
    requires
        (a >> 124u128) & 0xf == (b >> 124u128) & 0xf,
        (a >> 120u128) & 0xf == (b >> 120u128) & 0xf,
        (a >> 116u128) & 0xf == (b >> 116u128) & 0xf,
        (a >> 112u128) & 0xf == (b >> 112u128) & 0xf,
        (a >> 108u128) & 0xf == (b >> 108u128) & 0xf,
        (a >> 104u128) & 0xf == (b >> 104u128) & 0xf,
        (a >> 100u128) & 0xf == (b >> 100u128) & 0xf,
        (a >> 96u128) & 0xf == (b >> 96u128) & 0xf,
        (a >> 92u128) & 0xf == (b >> 92u128) & 0xf,
        (a >> 88u128) & 0xf == (b >> 88u128) & 0xf,
        (a >> 84u128) & 0xf == (b >> 84u128) & 0xf,
        (a >> 80u128) & 0xf == (b >> 80u128) & 0xf,
        (a >> 76u128) & 0xf == (b >> 76u128) & 0xf,
        (a >> 72u128) & 0xf == (b >> 72u128) & 0xf,
        (a >> 68u128) & 0xf == (b >> 68u128) & 0xf,
        (a >> 64u128) & 0xf == (b >> 64u128) & 0xf,
        (a >> 60u128) & 0xf == (b >> 60u128) & 0xf,
        (a >> 56u128) & 0xf == (b >> 56u128) & 0xf,
        (a >> 52u128) & 0xf == (b >> 52u128) & 0xf,
        (a >> 48u128) & 0xf == (b >> 48u128) & 0xf,
        (a >> 44u128) & 0xf == (b >> 44u128) & 0xf,
        (a >> 40u128) & 0xf == (b >> 40u128) & 0xf,
        (a >> 36u128) & 0xf == (b >> 36u128) & 0xf,
        (a >> 32u128) & 0xf == (b >> 32u128) & 0xf,
        (a >> 28u128) & 0xf == (b >> 28u128) & 0xf,
        (a >> 24u128) & 0xf == (b >> 24u128) & 0xf,
        (a >> 20u128) & 0xf == (b >> 20u128) & 0xf,
        (a >> 16u128) & 0xf == (b >> 16u128) & 0xf,
        (a >> 12u128) & 0xf == (b >> 12u128) & 0xf,
        (a >> 8u128) & 0xf == (b >> 8u128) & 0xf,
        (a >> 4u128) & 0xf == (b >> 4u128) & 0xf,
        (a >> 0u128) & 0xf == (b >> 0u128) & 0xf,
    ensures
        a == b,
{
}

/// Where two identifiers have one text, their `k`-th digits are the same
/// four bits.
proof fn lemma_same_digit(a: Id, b: Id, k: int, i: int)
    requires
        0 <= k < 32,
        i == digit_position(k),
        id_text(a)[i] == id_text(b)[i],
    ensures
        (a >> ((4 * (31 - k)) as u128)) & 0xf == (b >> ((4 * (31 - k)) as u128)) & 0xf,
{
    reveal_strlit("0123456789abcdef");
    let shift = (4 * (31 - k)) as u128;
    lemma_digit_is_small(a, shift);
    lemma_digit_is_small(b, shift);
    assert(hex_digit(a, k) == hex_digit(b, k));
}

/// Two identifiers with one text are one identifier: the text of an
/// identifier is as good a key as the identifier.
pub proof fn law_id_text_is_a_key(a: Id, b: Id)
    requires
        id_text(a) == id_text(b),
    ensures
        a == b,
{
    lemma_same_digit(a, b, 0, 0);
    lemma_same_digit(a, b, 1, 1);
    lemma_same_digit(a, b, 2, 2);
    lemma_same_digit(a, b, 3, 3);
    lemma_same_digit(a, b, 4, 4);
    lemma_same_digit(a, b, 5, 5);
    lemma_same_digit(a, b, 6, 6);
    lemma_same_digit(a, b, 7, 7);
    lemma_same_digit(a, b, 8, 9);
    lemma_same_digit(a, b, 9, 10);
    lemma_same_digit(a, b, 10, 11);
    lemma_same_digit(a, b, 11, 12);
    lemma_same_digit(a, b, 12, 14);
    lemma_same_digit(a, b, 13, 15);
    lemma_same_digit(a, b, 14, 16);
    lemma_same_digit(a, b, 15, 17);
    lemma_same_digit(a, b, 16, 19);
    lemma_same_digit(a, b, 17, 20);
    lemma_same_digit(a, b, 18, 21);
    lemma_same_digit(a, b, 19, 22);
    lemma_same_digit(a, b, 20, 24);
    lemma_same_digit(a, b, 21, 25);
    lemma_same_digit(a, b, 22, 26);
    lemma_same_digit(a, b, 23, 27);
    lemma_same_digit(a, b, 24, 28);
    lemma_same_digit(a, b, 25, 29);
    lemma_same_digit(a, b, 26, 30);
    lemma_same_digit(a, b, 27, 31);
    lemma_same_digit(a, b, 28, 32);
    lemma_same_digit(a, b, 29, 33);
    lemma_same_digit(a, b, 30, 34);
    lemma_same_digit(a, b, 31, 35);
    lemma_same_digits(a, b);
}

/// The text of a random identifier shows its version at the head of the
/// third group.
pub proof fn law_random_id_shows_its_version(id: Id)
    requires
        is_random_uuid(id),
    ensures
        id_text(id).len() == 36,
        id_text(id)[14] == '4',
{
    reveal_strlit("0123456789abcdef");
}

} // verus!
