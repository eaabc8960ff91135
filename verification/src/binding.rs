//! What the commitment binds: two sets of terms with the same commitment
//! are the same terms, unless the digest collides.

use vstd::prelude::*;
use vstd::bytes::{
    lemma_auto_spec_u32_to_from_le_bytes, lemma_auto_spec_u64_to_from_le_bytes,
    spec_u32_from_le_bytes, spec_u32_to_le_bytes, spec_u64_from_le_bytes, spec_u64_to_le_bytes,
};
use vstd::utf8::{encode_utf8, encode_utf8_decode_utf8};
use crate::text::{decimal, digit_char, lemma_hex_lower_injective};
use crate::types::{
    commitment, commitment_bytes, commitment_preimage, encoded_bytes, encoded_record,
    encoded_text, encoded_timelocks, ImmutablesView, Timelocks,
};
use crate::utils::{escrow_address, instantiate2_collides, keccak256_digest, lemma_address_binds};

verus! {

/// Whether two different byte strings have the same Keccak-256 digest.
pub open spec fn keccak256_collides() -> bool {
    exists|x: Seq<u8>, y: Seq<u8>|
        #![trigger keccak256_digest(x), keccak256_digest(y)]
        x != y && keccak256_digest(x) == keccak256_digest(y)
}

/// Whether a text's length in UTF-8 bytes fits the eight bytes that the
/// canonical encoding has for it. Every text in memory does.
pub open spec fn fits(text: Seq<char>) -> bool {
    encode_utf8(text).len() <= u64::MAX
}

/// Whether every text of the terms, the amounts in decimal among them,
/// fits the canonical encoding. All terms in memory do.
pub open spec fn encodable(terms: ImmutablesView) -> bool {
    &&& fits(terms.order_hash)
    &&& fits(terms.hashlock)
    &&& fits(terms.maker)
    &&& fits(terms.taker)
    &&& fits(terms.token)
    &&& fits(decimal(terms.amount))
    &&& fits(decimal(terms.safety_deposit))
}

/// Every number has at least one decimal digit.
proof fn lemma_decimal_is_not_empty(n: nat)
    ensures
        decimal(n).len() >= 1,
    decreases n,
{
    if n >= 10 {
        lemma_decimal_is_not_empty(n / 10);
    }
}

/// Two digits with the same character are the same digit.
proof fn lemma_digit_char_injective(a: int, b: int)
    requires
        0 <= a < 10,
        0 <= b < 10,
        digit_char(a) == digit_char(b),
    ensures
        a == b,
{
    assert(digit_char(a) as int == 48 + a);
    assert(digit_char(b) as int == 48 + b);
}

/// Two numbers with the same decimal digits are the same number.
pub proof fn lemma_decimal_injective(m: nat, n: nat)
    requires
        decimal(m) == decimal(n),
    ensures
        m == n,
    decreases m,
{
    lemma_decimal_is_not_empty(m / 10);
    lemma_decimal_is_not_empty(n / 10);
    if m < 10 && n < 10 {
        assert(decimal(m)[0] == digit_char(m as int));
        assert(decimal(n)[0] == digit_char(n as int));
        lemma_digit_char_injective(m as int, n as int);
        assert(m == n);
    } else if m < 10 {
        assert(decimal(m).len() == 1);
        assert(decimal(n).len() == decimal(n / 10).len() + 1);
        assert(false);
    } else if n < 10 {
        assert(decimal(n).len() == 1);
        assert(decimal(m).len() == decimal(m / 10).len() + 1);
        assert(false);
    } else {
        let dm = decimal(m / 10).push(digit_char((m % 10) as int));
        let dn = decimal(n / 10).push(digit_char((n % 10) as int));
        assert(decimal(m) == dm);
        assert(decimal(n) == dn);
        assert(dm.drop_last() =~= decimal(m / 10));
        assert(dn.drop_last() =~= decimal(n / 10));
        assert(dm.last() == digit_char((m % 10) as int));
        assert(dn.last() == digit_char((n % 10) as int));
        lemma_decimal_injective(m / 10, n / 10);
        lemma_digit_char_injective((m % 10) as int, (n % 10) as int);
        assert(m / 10 == n / 10);
        assert(m % 10 == n % 10);
        assert(m == 10 * (m / 10) + m % 10);
        assert(n == 10 * (n / 10) + n % 10);
    }
}

/// Two byte strings that begin with an encoded text begin with the same
/// text and go on in the same way, if they are the same.
proof fn lemma_text_first(s: Seq<char>, after_s: Seq<u8>, t: Seq<char>, after_t: Seq<u8>)
    requires
        fits(s),
        fits(t),
        encoded_text(s) + after_s == encoded_text(t) + after_t,
    ensures
        s == t,
        after_s == after_t,
{
    lemma_auto_spec_u64_to_from_le_bytes();
    let whole = encoded_text(s) + after_s;
    let same = encoded_text(t) + after_t;
    let length_s = spec_u64_to_le_bytes(encode_utf8(s).len() as u64);
    let length_t = spec_u64_to_le_bytes(encode_utf8(t).len() as u64);
    assert(whole.subrange(0, 8) =~= length_s);
    assert(same.subrange(0, 8) =~= length_t);
    assert(spec_u64_from_le_bytes(length_s) == spec_u64_from_le_bytes(length_t));
    let n = encode_utf8(s).len() as int;
    assert(encode_utf8(t).len() == n);
    assert(whole.subrange(8, 8 + n) =~= encode_utf8(s));
    assert(same.subrange(8, 8 + n) =~= encode_utf8(t));
    encode_utf8_decode_utf8(s);
    encode_utf8_decode_utf8(t);
    assert(whole.subrange(8 + n, whole.len() as int) =~= after_s);
    assert(same.subrange(8 + n, same.len() as int) =~= after_t);
}

/// Two byte strings that begin with an encoded 64-bit integer begin with
/// the same integer and go on in the same way, if they are the same.
proof fn lemma_u64_first(x: u64, after_x: Seq<u8>, y: u64, after_y: Seq<u8>)
    requires
        spec_u64_to_le_bytes(x) + after_x == spec_u64_to_le_bytes(y) + after_y,
    ensures
        x == y,
        after_x == after_y,
{
    lemma_auto_spec_u64_to_from_le_bytes();
    let whole = spec_u64_to_le_bytes(x) + after_x;
    let same = spec_u64_to_le_bytes(y) + after_y;
    assert(whole.subrange(0, 8) =~= spec_u64_to_le_bytes(x));
    assert(same.subrange(0, 8) =~= spec_u64_to_le_bytes(y));
    assert(spec_u64_from_le_bytes(spec_u64_to_le_bytes(x)) == spec_u64_from_le_bytes(
        spec_u64_to_le_bytes(y),
    ));
    assert(whole.subrange(8, whole.len() as int) =~= after_x);
    assert(same.subrange(8, same.len() as int) =~= after_y);
}

/// Two byte strings that begin with an encoded 32-bit integer begin with
/// the same integer and go on in the same way, if they are the same.
proof fn lemma_u32_first(x: u32, after_x: Seq<u8>, y: u32, after_y: Seq<u8>)
    requires
        spec_u32_to_le_bytes(x) + after_x == spec_u32_to_le_bytes(y) + after_y,
    ensures
        x == y,
        after_x == after_y,
{
    lemma_auto_spec_u32_to_from_le_bytes();
    let whole = spec_u32_to_le_bytes(x) + after_x;
    let same = spec_u32_to_le_bytes(y) + after_y;
    assert(whole.subrange(0, 4) =~= spec_u32_to_le_bytes(x));
    assert(same.subrange(0, 4) =~= spec_u32_to_le_bytes(y));
    assert(spec_u32_from_le_bytes(spec_u32_to_le_bytes(x)) == spec_u32_from_le_bytes(
        spec_u32_to_le_bytes(y),
    ));
    assert(whole.subrange(4, whole.len() as int) =~= after_x);
    assert(same.subrange(4, same.len() as int) =~= after_y);
}

/// Two byte strings with the same encoding are the same.
proof fn lemma_bytes_last(a: Seq<u8>, b: Seq<u8>)
    requires
        encoded_bytes(a) == encoded_bytes(b),
    ensures
        a == b,
{
    lemma_auto_spec_u64_to_from_le_bytes();
    assert(encoded_bytes(a).subrange(8, encoded_bytes(a).len() as int) =~= a);
    assert(encoded_bytes(b).subrange(8, encoded_bytes(b).len() as int) =~= b);
}

/// Joining byte strings is associative.
proof fn lemma_join(a: Seq<u8>, b: Seq<u8>, c: Seq<u8>)
    ensures
        (a + b) + c == a + (b + c),
{
    assert((a + b) + c =~= a + (b + c));
}

/// Nine byte strings joined from the left are the first of them joined to
/// the rest, and so on down the rest.
proof fn lemma_join_nine(
    x1: Seq<u8>,
    x2: Seq<u8>,
    x3: Seq<u8>,
    x4: Seq<u8>,
    x5: Seq<u8>,
    x6: Seq<u8>,
    x7: Seq<u8>,
    x8: Seq<u8>,
    x9: Seq<u8>,
)
    ensures
        x1 + x2 + x3 + x4 + x5 + x6 + x7 + x8 + x9 == x1 + (x2 + (x3 + (x4 + (x5 + (x6 + (x7 + (x8
            + x9))))))),
{
    lemma_join(x1 + x2 + x3 + x4 + x5 + x6 + x7, x8, x9);
    lemma_join(x1 + x2 + x3 + x4 + x5 + x6, x7, x8 + x9);
    lemma_join(x1 + x2 + x3 + x4 + x5, x6, x7 + (x8 + x9));
    lemma_join(x1 + x2 + x3 + x4, x5, x6 + (x7 + (x8 + x9)));
    lemma_join(x1 + x2 + x3, x4, x5 + (x6 + (x7 + (x8 + x9))));
    lemma_join(x1 + x2, x3, x4 + (x5 + (x6 + (x7 + (x8 + x9)))));
    lemma_join(x1, x2, x3 + (x4 + (x5 + (x6 + (x7 + (x8 + x9))))));
}

/// Time locks followed by the same bytes are the same time locks, if
/// their encodings followed by those bytes are the same.
proof fn lemma_timelocks_first(a: Timelocks, after_a: Seq<u8>, b: Timelocks, after_b: Seq<u8>)
    requires
        encoded_timelocks(a) + after_a == encoded_timelocks(b) + after_b,
    ensures
        a == b,
        after_a == after_b,
{
    let a7 = spec_u32_to_le_bytes(a.dst_cancellation) + after_a;
    let a6 = spec_u32_to_le_bytes(a.dst_public_withdrawal) + a7;
    let a5 = spec_u32_to_le_bytes(a.dst_withdrawal) + a6;
    let a4 = spec_u32_to_le_bytes(a.src_public_cancellation) + a5;
    let a3 = spec_u32_to_le_bytes(a.src_cancellation) + a4;
    let a2 = spec_u32_to_le_bytes(a.src_public_withdrawal) + a3;
    let a1 = spec_u32_to_le_bytes(a.src_withdrawal) + a2;
    let b7 = spec_u32_to_le_bytes(b.dst_cancellation) + after_b;
    let b6 = spec_u32_to_le_bytes(b.dst_public_withdrawal) + b7;
    let b5 = spec_u32_to_le_bytes(b.dst_withdrawal) + b6;
    let b4 = spec_u32_to_le_bytes(b.src_public_cancellation) + b5;
    let b3 = spec_u32_to_le_bytes(b.src_cancellation) + b4;
    let b2 = spec_u32_to_le_bytes(b.src_public_withdrawal) + b3;
    let b1 = spec_u32_to_le_bytes(b.src_withdrawal) + b2;
    lemma_join_nine(
        spec_u64_to_le_bytes(a.deployed_at),
        spec_u32_to_le_bytes(a.src_withdrawal),
        spec_u32_to_le_bytes(a.src_public_withdrawal),
        spec_u32_to_le_bytes(a.src_cancellation),
        spec_u32_to_le_bytes(a.src_public_cancellation),
        spec_u32_to_le_bytes(a.dst_withdrawal),
        spec_u32_to_le_bytes(a.dst_public_withdrawal),
        spec_u32_to_le_bytes(a.dst_cancellation),
        after_a,
    );
    lemma_join_nine(
        spec_u64_to_le_bytes(b.deployed_at),
        spec_u32_to_le_bytes(b.src_withdrawal),
        spec_u32_to_le_bytes(b.src_public_withdrawal),
        spec_u32_to_le_bytes(b.src_cancellation),
        spec_u32_to_le_bytes(b.src_public_cancellation),
        spec_u32_to_le_bytes(b.dst_withdrawal),
        spec_u32_to_le_bytes(b.dst_public_withdrawal),
        spec_u32_to_le_bytes(b.dst_cancellation),
        after_b,
    );
    assert(encoded_timelocks(a) + after_a == spec_u64_to_le_bytes(a.deployed_at) + a1);
    assert(encoded_timelocks(b) + after_b == spec_u64_to_le_bytes(b.deployed_at) + b1);
    lemma_u64_first(a.deployed_at, a1, b.deployed_at, b1);
    lemma_u32_first(a.src_withdrawal, a2, b.src_withdrawal, b2);
    lemma_u32_first(a.src_public_withdrawal, a3, b.src_public_withdrawal, b3);
    lemma_u32_first(a.src_cancellation, a4, b.src_cancellation, b4);
    lemma_u32_first(a.src_public_cancellation, a5, b.src_public_cancellation, b5);
    lemma_u32_first(a.dst_withdrawal, a6, b.dst_withdrawal, b6);
    lemma_u32_first(a.dst_public_withdrawal, a7, b.dst_public_withdrawal, b7);
    lemma_u32_first(a.dst_cancellation, after_a, b.dst_cancellation, after_b);
}

/// The canonical encoding tells records apart: two records of texts that
/// fit, with the same encoding, are the same field by field.
pub proof fn lemma_encoded_record_injective(
    a: ImmutablesView,
    a_amount: Seq<char>,
    a_deposit: Seq<char>,
    a_last: Seq<u8>,
    b: ImmutablesView,
    b_amount: Seq<char>,
    b_deposit: Seq<char>,
    b_last: Seq<u8>,
)
    requires
        fits(a.order_hash) && fits(a.hashlock) && fits(a.maker) && fits(a.taker) && fits(a.token),
        fits(b.order_hash) && fits(b.hashlock) && fits(b.maker) && fits(b.taker) && fits(b.token),
        fits(a_amount) && fits(a_deposit) && fits(b_amount) && fits(b_deposit),
        encoded_record(
            a.order_hash,
            a.hashlock,
            a.maker,
            a.taker,
            a.token,
            a_amount,
            a_deposit,
            a.timelocks,
            a_last,
        ) == encoded_record(
            b.order_hash,
            b.hashlock,
            b.maker,
            b.taker,
            b.token,
            b_amount,
            b_deposit,
            b.timelocks,
            b_last,
        ),
    ensures
        a.order_hash == b.order_hash,
        a.hashlock == b.hashlock,
        a.maker == b.maker,
        a.taker == b.taker,
        a.token == b.token,
        a_amount == b_amount,
        a_deposit == b_deposit,
        a.timelocks == b.timelocks,
        a_last == b_last,
{
    let a8 = encoded_bytes(a_last);
    let a7 = encoded_timelocks(a.timelocks) + a8;
    let a6 = encoded_text(a_deposit) + a7;
    let a5 = encoded_text(a_amount) + a6;
    let a4 = encoded_text(a.token) + a5;
    let a3 = encoded_text(a.taker) + a4;
    let a2 = encoded_text(a.maker) + a3;
    let a1 = encoded_text(a.hashlock) + a2;
    let b8 = encoded_bytes(b_last);
    let b7 = encoded_timelocks(b.timelocks) + b8;
    let b6 = encoded_text(b_deposit) + b7;
    let b5 = encoded_text(b_amount) + b6;
    let b4 = encoded_text(b.token) + b5;
    let b3 = encoded_text(b.taker) + b4;
    let b2 = encoded_text(b.maker) + b3;
    let b1 = encoded_text(b.hashlock) + b2;
    lemma_join_nine(
        encoded_text(a.order_hash),
        encoded_text(a.hashlock),
        encoded_text(a.maker),
        encoded_text(a.taker),
        encoded_text(a.token),
        encoded_text(a_amount),
        encoded_text(a_deposit),
        encoded_timelocks(a.timelocks),
        a8,
    );
    lemma_join_nine(
        encoded_text(b.order_hash),
        encoded_text(b.hashlock),
        encoded_text(b.maker),
        encoded_text(b.taker),
        encoded_text(b.token),
        encoded_text(b_amount),
        encoded_text(b_deposit),
        encoded_timelocks(b.timelocks),
        b8,
    );
    lemma_text_first(a.order_hash, a1, b.order_hash, b1);
    lemma_text_first(a.hashlock, a2, b.hashlock, b2);
    lemma_text_first(a.maker, a3, b.maker, b3);
    lemma_text_first(a.taker, a4, b.taker, b4);
    lemma_text_first(a.token, a5, b.token, b5);
    lemma_text_first(a_amount, a6, b_amount, b6);
    lemma_text_first(a_deposit, a7, b_deposit, b7);
    lemma_timelocks_first(a.timelocks, a8, b.timelocks, b8);
    lemma_bytes_last(a_last, b_last);
}

/// The commitment binds every one of the terms. Two sets of terms with
/// the same commitment are the same in every field, `parameters`
/// included, unless two different byte strings have the same Keccak-256
/// digest. So to change any field is to change the commitment, or to
/// have found such a collision.
pub proof fn lemma_commitment_binds(a: ImmutablesView, b: ImmutablesView)
    requires
        encodable(a),
        encodable(b),
        commitment(a) == commitment(b),
    ensures
        a == b || keccak256_collides(),
{
    lemma_hex_lower_injective(commitment_bytes(a), commitment_bytes(b));
    if commitment_preimage(a) != commitment_preimage(b) {
        assert(keccak256_digest(commitment_preimage(a)) == keccak256_digest(
            commitment_preimage(b),
        ));
    } else {
        lemma_encoded_record_injective(
            a,
            decimal(a.amount),
            decimal(a.safety_deposit),
            keccak256_digest(a.parameters),
            b,
            decimal(b.amount),
            decimal(b.safety_deposit),
            keccak256_digest(b.parameters),
        );
        lemma_decimal_injective(a.amount, b.amount);
        lemma_decimal_injective(a.safety_deposit, b.safety_deposit);
        if a.parameters != b.parameters {
            assert(keccak256_digest(a.parameters) == keccak256_digest(b.parameters));
        }
    }
}

/// The address binds the terms. Two escrows at the same address have the
/// same code, the same factory and the same terms, field by field,
/// unless the derivation of addresses or Keccak-256 collides.
pub proof fn lemma_address_binds_the_terms(
    terms: ImmutablesView,
    checksum: Seq<u8>,
    creator: Seq<u8>,
    other_terms: ImmutablesView,
    other_checksum: Seq<u8>,
    other_creator: Seq<u8>,
)
    requires
        encodable(terms),
        encodable(other_terms),
        escrow_address(terms, checksum, creator) is Ok,
        escrow_address(terms, checksum, creator) == escrow_address(
            other_terms,
            other_checksum,
            other_creator,
        ),
    ensures
        instantiate2_collides() || keccak256_collides() || (checksum == other_checksum && creator
            == other_creator && terms == other_terms),
{
    lemma_address_binds(terms, checksum, creator, other_terms, other_checksum, other_creator);
    if commitment_bytes(terms) == commitment_bytes(other_terms) {
        lemma_commitment_binds(terms, other_terms);
    }
}

/// The commitment is a function of the terms: the same terms have the
/// same commitment, whoever works it out and whenever.
pub proof fn lemma_commitment_is_determined(a: ImmutablesView, b: ImmutablesView)
    requires
        a == b,
    ensures
        commitment(a) == commitment(b),
        commitment_bytes(a) == commitment_bytes(b),
{
}

} // verus!
