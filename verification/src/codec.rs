//! The message builders and the query codec: the exact byte payloads of the
//! "create denomination" and "mint" calls, the metadata-query request, and the
//! decoder for the metadata-query response.

use vstd::prelude::*;
use vstd::utf8::{decode_utf8, encode_utf8, valid_utf8};

use crate::decimal::{dec_str, lemma_dec_str_short, u128_to_dec_string};
use crate::error::ContractError;
use crate::msg::{Coin, DenomAuthorityMetadata};
use crate::wire::{
    field_enc, field_parse, lemma_field_round_trip, lemma_pow128_9, lemma_varint_enc_len, pow128,
    read_field, str_field_enc, WireBuilder,
};

verus! {

// ---------------------------------------------------------------------------
// The outbound message shapes
// ---------------------------------------------------------------------------

/// The bytes of a "create denomination" call: field 1 the issuing account,
/// field 2 the subdenomination, both always present.
pub open spec fn create_denom_enc(sender: Seq<char>, subdenom: Seq<char>) -> Seq<u8> {
    str_field_enc(1, sender) + str_field_enc(2, subdenom)
}

/// The bytes of a nested coin message: field 1 the denomination, field 2 the
/// amount as a base-ten digit string.
pub open spec fn coin_enc(denom: Seq<char>, amount_str: Seq<char>) -> Seq<u8> {
    str_field_enc(1, denom) + str_field_enc(2, amount_str)
}

/// The bytes of a "mint" call: field 1 the issuing account, field 2 the coin
/// message, field 3 the recipient account.
pub open spec fn mint_enc(
    sender: Seq<char>,
    denom: Seq<char>,
    amount_str: Seq<char>,
    recipient: Seq<char>,
) -> Seq<u8> {
    str_field_enc(1, sender) + field_enc(2, coin_enc(denom, amount_str)) + str_field_enc(
        3,
        recipient,
    )
}

/// The bytes of a metadata-query request: field 1 the denomination.
pub open spec fn metadata_query_enc(denom: Seq<char>) -> Seq<u8> {
    str_field_enc(1, denom)
}

// ---------------------------------------------------------------------------
// The builders
// ---------------------------------------------------------------------------

/// Build the "create denomination" payload through the raw encoder.
pub fn encode_msg_create_denom(sender: String, subdenom: String) -> (r: Vec<u8>)
    ensures
        r@ == create_denom_enc(sender@, subdenom@),
{
    let r = WireBuilder::new().append_string(1, sender.as_str()).append_string(
        2,
        subdenom.as_str(),
    ).into_vec();
    assert(r@ =~= create_denom_enc(sender@, subdenom@));
    r
}

/// Build the "mint" payload through the raw encoder. The amount is rendered
/// as its base-ten digit string inside the nested coin message.
pub fn encode_msg_mint(sender: String, amount: &Coin, mint_to_address: String) -> (r: Vec<u8>)
    ensures
        r@ == mint_enc(sender@, amount.denom@, dec_str(amount.amount as nat), mint_to_address@),
{
    let amount_str = u128_to_dec_string(amount.amount);
    let coin = WireBuilder::new().append_string(1, amount.denom.as_str()).append_string(
        2,
        amount_str.as_str(),
    );
    assert(coin@ =~= coin_enc(amount.denom@, dec_str(amount.amount as nat)));
    let r = WireBuilder::new().append_string(1, sender.as_str()).append_message(
        2,
        &coin,
    ).append_string(3, mint_to_address.as_str()).into_vec();
    assert(r@ =~= mint_enc(
        sender@,
        amount.denom@,
        dec_str(amount.amount as nat),
        mint_to_address@,
    ));
    r
}

/// Build the metadata-query request payload.
pub fn encode_query_denom_authority_metadata_request(denom: String) -> (r: Vec<u8>)
    ensures
        r@ == metadata_query_enc(denom@),
{
    let r = WireBuilder::new().append_string(1, denom.as_str()).into_vec();
    assert(r@ =~= metadata_query_enc(denom@));
    r
}

// ---------------------------------------------------------------------------
// Round trips: the payloads carry exactly their fields
// ---------------------------------------------------------------------------

/// Parse a message of exactly two length-delimited fields covering the whole
/// input: both tags with their payloads.
pub open spec fn two_fields_parse(b: Seq<u8>) -> Option<((nat, Seq<u8>), (nat, Seq<u8>))> {
    match field_parse(b) {
        None => None,
        Some((t1, p1, rest)) => match field_parse(rest) {
            None => None,
            Some((t2, p2, rest2)) => if rest2.len() == 0 {
                Some(((t1, p1), (t2, p2)))
            } else {
                None
            },
        },
    }
}

/// A "create denomination" payload decodes back to exactly field 1 holding
/// the sender and field 2 holding the subdenomination, with no other fields
/// present, and the UTF-8 payloads decode back to the original strings.
pub proof fn lemma_create_denom_round_trip(sender: Seq<char>, subdenom: Seq<char>)
    requires
        encode_utf8(sender).len() < pow128(9),
        encode_utf8(subdenom).len() < pow128(9),
    ensures
        two_fields_parse(create_denom_enc(sender, subdenom)) == Some(
            ((1 as nat, encode_utf8(sender)), (2 as nat, encode_utf8(subdenom))),
        ),
        decode_utf8(encode_utf8(sender)) == sender,
        decode_utf8(encode_utf8(subdenom)) == subdenom,
{
    let es = encode_utf8(sender);
    let ed = encode_utf8(subdenom);
    let b = create_denom_enc(sender, subdenom);
    assert(b =~= field_enc(1, es) + field_enc(2, ed));
    lemma_field_round_trip(1, es, field_enc(2, ed));
    assert(field_enc(2, ed) =~= field_enc(2, ed) + Seq::<u8>::empty());
    lemma_field_round_trip(2, ed, Seq::empty());
    vstd::utf8::encode_utf8_decode_utf8(sender);
    vstd::utf8::encode_utf8_decode_utf8(subdenom);
}

/// Parse a "mint" message covering the whole input: field 1 the sender,
/// field 2 a nested two-field coin message (denomination, amount string),
/// field 3 the recipient, and nothing else.
pub open spec fn mint_fields_parse(b: Seq<u8>) -> Option<(Seq<u8>, (Seq<u8>, Seq<u8>), Seq<u8>)> {
    match field_parse(b) {
        None => None,
        Some((t1, p1, rest)) => if t1 != 1 {
            None
        } else {
            match field_parse(rest) {
                None => None,
                Some((t2, p2, rest2)) => if t2 != 2 {
                    None
                } else {
                    match two_fields_parse(p2) {
                        None => None,
                        Some(((ct1, cd), (ct2, ca))) => if ct1 != 1 || ct2 != 2 {
                            None
                        } else {
                            match field_parse(rest2) {
                                None => None,
                                Some((t3, p3, rest3)) => if t3 == 3 && rest3.len() == 0 {
                                    Some((p1, (cd, ca), p3))
                                } else {
                                    None
                                },
                            }
                        },
                    }
                },
            }
        },
    }
}

/// A "mint" payload decodes back to exactly the sender, the nested coin with
/// the denomination and the base-ten amount string, and the recipient, with
/// no other fields present; the UTF-8 payloads decode back to the originals.
pub proof fn lemma_mint_round_trip(
    sender: Seq<char>,
    denom: Seq<char>,
    amount: u128,
    recipient: Seq<char>,
)
    requires
        encode_utf8(sender).len() < 0x1000_0000_0000_0000,
        encode_utf8(denom).len() < 0x1000_0000_0000_0000,
        encode_utf8(recipient).len() < 0x1000_0000_0000_0000,
    ensures
        mint_fields_parse(mint_enc(sender, denom, dec_str(amount as nat), recipient)) == Some(
            (
                encode_utf8(sender),
                (encode_utf8(denom), encode_utf8(dec_str(amount as nat))),
                encode_utf8(recipient),
            ),
        ),
        decode_utf8(encode_utf8(sender)) == sender,
        decode_utf8(encode_utf8(denom)) == denom,
        decode_utf8(encode_utf8(dec_str(amount as nat))) == dec_str(amount as nat),
        decode_utf8(encode_utf8(recipient)) == recipient,
{
    lemma_pow128_9();
    let es = encode_utf8(sender);
    let ed = encode_utf8(denom);
    let ea = encode_utf8(dec_str(amount as nat));
    let er = encode_utf8(recipient);
    lemma_dec_str_short(amount);
    let coin = coin_enc(denom, dec_str(amount as nat));
    lemma_varint_enc_len(ed.len(), 9);
    lemma_varint_enc_len(ea.len(), 9);
    assert(coin.len() <= ed.len() + ea.len() + 20);
    let b = mint_enc(sender, denom, dec_str(amount as nat), recipient);
    assert(b =~= field_enc(1, es) + (field_enc(2, coin) + field_enc(3, er)));
    lemma_field_round_trip(1, es, field_enc(2, coin) + field_enc(3, er));
    assert(field_enc(2, coin) + field_enc(3, er) =~= field_enc(2, coin) + (field_enc(3, er)
        + Seq::<u8>::empty()));
    lemma_field_round_trip(2, coin, field_enc(3, er) + Seq::<u8>::empty());
    assert(field_enc(3, er) + Seq::<u8>::empty() =~= field_enc(3, er));
    lemma_field_round_trip(3, er, Seq::empty());
    assert(coin =~= field_enc(1, ed) + field_enc(2, ea));
    lemma_field_round_trip(1, ed, field_enc(2, ea));
    assert(field_enc(2, ea) =~= field_enc(2, ea) + Seq::<u8>::empty());
    lemma_field_round_trip(2, ea, Seq::empty());
    vstd::utf8::encode_utf8_decode_utf8(sender);
    vstd::utf8::encode_utf8_decode_utf8(denom);
    vstd::utf8::encode_utf8_decode_utf8(dec_str(amount as nat));
    vstd::utf8::encode_utf8_decode_utf8(recipient);
}

// ---------------------------------------------------------------------------
// The response decoder
// ---------------------------------------------------------------------------

/// Parse the metadata record inside the response envelope: empty bytes mean
/// an empty admin, otherwise exactly one field, tag 1, holds the admin bytes.
/// `None` is a malformed record.
pub open spec fn metadata_inner_parse(b: Seq<u8>) -> Option<Seq<u8>> {
    if b.len() == 0 {
        Some(Seq::empty())
    } else {
        match field_parse(b) {
            None => None,
            Some((tag, payload, rest)) => if tag == 1 && rest.len() == 0 {
                Some(payload)
            } else {
                None
            },
        }
    }
}

/// Parse the response envelope: empty bytes mean no metadata; otherwise
/// exactly one field, tag 1, holds the metadata record. The outer `None` is a
/// malformed envelope; the inner option mirrors the absent record.
pub open spec fn metadata_response_parse(b: Seq<u8>) -> Option<Option<Seq<u8>>> {
    if b.len() == 0 {
        Some(None)
    } else {
        match field_parse(b) {
            None => None,
            Some((tag, payload, rest)) => if tag == 1 && rest.len() == 0 {
                match metadata_inner_parse(payload) {
                    None => None,
                    Some(admin) => Some(Some(admin)),
                }
            } else {
                None
            },
        }
    }
}

/// Copy `data[start..end]` into a fresh vector.
fn copy_range(data: &Vec<u8>, start: usize, end: usize) -> (r: Vec<u8>)
    requires
        start <= end <= data@.len(),
    ensures
        r@ == data@.subrange(start as int, end as int),
{
    let mut v: Vec<u8> = Vec::new();
    let mut i: usize = start;
    while i < end
        invariant
            start <= i <= end <= data@.len(),
            v@ == data@.subrange(start as int, i as int),
        decreases end - i,
    {
        v.push(*vstd::std_specs::vec::vec_index(data, i));
        i = i + 1;
        assert(v@ =~= data@.subrange(start as int, i as int));
    }
    v
}

/// Relies on `String::from_utf8`: it returns the string whose UTF-8 encoding
/// is the given bytes, and succeeds exactly on valid UTF-8 (its documentation
/// promises an error iff the bytes are not UTF-8, and `str::as_bytes` names
/// it as that method's inverse).
#[verifier::external_body]
fn string_from_utf8(bytes: Vec<u8>) -> (r: Option<String>)
    ensures
        r matches Some(s) ==> encode_utf8(s@) == bytes@,
        r is Some <==> valid_utf8(bytes@),
{
    String::from_utf8(bytes).ok()
}

/// Decode a metadata-query response. Absent metadata comes back as
/// `Ok(None)`, never as an error; a malformed envelope is a `DecodeFailure`.
pub fn decode_metadata_response(data: &Vec<u8>) -> (r: Result<
    Option<DenomAuthorityMetadata>,
    ContractError,
>)
    ensures
        ({
            let p = metadata_response_parse(data@);
            match r {
                Ok(None) => p == Some(Option::<Seq<u8>>::None),
                Ok(Some(m)) => {
                    &&& p matches Some(Some(admin))
                    &&& encode_utf8(m.admin@) == admin
                    &&& valid_utf8(admin)
                },
                Err(e) => {
                    &&& e == ContractError::DecodeFailure
                    &&& (p is None || (p matches Some(Some(admin)) && !valid_utf8(admin)))
                },
            }
        }),
{
    let n = data.len();
    if n == 0 {
        return Ok(None);
    }
    proof {
        assert(data@.subrange(0, n as int) =~= data@);
    }
    match read_field(data, 0, n) {
        None => Err(ContractError::DecodeFailure),
        Some((tag, ps, pe)) => {
            if tag != 1 || pe != n {
                return Err(ContractError::DecodeFailure);
            }
            if ps == pe {
                // The record is present but carries no admin field: an empty
                // admin, not an error.
                let m = DenomAuthorityMetadata { admin: String::new() };
                assert(encode_utf8(m.admin@) =~= Seq::<u8>::empty());
                assert(data@.subrange(ps as int, pe as int) =~= Seq::<u8>::empty());
                return Ok(Some(m));
            }
            match read_field(data, ps, pe) {
                None => Err(ContractError::DecodeFailure),
                Some((tag2, ps2, pe2)) => {
                    if tag2 != 1 || pe2 != pe {
                        return Err(ContractError::DecodeFailure);
                    }
                    let admin_bytes = copy_range(data, ps2, pe2);
                    match string_from_utf8(admin_bytes) {
                        None => Err(ContractError::DecodeFailure),
                        Some(s) => Ok(Some(DenomAuthorityMetadata { admin: s })),
                    }
                },
            }
        },
    }
}

} // verus!
