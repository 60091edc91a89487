//! The typed native binding for the two outbound calls. The binding encodes
//! through its own generated code; its output is pinned here, field for
//! field, so that the dispatch layer can prove it byte-identical to the raw
//! path wherever the two can agree.

use vstd::prelude::*;

use crate::codec::{coin_enc, create_denom_enc, mint_enc};
use crate::decimal::{dec_str, lemma_dec_str_nonempty};
use crate::wire::{field_enc, str_field_enc};

verus! {

// ---------------------------------------------------------------------------
// What the native binding writes
// ---------------------------------------------------------------------------

/// A string field as the native binding writes it: omitted entirely when the
/// string is empty.
pub open spec fn opt_str_field_enc(tag: nat, s: Seq<char>) -> Seq<u8> {
    if s.len() == 0 {
        Seq::empty()
    } else {
        str_field_enc(tag, s)
    }
}

/// The native binding's bytes for "create denomination".
pub open spec fn proto_create_denom_enc(sender: Seq<char>, subdenom: Seq<char>) -> Seq<u8> {
    opt_str_field_enc(1, sender) + opt_str_field_enc(2, subdenom)
}

/// The native binding's bytes for the nested coin message.
pub open spec fn proto_coin_enc(denom: Seq<char>, amount_str: Seq<char>) -> Seq<u8> {
    opt_str_field_enc(1, denom) + opt_str_field_enc(2, amount_str)
}

/// The native binding's bytes for "mint". The coin message is always written,
/// since the builder always supplies it.
pub open spec fn proto_mint_enc(
    sender: Seq<char>,
    denom: Seq<char>,
    amount_str: Seq<char>,
    recipient: Seq<char>,
) -> Seq<u8> {
    opt_str_field_enc(1, sender) + field_enc(2, proto_coin_enc(denom, amount_str))
        + opt_str_field_enc(3, recipient)
}

// ---------------------------------------------------------------------------
// The calls into the binding
// ---------------------------------------------------------------------------

/// Relies on `MsgCreateDenom::to_proto_bytes` of osmosis-std: prost encoding
/// of string field 1 (sender) then string field 2 (subdenom), each a
/// length-prefixed field under a one-byte varint key, skipped when empty.
#[verifier::external_body]
pub(crate) fn native_encode_create_denom(sender: &String, subdenom: &String) -> (r: Vec<u8>)
    ensures
        r@ == proto_create_denom_enc(sender@, subdenom@),
{
    osmosis_std::types::osmosis::tokenfactory::v1beta1::MsgCreateDenom {
        sender: sender.clone(),
        subdenom: subdenom.clone(),
    }.to_proto_bytes()
}

/// Relies on `MsgMint::to_proto_bytes` of osmosis-std: prost encoding of
/// string field 1 (sender), the coin message written as field 2 whenever it
/// is supplied, and string field 3 (recipient); strings are skipped when
/// empty.
#[verifier::external_body]
pub(crate) fn native_encode_mint(
    sender: &String,
    denom: &String,
    amount_str: &String,
    mint_to_address: &String,
) -> (r: Vec<u8>)
    ensures
        r@ == proto_mint_enc(sender@, denom@, amount_str@, mint_to_address@),
{
    osmosis_std::types::osmosis::tokenfactory::v1beta1::MsgMint {
        sender: sender.clone(),
        amount: Some(osmosis_std::types::cosmos::base::v1beta1::Coin {
            denom: denom.clone(),
            amount: amount_str.clone(),
        }),
        mint_to_address: mint_to_address.clone(),
    }.to_proto_bytes()
}

// ---------------------------------------------------------------------------
// The two paths agree
// ---------------------------------------------------------------------------

/// On every input whose fields are all nonempty, the native binding and the
/// raw encoder produce byte-identical "create denomination" payloads. (On an
/// empty field they cannot agree: the binding omits it, the raw path writes
/// it.)
pub proof fn lemma_create_denom_paths_agree(sender: Seq<char>, subdenom: Seq<char>)
    requires
        sender.len() > 0,
        subdenom.len() > 0,
    ensures
        proto_create_denom_enc(sender, subdenom) == create_denom_enc(sender, subdenom),
{
}

/// On every input whose accounts and denomination are nonempty, the native
/// binding and the raw encoder produce byte-identical "mint" payloads; the
/// amount string is a digit string and never empty.
pub proof fn lemma_mint_paths_agree(
    sender: Seq<char>,
    denom: Seq<char>,
    amount: u128,
    recipient: Seq<char>,
)
    requires
        sender.len() > 0,
        denom.len() > 0,
        recipient.len() > 0,
    ensures
        proto_mint_enc(sender, denom, dec_str(amount as nat), recipient) == mint_enc(
            sender,
            denom,
            dec_str(amount as nat),
            recipient,
        ),
{
    lemma_dec_str_nonempty(amount as nat);
    assert(proto_coin_enc(denom, dec_str(amount as nat)) == coin_enc(
        denom,
        dec_str(amount as nat),
    ));
}

} // verus!
