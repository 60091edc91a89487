//! The authorization gate and the dispatch layer: route a typed request to
//! the right builder, gate the privileged mint flow on the stored owner, and
//! assemble the ordered effect list and attributes of the call.

use vstd::prelude::*;
use vstd::string::StringExecFns;

use crate::codec::{
    create_denom_enc, encode_msg_create_denom, encode_msg_mint,
    encode_query_denom_authority_metadata_request, metadata_query_enc, mint_enc,
};
use crate::decimal::{dec_str, u128_to_dec_string};
use crate::error::ContractError;
use crate::msg::{
    is_attr, is_bank_send, is_module_call, Attribute, Coin, ContractResponse, Effect, ExecuteMsg,
    QueryMsg,
};
use crate::native::{
    native_encode_create_denom, native_encode_mint, proto_create_denom_enc, proto_mint_enc,
};

verus! {

// ---------------------------------------------------------------------------
// Authorization gate
// ---------------------------------------------------------------------------

/// The single-principal check gating the mint flow: strict equality against
/// the stored owner, with one uniform error for every other caller.
pub fn require_owner(caller: &String, owner: &String) -> (r: Result<(), ContractError>)
    ensures
        r is Ok <==> caller@ == owner@,
        r is Err ==> r == Err::<(), ContractError>(ContractError::Unauthorized),
{
    if *caller == *owner {
        Ok(())
    } else {
        Err(ContractError::Unauthorized)
    }
}

// ---------------------------------------------------------------------------
// Response shapes
// ---------------------------------------------------------------------------

/// A create-denomination response: one module call carrying `payload`, one
/// attribute naming the method.
pub open spec fn create_denom_response_wf(
    resp: ContractResponse,
    payload: Seq<u8>,
    method: Seq<char>,
) -> bool {
    &&& resp.messages@.len() == 1
    &&& is_module_call(
        resp.messages@[0],
        "/osmosis.tokenfactory.v1beta1.MsgCreateDenom"@,
        payload,
    )
    &&& resp.attributes@.len() == 1
    &&& is_attr(resp.attributes@[0], "method"@, method)
}

/// A mint response: the mint call first, then the fund transfer to the
/// validated recipient, and attributes naming the operation, the recipient as
/// the caller wrote it, and the amount.
pub open spec fn mint_response_wf(
    resp: ContractResponse,
    payload: Seq<u8>,
    to: Seq<char>,
    denom: Seq<char>,
    amount: u128,
    raw_to: Seq<char>,
) -> bool {
    &&& resp.messages@.len() == 2
    &&& is_module_call(resp.messages@[0], "/osmosis.tokenfactory.v1beta1.MsgMint"@, payload)
    &&& is_bank_send(resp.messages@[1], to, denom, amount)
    &&& resp.attributes@.len() == 3
    &&& is_attr(resp.attributes@[0], "method"@, "mint_to"@)
    &&& is_attr(resp.attributes@[1], "mint_to_address"@, raw_to)
    &&& is_attr(resp.attributes@[2], "mint_amount"@, dec_str(amount as nat) + denom)
}

/// The outcome the mint flow owes: rejected callers and invalid recipients
/// get their errors before anything is encoded; the owner with a valid
/// recipient gets the two-effect response, its payload from the raw path or
/// the native one.
pub open spec fn mint_flow_post(
    r: Result<ContractResponse, ContractError>,
    caller: Seq<char>,
    owner: Seq<char>,
    contract_address: Seq<char>,
    amount: Coin,
    mint_to: Seq<char>,
    validated: Option<String>,
    raw_path: bool,
) -> bool {
    &&& caller != owner ==> r == Err::<ContractResponse, ContractError>(
        ContractError::Unauthorized,
    )
    &&& (caller == owner && validated is None) ==> r == Err::<ContractResponse, ContractError>(
        ContractError::InvalidAddress,
    )
    &&& caller == owner ==> (validated matches Some(recip) ==> (r matches Ok(resp)
        && mint_response_wf(
        resp,
        if raw_path {
            mint_enc(contract_address, amount.denom@, dec_str(amount.amount as nat), recip@)
        } else {
            proto_mint_enc(contract_address, amount.denom@, dec_str(amount.amount as nat), recip@)
        },
        recip@,
        amount.denom@,
        amount.amount,
        mint_to,
    )))
}

// ---------------------------------------------------------------------------
// Instantiation
// ---------------------------------------------------------------------------

/// The response of the instantiation that makes `sender` the owner: no
/// effects, two attributes. Storing the owner is the host's part.
pub fn instantiate(sender: String) -> (r: ContractResponse)
    ensures
        r.messages@.len() == 0,
        r.attributes@.len() == 2,
        is_attr(r.attributes@[0], "method"@, "instantiate"@),
        is_attr(r.attributes@[1], "owner"@, sender@),
{
    let mut attributes: Vec<Attribute> = Vec::new();
    attributes.push(
        Attribute { key: String::from_str("method"), value: String::from_str("instantiate") },
    );
    attributes.push(Attribute { key: String::from_str("owner"), value: sender });
    ContractResponse { messages: Vec::new(), attributes }
}

// ---------------------------------------------------------------------------
// Execute flows
// ---------------------------------------------------------------------------

/// Create a denomination namespaced under the contract's own account, through
/// the native binding. Open to any caller.
pub fn try_create_denom(contract_address: String, subdenom: String) -> (r: Result<
    ContractResponse,
    ContractError,
>)
    ensures
        r matches Ok(resp) && create_denom_response_wf(
            resp,
            proto_create_denom_enc(contract_address@, subdenom@),
            "try_create_denom"@,
        ),
{
    let value = native_encode_create_denom(&contract_address, &subdenom);
    let mut messages: Vec<Effect> = Vec::new();
    messages.push(
        Effect::ModuleCall {
            type_url: String::from_str("/osmosis.tokenfactory.v1beta1.MsgCreateDenom"),
            value,
        },
    );
    let mut attributes: Vec<Attribute> = Vec::new();
    attributes.push(
        Attribute { key: String::from_str("method"), value: String::from_str("try_create_denom") },
    );
    Ok(ContractResponse { messages, attributes })
}

/// The same request through the raw encoder.
pub fn try_create_denom2(contract_address: String, subdenom: String) -> (r: Result<
    ContractResponse,
    ContractError,
>)
    ensures
        r matches Ok(resp) && create_denom_response_wf(
            resp,
            create_denom_enc(contract_address@, subdenom@),
            "try_create_denom2"@,
        ),
{
    let value = encode_msg_create_denom(contract_address, subdenom);
    let mut messages: Vec<Effect> = Vec::new();
    messages.push(
        Effect::ModuleCall {
            type_url: String::from_str("/osmosis.tokenfactory.v1beta1.MsgCreateDenom"),
            value,
        },
    );
    let mut attributes: Vec<Attribute> = Vec::new();
    attributes.push(
        Attribute { key: String::from_str("method"), value: String::from_str("try_create_denom2") },
    );
    Ok(ContractResponse { messages, attributes })
}

/// Mint `amount` to the validated recipient, through the native binding.
/// `validated_recipient` is the host's verdict on `mint_to`: the normalized
/// account when it validates, `None` when it does not. The owner check comes
/// first: an unauthorized caller is rejected before anything is encoded.
pub fn try_mint_to(
    caller: String,
    owner: String,
    contract_address: String,
    amount: Coin,
    mint_to: String,
    validated_recipient: Option<String>,
) -> (r: Result<ContractResponse, ContractError>)
    ensures
        mint_flow_post(
            r,
            caller@,
            owner@,
            contract_address@,
            amount,
            mint_to@,
            validated_recipient,
            false,
        ),
{
    if let Err(e) = require_owner(&caller, &owner) {
        return Err(e);
    }
    let recipient = match validated_recipient {
        None => return Err(ContractError::InvalidAddress),
        Some(a) => a,
    };
    let amount_str = u128_to_dec_string(amount.amount);
    let value = native_encode_mint(&contract_address, &amount.denom, &amount_str, &recipient);
    let mut mint_amount = amount_str;
    mint_amount.append(amount.denom.as_str());
    let mut messages: Vec<Effect> = Vec::new();
    messages.push(
        Effect::ModuleCall {
            type_url: String::from_str("/osmosis.tokenfactory.v1beta1.MsgMint"),
            value,
        },
    );
    messages.push(Effect::BankSend { to_address: recipient, amount });
    let mut attributes: Vec<Attribute> = Vec::new();
    attributes.push(
        Attribute { key: String::from_str("method"), value: String::from_str("mint_to") },
    );
    attributes.push(Attribute { key: String::from_str("mint_to_address"), value: mint_to });
    attributes.push(Attribute { key: String::from_str("mint_amount"), value: mint_amount });
    Ok(ContractResponse { messages, attributes })
}

/// The same flow through the raw encoder.
pub fn try_mint_to2(
    caller: String,
    owner: String,
    contract_address: String,
    amount: Coin,
    mint_to: String,
    validated_recipient: Option<String>,
) -> (r: Result<ContractResponse, ContractError>)
    ensures
        mint_flow_post(
            r,
            caller@,
            owner@,
            contract_address@,
            amount,
            mint_to@,
            validated_recipient,
            true,
        ),
{
    if let Err(e) = require_owner(&caller, &owner) {
        return Err(e);
    }
    let recipient = match validated_recipient {
        None => return Err(ContractError::InvalidAddress),
        Some(a) => a,
    };
    let value = encode_msg_mint(contract_address, &amount, recipient.clone());
    let mut mint_amount = u128_to_dec_string(amount.amount);
    mint_amount.append(amount.denom.as_str());
    let mut messages: Vec<Effect> = Vec::new();
    messages.push(
        Effect::ModuleCall {
            type_url: String::from_str("/osmosis.tokenfactory.v1beta1.MsgMint"),
            value,
        },
    );
    messages.push(Effect::BankSend { to_address: recipient, amount });
    let mut attributes: Vec<Attribute> = Vec::new();
    attributes.push(
        Attribute { key: String::from_str("method"), value: String::from_str("mint_to") },
    );
    attributes.push(Attribute { key: String::from_str("mint_to_address"), value: mint_to });
    attributes.push(Attribute { key: String::from_str("mint_amount"), value: mint_amount });
    Ok(ContractResponse { messages, attributes })
}

/// Route a state-changing request. `caller` is who sent it, `owner` the
/// stored principal, `contract_address` the contract's own account, and
/// `validated_recipient` the host's verdict on the mint recipient (unused by
/// the create flows).
pub fn execute(
    caller: String,
    owner: String,
    contract_address: String,
    msg: ExecuteMsg,
    validated_recipient: Option<String>,
) -> (r: Result<ContractResponse, ContractError>)
    ensures
        msg matches ExecuteMsg::CreateDenom { denom } ==> (r matches Ok(resp)
            && create_denom_response_wf(
            resp,
            proto_create_denom_enc(contract_address@, denom@),
            "try_create_denom"@,
        )),
        msg matches ExecuteMsg::CreateDenom2 { denom } ==> (r matches Ok(resp)
            && create_denom_response_wf(
            resp,
            create_denom_enc(contract_address@, denom@),
            "try_create_denom2"@,
        )),
        msg matches ExecuteMsg::MintTo { amount, mint_to } ==> mint_flow_post(
            r,
            caller@,
            owner@,
            contract_address@,
            amount,
            mint_to@,
            validated_recipient,
            false,
        ),
        msg matches ExecuteMsg::MintTo2 { amount, mint_to } ==> mint_flow_post(
            r,
            caller@,
            owner@,
            contract_address@,
            amount,
            mint_to@,
            validated_recipient,
            true,
        ),
{
    match msg {
        ExecuteMsg::CreateDenom { denom } => try_create_denom(contract_address, denom),
        ExecuteMsg::CreateDenom2 { denom } => try_create_denom2(contract_address, denom),
        ExecuteMsg::MintTo { amount, mint_to } => try_mint_to(
            caller,
            owner,
            contract_address,
            amount,
            mint_to,
            validated_recipient,
        ),
        ExecuteMsg::MintTo2 { amount, mint_to } => try_mint_to2(
            caller,
            owner,
            contract_address,
            amount,
            mint_to,
            validated_recipient,
        ),
    }
}

// ---------------------------------------------------------------------------
// Query flow
// ---------------------------------------------------------------------------

/// The request payload for a metadata query: both schema revisions ask with
/// the same bytes.
pub fn query_request(msg: &QueryMsg) -> (r: Vec<u8>)
    ensures
        msg matches QueryMsg::GetDenomAuthorityMetadata { denom } ==> r@ == metadata_query_enc(
            denom@,
        ),
        msg matches QueryMsg::GetDenomAuthorityMetadata2 { denom } ==> r@ == metadata_query_enc(
            denom@,
        ),
{
    match msg {
        QueryMsg::GetDenomAuthorityMetadata { denom } => {
            encode_query_denom_authority_metadata_request(denom.clone())
        },
        QueryMsg::GetDenomAuthorityMetadata2 { denom } => {
            encode_query_denom_authority_metadata_request(denom.clone())
        },
    }
}

/// The path a metadata query is addressed to.
pub fn metadata_query_path() -> (r: String)
    ensures
        r@ == "/osmosis.tokenfactory.v1beta1.Query/DenomAuthorityMetadata"@,
{
    String::from_str("/osmosis.tokenfactory.v1beta1.Query/DenomAuthorityMetadata")
}

} // verus!
