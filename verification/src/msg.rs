//! The typed request, response and effect shapes the dispatch layer works
//! over. Amounts are held as plain integers and accounts as plain strings, so
//! every field is visible to the contracts.

use vstd::prelude::*;

verus! {

/// The message that creates the contract. The owner is not named in it: the
/// account that sends the instantiation becomes the owner.
#[derive(Clone, Debug, PartialEq, Eq)]
pub struct InstantiateMsg {}

/// A quantity of one denomination.
#[derive(Debug, PartialEq, Eq)]
pub struct Coin {
    pub denom: String,
    pub amount: u128,
}

impl Clone for Coin {
    fn clone(&self) -> (r: Coin)
        ensures
            r == *self,
    {
        Coin { denom: self.denom.clone(), amount: self.amount }
    }
}

/// A state-changing request.
#[derive(Clone, Debug, PartialEq, Eq)]
pub enum ExecuteMsg {
    /// Create a denomination namespaced under the contract's own account,
    /// through the typed native binding.
    CreateDenom { denom: String },
    /// The same request, encoded through the raw path.
    CreateDenom2 { denom: String },
    /// Mint `amount` and hand it to `mint_to`, through the typed native
    /// binding. Only the owner may mint.
    MintTo { amount: Coin, mint_to: String },
    /// The same request, encoded through the raw path.
    MintTo2 { amount: Coin, mint_to: String },
}

/// A read-only request.
#[derive(Clone, Debug, PartialEq, Eq)]
pub enum QueryMsg {
    /// Who administers `denom`, read through the typed native binding.
    GetDenomAuthorityMetadata { denom: String },
    /// The same lookup against the second schema revision.
    GetDenomAuthorityMetadata2 { denom: String },
}

/// Who controls a denomination.
#[derive(Clone, Debug, PartialEq, Eq)]
pub struct DenomAuthorityMetadata {
    pub admin: String,
}

/// The answer to a metadata query: `None` when the denomination has no
/// registered admin.
#[derive(Clone, Debug, PartialEq, Eq)]
pub struct AuthorityMetadataResponse {
    pub authority_metadata: Option<DenomAuthorityMetadata>,
}

/// One outbound effect of a call. The external runtime executes the list of
/// effects strictly in order, atomically.
#[derive(Clone, Debug, PartialEq, Eq)]
pub enum Effect {
    /// A binary-addressed call into the external token module.
    ModuleCall { type_url: String, value: Vec<u8> },
    /// A direct fund transfer to an account.
    BankSend { to_address: String, amount: Coin },
}

/// A key/value pair describing the call in the transaction log.
#[derive(Clone, Debug, PartialEq, Eq)]
pub struct Attribute {
    pub key: String,
    pub value: String,
}

/// What a successful call hands back: an ordered effect list and attributes.
#[derive(Clone, Debug, PartialEq, Eq)]
pub struct ContractResponse {
    pub messages: Vec<Effect>,
    pub attributes: Vec<Attribute>,
}

/// `e` is a module call with the given target and payload.
pub open spec fn is_module_call(e: Effect, url: Seq<char>, payload: Seq<u8>) -> bool {
    &&& e matches Effect::ModuleCall { type_url, value }
    &&& type_url@ == url
    &&& value@ == payload
}

/// `e` is a fund transfer of `amount` units of `denom` to `to`.
pub open spec fn is_bank_send(e: Effect, to: Seq<char>, denom: Seq<char>, amount: u128) -> bool {
    &&& e matches Effect::BankSend { to_address, amount: coin }
    &&& to_address@ == to
    &&& coin.denom@ == denom
    &&& coin.amount == amount
}

/// `a` is the attribute `key`: `value`.
pub open spec fn is_attr(a: Attribute, key: Seq<char>, value: Seq<char>) -> bool {
    a.key@ == key && a.value@ == value
}

} // verus!
