//! Dispatch-level tests: the authorization gate, the effect lists of the two
//! execute flows, and the agreement of the native and raw encoding paths.

use tokenfactory_core::contract::{
    execute, instantiate, metadata_query_path, query_request, require_owner, try_create_denom,
    try_create_denom2, try_mint_to, try_mint_to2,
};
use tokenfactory_core::error::ContractError;
use tokenfactory_core::msg::{Coin, Effect, ExecuteMsg, QueryMsg};

const CONTRACT: &str = "osmo1contract";
const OWNER: &str = "osmo1owner";

fn sample_coin() -> Coin {
    Coin {
        denom: "factory/osmo1abc/mytoken".to_string(),
        amount: 500,
    }
}

fn module_call_value(e: &Effect) -> Vec<u8> {
    match e {
        Effect::ModuleCall { value, .. } => value.clone(),
        other => panic!("expected a module call, got {:?}", other),
    }
}

#[test]
fn require_owner_accepts_owner_only() {
    assert_eq!(
        require_owner(&OWNER.to_string(), &OWNER.to_string()),
        Ok(())
    );
    assert_eq!(
        require_owner(&"osmo1other".to_string(), &OWNER.to_string()),
        Err(ContractError::Unauthorized)
    );
    // empty and malformed callers fail with the same error kind
    assert_eq!(
        require_owner(&"".to_string(), &OWNER.to_string()),
        Err(ContractError::Unauthorized)
    );
    assert_eq!(
        require_owner(&"not an address".to_string(), &OWNER.to_string()),
        Err(ContractError::Unauthorized)
    );
}

#[test]
fn create_paths_agree() {
    let native = try_create_denom(CONTRACT.to_string(), "mytoken".to_string()).unwrap();
    let raw = try_create_denom2(CONTRACT.to_string(), "mytoken".to_string()).unwrap();
    assert_eq!(native.messages.len(), 1);
    assert_eq!(raw.messages.len(), 1);
    assert_eq!(
        module_call_value(&native.messages[0]),
        module_call_value(&raw.messages[0])
    );
    assert_eq!(native.attributes[0].key, "method");
    assert_eq!(native.attributes[0].value, "try_create_denom");
    assert_eq!(raw.attributes[0].value, "try_create_denom2");
    match &native.messages[0] {
        Effect::ModuleCall { type_url, .. } => {
            assert_eq!(type_url, "/osmosis.tokenfactory.v1beta1.MsgCreateDenom")
        }
        other => panic!("expected a module call, got {:?}", other),
    }
}

#[test]
fn mint_paths_agree() {
    let native = try_mint_to(
        OWNER.to_string(),
        OWNER.to_string(),
        CONTRACT.to_string(),
        sample_coin(),
        "osmo1xyz".to_string(),
        Some("osmo1xyz".to_string()),
    )
    .unwrap();
    let raw = try_mint_to2(
        OWNER.to_string(),
        OWNER.to_string(),
        CONTRACT.to_string(),
        sample_coin(),
        "osmo1xyz".to_string(),
        Some("osmo1xyz".to_string()),
    )
    .unwrap();
    assert_eq!(
        module_call_value(&native.messages[0]),
        module_call_value(&raw.messages[0])
    );
    assert_eq!(native.messages[1], raw.messages[1]);
    assert_eq!(native.attributes, raw.attributes);
}

#[test]
fn mint_by_owner_emits_mint_then_transfer() {
    let resp = try_mint_to(
        OWNER.to_string(),
        OWNER.to_string(),
        CONTRACT.to_string(),
        sample_coin(),
        "osmo1xyz".to_string(),
        Some("osmo1xyz".to_string()),
    )
    .unwrap();
    assert_eq!(resp.messages.len(), 2);
    match &resp.messages[0] {
        Effect::ModuleCall { type_url, value } => {
            assert_eq!(type_url, "/osmosis.tokenfactory.v1beta1.MsgMint");
            assert!(!value.is_empty());
        }
        other => panic!("expected a module call, got {:?}", other),
    }
    match &resp.messages[1] {
        Effect::BankSend { to_address, amount } => {
            assert_eq!(to_address, "osmo1xyz");
            assert_eq!(amount.denom, "factory/osmo1abc/mytoken");
            assert_eq!(amount.amount, 500);
        }
        other => panic!("expected a fund transfer, got {:?}", other),
    }
    assert_eq!(resp.attributes.len(), 3);
    assert_eq!(resp.attributes[0].key, "method");
    assert_eq!(resp.attributes[0].value, "mint_to");
    assert_eq!(resp.attributes[1].key, "mint_to_address");
    assert_eq!(resp.attributes[1].value, "osmo1xyz");
    assert_eq!(resp.attributes[2].key, "mint_amount");
    assert_eq!(resp.attributes[2].value, "500factory/osmo1abc/mytoken");
}

#[test]
fn mint_by_non_owner_is_rejected_with_no_effects() {
    let r = try_mint_to(
        "osmo1mallory".to_string(),
        OWNER.to_string(),
        CONTRACT.to_string(),
        sample_coin(),
        "osmo1xyz".to_string(),
        Some("osmo1xyz".to_string()),
    );
    assert_eq!(r, Err(ContractError::Unauthorized));
    let r2 = execute(
        "osmo1mallory".to_string(),
        OWNER.to_string(),
        CONTRACT.to_string(),
        ExecuteMsg::MintTo {
            amount: sample_coin(),
            mint_to: "osmo1xyz".to_string(),
        },
        Some("osmo1xyz".to_string()),
    );
    assert_eq!(r2, Err(ContractError::Unauthorized));
}

#[test]
fn mint_to_invalid_recipient_is_rejected() {
    let r = try_mint_to(
        OWNER.to_string(),
        OWNER.to_string(),
        CONTRACT.to_string(),
        sample_coin(),
        "not an address".to_string(),
        None,
    );
    assert_eq!(r, Err(ContractError::InvalidAddress));
    let r2 = try_mint_to2(
        OWNER.to_string(),
        OWNER.to_string(),
        CONTRACT.to_string(),
        sample_coin(),
        "not an address".to_string(),
        None,
    );
    assert_eq!(r2, Err(ContractError::InvalidAddress));
}

#[test]
fn execute_routes_each_variant() {
    let create = execute(
        "osmo1caller".to_string(),
        OWNER.to_string(),
        CONTRACT.to_string(),
        ExecuteMsg::CreateDenom {
            denom: "mytoken".to_string(),
        },
        None,
    )
    .unwrap();
    assert_eq!(create.attributes[0].value, "try_create_denom");
    let create2 = execute(
        "osmo1caller".to_string(),
        OWNER.to_string(),
        CONTRACT.to_string(),
        ExecuteMsg::CreateDenom2 {
            denom: "mytoken".to_string(),
        },
        None,
    )
    .unwrap();
    assert_eq!(create2.attributes[0].value, "try_create_denom2");
    assert_eq!(
        module_call_value(&create.messages[0]),
        module_call_value(&create2.messages[0])
    );
    let mint2 = execute(
        OWNER.to_string(),
        OWNER.to_string(),
        CONTRACT.to_string(),
        ExecuteMsg::MintTo2 {
            amount: sample_coin(),
            mint_to: "osmo1xyz".to_string(),
        },
        Some("osmo1xyz".to_string()),
    )
    .unwrap();
    assert_eq!(mint2.messages.len(), 2);
}

#[test]
fn instantiate_records_owner() {
    let resp = instantiate(OWNER.to_string());
    assert!(resp.messages.is_empty());
    assert_eq!(resp.attributes.len(), 2);
    assert_eq!(resp.attributes[0].key, "method");
    assert_eq!(resp.attributes[0].value, "instantiate");
    assert_eq!(resp.attributes[1].key, "owner");
    assert_eq!(resp.attributes[1].value, OWNER);
}

#[test]
fn query_request_same_bytes_for_both_revisions() {
    let q1 = query_request(&QueryMsg::GetDenomAuthorityMetadata {
        denom: "factory/osmo1abc/mytoken".to_string(),
    });
    let q2 = query_request(&QueryMsg::GetDenomAuthorityMetadata2 {
        denom: "factory/osmo1abc/mytoken".to_string(),
    });
    assert_eq!(q1, q2);
    let mut expected: Vec<u8> = vec![0x0a, 24];
    expected.extend_from_slice(b"factory/osmo1abc/mytoken");
    assert_eq!(q1, expected);
    assert_eq!(
        metadata_query_path(),
        "/osmosis.tokenfactory.v1beta1.Query/DenomAuthorityMetadata"
    );
}
