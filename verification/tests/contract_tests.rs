use scientist_registry::contract::{
    execute, execute_register_scientist, execute_update_config, instantiate, query, query_config,
    validate_identity,
};
use scientist_registry::context::{BlockInfo, Env, MessageInfo, Timestamp};
use scientist_registry::error::ContractError;
use scientist_registry::msg::{ExecuteMsg, InstantiateMsg, QueryMsg, Snip721ExecuteMsg};
use scientist_registry::state::{Config, ConfigStore};

fn env_at_seconds(seconds: u64) -> Env {
    Env { block: BlockInfo { time: Timestamp { nanos: seconds * 1_000_000_000 } } }
}

fn caller(name: &str) -> MessageInfo {
    MessageInfo { sender: name.to_string() }
}

fn init_msg(owner: &str, nft: &str, hash: &str) -> InstantiateMsg {
    InstantiateMsg {
        owner: owner.to_string(),
        nft_contract: nft.to_string(),
        nft_contract_hash: hash.to_string(),
    }
}

fn register_msg(name: &str, institution: &str, specialization: &str) -> ExecuteMsg {
    ExecuteMsg::RegisterScientist {
        name: name.to_string(),
        institution: institution.to_string(),
        specialization: specialization.to_string(),
        description: "desc".to_string(),
        email: "mail@example.com".to_string(),
        image: None,
        website: Some("https://example.com".to_string()),
        orcid_id: None,
    }
}

#[test]
fn instantiate_then_get_config_returns_inputs() {
    let mut store = ConfigStore::new();
    let r = instantiate(&mut store, &env_at_seconds(1), &caller("A"), init_msg("A", "M", "H"));
    let resp = r.unwrap();
    assert_eq!(resp.messages.len(), 0);
    assert_eq!(resp.attributes.len(), 4);
    assert_eq!(resp.attributes[0].key, "action");
    assert_eq!(resp.attributes[0].value, "instantiate");
    assert_eq!(resp.attributes[1].key, "owner");
    assert_eq!(resp.attributes[1].value, "A");
    assert_eq!(resp.attributes[2].key, "nft_contract");
    assert_eq!(resp.attributes[2].value, "M");
    assert_eq!(resp.attributes[3].key, "nft_contract_hash");
    assert_eq!(resp.attributes[3].value, "H");

    let cfg = query(&store, &env_at_seconds(1), QueryMsg::GetConfig {}).unwrap();
    assert_eq!(cfg.owner, "A");
    assert_eq!(cfg.nft_contract, "M");
    assert_eq!(cfg.nft_contract_hash, "H");
}

#[test]
fn instantiate_rejects_empty_owner() {
    let mut store = ConfigStore::new();
    let r = instantiate(&mut store, &env_at_seconds(1), &caller("A"), init_msg("", "M", "H"));
    assert_eq!(r.unwrap_err(), ContractError::InvalidIdentity);
    assert_eq!(query_config(&store).unwrap_err(), ContractError::NotInitialized);
}

#[test]
fn instantiate_rejects_identity_with_space() {
    let mut store = ConfigStore::new();
    let r = instantiate(&mut store, &env_at_seconds(1), &caller("A"), init_msg("A", "a b", "H"));
    assert_eq!(r.unwrap_err(), ContractError::InvalidIdentity);
}

#[test]
fn validate_identity_rules() {
    assert!(validate_identity("A"));
    assert!(validate_identity("secret1xyz"));
    assert!(!validate_identity(""));
    assert!(!validate_identity("with space"));
    assert!(!validate_identity("tab\there"));
}

#[test]
fn update_config_by_owner_replaces_wholesale() {
    let mut store = ConfigStore::new();
    instantiate(&mut store, &env_at_seconds(1), &caller("A"), init_msg("A", "M", "H")).unwrap();
    let new_cfg = Config {
        owner: "B".to_string(),
        nft_contract: "N".to_string(),
        nft_contract_hash: "H2".to_string(),
    };
    let resp = execute(
        &mut store,
        &env_at_seconds(2),
        &caller("A"),
        ExecuteMsg::UpdateConfig { config: new_cfg },
    )
    .unwrap();
    assert_eq!(resp.messages.len(), 0);
    assert_eq!(resp.attributes.len(), 1);
    assert_eq!(resp.attributes[0].key, "action");
    assert_eq!(resp.attributes[0].value, "update_config");

    let cfg = query_config(&store).unwrap();
    assert_eq!(cfg.owner, "B");
    assert_eq!(cfg.nft_contract, "N");
    assert_eq!(cfg.nft_contract_hash, "H2");
}

#[test]
fn update_config_by_non_owner_fails_and_state_unchanged() {
    let mut store = ConfigStore::new();
    instantiate(&mut store, &env_at_seconds(1), &caller("A"), init_msg("A", "M", "H")).unwrap();
    let new_cfg = Config {
        owner: "B".to_string(),
        nft_contract: "N".to_string(),
        nft_contract_hash: "H2".to_string(),
    };
    let r = execute(
        &mut store,
        &env_at_seconds(2),
        &caller("B"),
        ExecuteMsg::UpdateConfig { config: new_cfg },
    );
    assert_eq!(r.unwrap_err(), ContractError::Unauthorized);
    let cfg = query_config(&store).unwrap();
    assert_eq!(cfg.owner, "A");
    assert_eq!(cfg.nft_contract, "M");
    assert_eq!(cfg.nft_contract_hash, "H");
}

#[test]
fn update_config_before_instantiate_fails() {
    let mut store = ConfigStore::new();
    let new_cfg = Config {
        owner: "B".to_string(),
        nft_contract: "N".to_string(),
        nft_contract_hash: "H2".to_string(),
    };
    let r = execute_update_config(&mut store, &caller("B"), new_cfg);
    assert_eq!(r.unwrap_err(), ContractError::NotInitialized);
}

#[test]
fn register_scientist_at_block_time_1000() {
    let mut store = ConfigStore::new();
    instantiate(&mut store, &env_at_seconds(1), &caller("A"), init_msg("A", "M", "H")).unwrap();
    let resp = execute(
        &mut store,
        &env_at_seconds(1000),
        &caller("C"),
        register_msg("Ada", "X", "Logic"),
    )
    .unwrap();

    assert_eq!(resp.messages.len(), 1);
    let outbound = &resp.messages[0];
    assert_eq!(outbound.contract_addr, "M");
    assert_eq!(outbound.code_hash, "H");
    assert_eq!(outbound.funds.len(), 0);
    let Snip721ExecuteMsg::MintNft { token_id, owner, public_metadata, private_metadata, memo } =
        &outbound.msg;
    assert_eq!(token_id.as_str(), "scientist-1000");
    assert_eq!(owner.as_str(), "C");
    assert!(memo.is_none());
    assert!(public_metadata.is_some());
    assert!(private_metadata.is_some());

    assert_eq!(resp.attributes.len(), 6);
    assert_eq!(resp.attributes[0].key, "action");
    assert_eq!(resp.attributes[0].value, "register_scientist");
    assert_eq!(resp.attributes[1].key, "token_id");
    assert_eq!(resp.attributes[1].value, "scientist-1000");
    assert_eq!(resp.attributes[2].key, "owner");
    assert_eq!(resp.attributes[2].value, "C");
    assert_eq!(resp.attributes[3].key, "name");
    assert_eq!(resp.attributes[3].value, "Ada");
    assert_eq!(resp.attributes[4].key, "institution");
    assert_eq!(resp.attributes[4].value, "X");
    assert_eq!(resp.attributes[5].key, "specialization");
    assert_eq!(resp.attributes[5].value, "Logic");
}

#[test]
fn token_ids_collide_within_one_second() {
    let mut store = ConfigStore::new();
    instantiate(&mut store, &env_at_seconds(1), &caller("A"), init_msg("A", "M", "H")).unwrap();
    let env = Env { block: BlockInfo { time: Timestamp { nanos: 1000_000_000_123 } } };
    let r1 = execute(&mut store, &env, &caller("C"), register_msg("Ada", "X", "Logic")).unwrap();
    let env2 = Env { block: BlockInfo { time: Timestamp { nanos: 1000_999_999_999 } } };
    let r2 = execute(&mut store, &env2, &caller("D"), register_msg("Bob", "Y", "Sets")).unwrap();
    assert_eq!(r1.attributes[1].value, "scientist-1000");
    assert_eq!(r2.attributes[1].value, "scientist-1000");
}

#[test]
fn public_metadata_has_five_fixed_attributes() {
    let mut store = ConfigStore::new();
    instantiate(&mut store, &env_at_seconds(1), &caller("A"), init_msg("A", "M", "H")).unwrap();
    let resp = execute(
        &mut store,
        &env_at_seconds(7),
        &caller("C"),
        register_msg("Ada", "Analytical Engines Ltd", "Computing"),
    )
    .unwrap();
    let Snip721ExecuteMsg::MintNft { public_metadata, .. } = &resp.messages[0].msg;
    let ext = &public_metadata.as_ref().unwrap().extension;
    assert_eq!(ext.name, "Ada - Scientist");
    assert_eq!(ext.description, "Scientist verification token on Secret Network");
    assert!(ext.image.is_none());
    assert_eq!(ext.attributes.len(), 5);
    assert_eq!(ext.attributes[0].trait_type, "Type");
    assert_eq!(ext.attributes[0].value, "Scientist");
    assert_eq!(ext.attributes[1].trait_type, "Institution");
    assert_eq!(ext.attributes[1].value, "Analytical Engines Ltd");
    assert_eq!(ext.attributes[2].trait_type, "Specialization");
    assert_eq!(ext.attributes[2].value, "Computing");
    assert_eq!(ext.attributes[3].trait_type, "Network");
    assert_eq!(ext.attributes[3].value, "Secret Network Mainnet");
    assert_eq!(ext.attributes[4].trait_type, "Platform");
    assert_eq!(ext.attributes[4].value, "Unbound Science");
}

#[test]
fn private_metadata_comes_from_context_not_request() {
    let mut store = ConfigStore::new();
    instantiate(&mut store, &env_at_seconds(1), &caller("A"), init_msg("A", "M", "H")).unwrap();
    let resp = execute_register_scientist(
        &store,
        &env_at_seconds(1000),
        &caller("C"),
        "Ada".to_string(),
        "X".to_string(),
        "Logic".to_string(),
        "a description".to_string(),
        "ada@example.com".to_string(),
        None,
        Some("https://ada.example".to_string()),
        Some("0000-0001".to_string()),
    )
    .unwrap();
    let Snip721ExecuteMsg::MintNft { private_metadata, .. } = &resp.messages[0].msg;
    let ext = &private_metadata.as_ref().unwrap().extension;
    assert_eq!(ext.wallet_address, "C");
    assert_eq!(ext.registered_at, "1000.000000000");
    assert_eq!(ext.description, "a description");
    assert_eq!(ext.platform, "Unbound Science");
    assert_eq!(ext.email, "ada@example.com");
    assert_eq!(ext.website.as_deref(), Some("https://ada.example"));
    assert_eq!(ext.orcid_id.as_deref(), Some("0000-0001"));
}

#[test]
fn register_scientist_leaves_config_unchanged() {
    let mut store = ConfigStore::new();
    instantiate(&mut store, &env_at_seconds(1), &caller("A"), init_msg("A", "M", "H")).unwrap();
    let before = query_config(&store).unwrap();
    execute(&mut store, &env_at_seconds(42), &caller("C"), register_msg("Ada", "X", "Logic"))
        .unwrap();
    let after = query_config(&store).unwrap();
    assert_eq!(before.owner, after.owner);
    assert_eq!(before.nft_contract, after.nft_contract);
    assert_eq!(before.nft_contract_hash, after.nft_contract_hash);
}

#[test]
fn register_scientist_before_instantiate_fails() {
    let store = ConfigStore::new();
    let r = execute_register_scientist(
        &store,
        &env_at_seconds(1000),
        &caller("C"),
        "Ada".to_string(),
        "X".to_string(),
        "Logic".to_string(),
        "d".to_string(),
        "e".to_string(),
        None,
        None,
        None,
    );
    assert_eq!(r.unwrap_err(), ContractError::NotInitialized);
}

#[test]
fn query_before_instantiate_fails() {
    let store = ConfigStore::new();
    let r = query(&store, &env_at_seconds(1), QueryMsg::GetConfig {});
    assert_eq!(r.unwrap_err(), ContractError::NotInitialized);
}

#[test]
fn error_messages() {
    assert_eq!(ContractError::Unauthorized.message(), "Unauthorized");
    assert_eq!(ContractError::NotInitialized.message(), "Not initialized");
    assert_eq!(ContractError::InvalidIdentity.message(), "Invalid identity");
}

#[test]
fn public_metadata_echoes_supplied_image() {
    let mut store = ConfigStore::new();
    instantiate(&mut store, &env_at_seconds(1), &caller("A"), init_msg("A", "M", "H")).unwrap();
    let resp = execute(
        &mut store,
        &env_at_seconds(9),
        &caller("C"),
        ExecuteMsg::RegisterScientist {
            name: "Ada".to_string(),
            institution: "X".to_string(),
            specialization: "Logic".to_string(),
            description: "d".to_string(),
            email: "e@f".to_string(),
            image: Some("ipfs://img".to_string()),
            website: None,
            orcid_id: None,
        },
    )
    .unwrap();
    let Snip721ExecuteMsg::MintNft { public_metadata, .. } = &resp.messages[0].msg;
    let ext = &public_metadata.as_ref().unwrap().extension;
    assert_eq!(ext.image.as_deref(), Some("ipfs://img"));
}
