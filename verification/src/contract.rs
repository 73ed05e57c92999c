//! The transition handlers: one-time initialization, the owner-gated
//! configuration update, the open scientist registration that produces
//! an outbound mint message, and the configuration query. Each handler
//! is specified against a spec-level transition function over the
//! store's view, so every state effect and result is pinned down.

use vstd::prelude::*;
use vstd::string::*;
use crate::context::{Env, MessageInfo, NANOS_PER_SECOND, timestamp_display};
use crate::decimal::{dec_str, u64_to_dec};
use crate::error::ContractError;
use crate::msg::{
    Attribute, AttributeView, CoinView, ExecuteMsg, ExecuteMsgView, InstantiateMsg,
    InstantiateMsgView, LogAttribute, LogAttributeView, OutboundMsg, OutboundMsgView,
    PrivateExtension, PrivateExtensionView, PrivateMetadata, PrivateMetadataView,
    PublicExtension, PublicExtensionView, PublicMetadata, PublicMetadataView, QueryMsg,
    RegistrationView, Response, ResponseView, Snip721ExecuteMsg, Snip721ExecuteMsgView,
};
use crate::state::{Config, ConfigStore, ConfigView};

verus! {

/// A well-formed ledger identity: non-empty, made of printable ASCII
/// characters with no whitespace.
pub open spec fn valid_identity(s: Seq<char>) -> bool {
    s.len() > 0 && forall|i: int| 0 <= i < s.len() ==> '!' <= #[trigger] s[i] <= '~'
}

/// Checks an identity string against `valid_identity`.
pub fn validate_identity(s: &str) -> (r: bool)
    ensures
        r == valid_identity(s@),
{
    let len = s.unicode_len();
    if len == 0 {
        return false;
    }
    let mut i: usize = 0;
    while i < len
        invariant
            len == s@.len(),
            i <= len,
            forall|j: int| 0 <= j < i ==> '!' <= #[trigger] s@[j] <= '~',
        decreases len - i,
    {
        let c = s.get_char(i);
        if c < '!' || c > '~' {
            return false;
        }
        i = i + 1;
    }
    true
}

pub open spec fn attr(key: Seq<char>, value: Seq<char>) -> LogAttributeView {
    LogAttributeView { key, value }
}

/// The configuration that a given instantiation payload asks for.
pub open spec fn config_of_msg(msg: InstantiateMsgView) -> ConfigView {
    ConfigView {
        owner: msg.owner,
        nft_contract: msg.nft_contract,
        nft_contract_hash: msg.nft_contract_hash,
    }
}

pub open spec fn instantiate_response_spec(msg: InstantiateMsgView) -> ResponseView {
    ResponseView {
        messages: seq![],
        attributes: seq![
            attr("action"@, "instantiate"@),
            attr("owner"@, msg.owner),
            attr("nft_contract"@, msg.nft_contract),
            attr("nft_contract_hash"@, msg.nft_contract_hash),
        ],
    }
}

/// The `instantiate` transition: the new store content and the result.
pub open spec fn instantiate_spec(store: Option<ConfigView>, msg: InstantiateMsgView) -> (
    Option<ConfigView>,
    Result<ResponseView, ContractError>,
) {
    if valid_identity(msg.owner) && valid_identity(msg.nft_contract) {
        (Some(config_of_msg(msg)), Ok(instantiate_response_spec(msg)))
    } else {
        (store, Err(ContractError::InvalidIdentity))
    }
}

pub open spec fn update_config_response_spec() -> ResponseView {
    ResponseView { messages: seq![], attributes: seq![attr("action"@, "update_config"@)] }
}

/// The update-config transition: owner-gated wholesale replacement.
pub open spec fn update_config_spec(
    store: Option<ConfigView>,
    sender: Seq<char>,
    new_config: ConfigView,
) -> (Option<ConfigView>, Result<ResponseView, ContractError>) {
    match store {
        None => (store, Err(ContractError::NotInitialized)),
        Some(current) => if sender != current.owner {
            (store, Err(ContractError::Unauthorized))
        } else {
            (Some(new_config), Ok(update_config_response_spec()))
        },
    }
}

/// The token id minted for a registration: `scientist-` followed by the
/// block time in whole seconds. Registrations within the same second
/// get the same id; the granularity is the only uniqueness this module
/// provides.
pub open spec fn token_id_spec(time_nanos: u64) -> Seq<char> {
    "scientist-"@ + dec_str((time_nanos / NANOS_PER_SECOND) as nat)
}

/// The public metadata of a minted token. The attribute list is fixed:
/// Type, Institution, Specialization, Network, Platform, in that order,
/// with institution and specialization echoing the request verbatim.
pub open spec fn public_metadata_spec(req: RegistrationView) -> PublicMetadataView {
    PublicMetadataView {
        extension: PublicExtensionView {
            name: req.name + " - Scientist"@,
            description: "Scientist verification token on Secret Network"@,
            image: req.image,
            attributes: seq![
                attr_entry("Type"@, "Scientist"@),
                attr_entry("Institution"@, req.institution),
                attr_entry("Specialization"@, req.specialization),
                attr_entry("Network"@, "Secret Network Mainnet"@),
                attr_entry("Platform"@, "Unbound Science"@),
            ],
        },
    }
}

pub open spec fn attr_entry(trait_type: Seq<char>, value: Seq<char>) -> AttributeView {
    AttributeView { trait_type, value }
}

/// The private metadata of a minted token. The registration time and
/// wallet address come from the execution context alone: a request
/// cannot forge either.
pub open spec fn private_metadata_spec(
    req: RegistrationView,
    sender: Seq<char>,
    time_nanos: u64,
) -> PrivateMetadataView {
    PrivateMetadataView {
        extension: PrivateExtensionView {
            registered_at: timestamp_display(time_nanos),
            wallet_address: sender,
            description: req.description,
            platform: "Unbound Science"@,
            email: req.email,
            website: req.website,
            orcid_id: req.orcid_id,
        },
    }
}

/// The mint request sent to the NFT module on a registration.
pub open spec fn mint_msg_spec(
    req: RegistrationView,
    sender: Seq<char>,
    time_nanos: u64,
) -> Snip721ExecuteMsgView {
    Snip721ExecuteMsgView::MintNft {
        token_id: token_id_spec(time_nanos),
        owner: sender,
        public_metadata: Some(public_metadata_spec(req)),
        private_metadata: Some(private_metadata_spec(req, sender, time_nanos)),
        memo: None,
    }
}

/// The outbound envelope: addressed to the configured NFT module,
/// pinned to its code hash, with no funds attached.
pub open spec fn outbound_mint_msg_spec(
    config: ConfigView,
    req: RegistrationView,
    sender: Seq<char>,
    time_nanos: u64,
) -> OutboundMsgView {
    OutboundMsgView {
        contract_addr: config.nft_contract,
        code_hash: config.nft_contract_hash,
        msg: mint_msg_spec(req, sender, time_nanos),
        funds: seq![],
    }
}

pub open spec fn register_response_spec(
    config: ConfigView,
    req: RegistrationView,
    sender: Seq<char>,
    time_nanos: u64,
) -> ResponseView {
    ResponseView {
        messages: seq![outbound_mint_msg_spec(config, req, sender, time_nanos)],
        attributes: seq![
            attr("action"@, "register_scientist"@),
            attr("token_id"@, token_id_spec(time_nanos)),
            attr("owner"@, sender),
            attr("name"@, req.name),
            attr("institution"@, req.institution),
            attr("specialization"@, req.specialization),
        ],
    }
}

/// The register-scientist transition: read-only on the store; any
/// caller may register once a configuration exists.
pub open spec fn register_scientist_spec(
    store: Option<ConfigView>,
    sender: Seq<char>,
    time_nanos: u64,
    req: RegistrationView,
) -> Result<ResponseView, ContractError> {
    match store {
        None => Err(ContractError::NotInitialized),
        Some(config) => Ok(register_response_spec(config, req, sender, time_nanos)),
    }
}

/// The whole `execute` transition, dispatching on the operation.
pub open spec fn execute_spec(
    store: Option<ConfigView>,
    sender: Seq<char>,
    time_nanos: u64,
    msg: ExecuteMsgView,
) -> (Option<ConfigView>, Result<ResponseView, ContractError>) {
    match msg {
        ExecuteMsgView::UpdateConfig { config } => update_config_spec(store, sender, config),
        ExecuteMsgView::RegisterScientist { request } => (
            store,
            register_scientist_spec(store, sender, time_nanos, request),
        ),
    }
}

/// The get-config query: the stored configuration, verbatim.
pub open spec fn query_config_spec(store: Option<ConfigView>) -> Result<
    ConfigView,
    ContractError,
> {
    match store {
        None => Err(ContractError::NotInitialized),
        Some(config) => Ok(config),
    }
}

/// An executable transition result agrees with its spec-level result.
pub open spec fn response_result_matches(
    r: Result<Response, ContractError>,
    s: Result<ResponseView, ContractError>,
) -> bool {
    match s {
        Ok(v) => r matches Ok(resp) && resp@ == v,
        Err(e) => r matches Err(e2) && e2 == e,
    }
}

pub open spec fn config_result_matches(
    r: Result<Config, ContractError>,
    s: Result<ConfigView, ContractError>,
) -> bool {
    match s {
        Ok(v) => r matches Ok(c) && c@ == v,
        Err(e) => r matches Err(e2) && e2 == e,
    }
}

pub open spec fn registration_view(
    name: Seq<char>,
    institution: Seq<char>,
    specialization: Seq<char>,
    description: Seq<char>,
    email: Seq<char>,
    image: Option<Seq<char>>,
    website: Option<Seq<char>>,
    orcid_id: Option<Seq<char>>,
) -> RegistrationView {
    RegistrationView { name, institution, specialization, description, email, image, website, orcid_id }
}

fn log_attr(key: &str, value: String) -> (a: LogAttribute)
    ensures
        a@ == attr(key@, value@),
{
    LogAttribute { key: String::from_str(key), value }
}

/// One-time initialization: validates both identities, then stores the
/// configuration unconditionally. The host guarantees this runs exactly
/// once, before any execute or query.
pub fn instantiate(store: &mut ConfigStore, _env: &Env, _info: &MessageInfo, msg: InstantiateMsg) -> (r:
    Result<Response, ContractError>)
    ensures
        final(store)@ == instantiate_spec(old(store)@, msg@).0,
        response_result_matches(r, instantiate_spec(old(store)@, msg@).1),
{
    if !validate_identity(msg.owner.as_str()) {
        return Err(ContractError::InvalidIdentity);
    }
    if !validate_identity(msg.nft_contract.as_str()) {
        return Err(ContractError::InvalidIdentity);
    }
    let config = Config {
        owner: msg.owner.clone(),
        nft_contract: msg.nft_contract.clone(),
        nft_contract_hash: msg.nft_contract_hash.clone(),
    };
    store.save(config);

    let mut attributes: Vec<LogAttribute> = Vec::new();
    let a0 = log_attr("action", String::from_str("instantiate"));
    let a1 = log_attr("owner", msg.owner);
    let a2 = log_attr("nft_contract", msg.nft_contract);
    let a3 = log_attr("nft_contract_hash", msg.nft_contract_hash);
    let ghost views = seq![a0@, a1@, a2@, a3@];
    attributes.push(a0);
    attributes.push(a1);
    attributes.push(a2);
    attributes.push(a3);
    let resp = Response { messages: Vec::new(), attributes };
    proof {
        assert(resp@.attributes =~= views);
        assert(resp@.messages =~= Seq::<OutboundMsgView>::empty());
        assert(resp@ =~~= instantiate_response_spec(msg@));
    }
    Ok(resp)
}

/// Routes a mutating operation to its handler.
pub fn execute(store: &mut ConfigStore, env: &Env, info: &MessageInfo, msg: ExecuteMsg) -> (r:
    Result<Response, ContractError>)
    ensures
        final(store)@ == execute_spec(old(store)@, info.sender@, env.block.time.nanos, msg@).0,
        response_result_matches(
            r,
            execute_spec(old(store)@, info.sender@, env.block.time.nanos, msg@).1,
        ),
        msg@ is RegisterScientist ==> final(store)@ == old(store)@,
{
    match msg {
        ExecuteMsg::UpdateConfig { config } => execute_update_config(store, info, config),
        ExecuteMsg::RegisterScientist {
            name,
            institution,
            specialization,
            description,
            email,
            image,
            website,
            orcid_id,
        } => execute_register_scientist(
            store,
            env,
            info,
            name,
            institution,
            specialization,
            description,
            email,
            image,
            website,
            orcid_id,
        ),
    }
}

/// Replaces the configuration wholesale; only the configured owner may.
/// A failing call leaves the store untouched.
pub fn execute_update_config(store: &mut ConfigStore, info: &MessageInfo, config: Config) -> (r:
    Result<Response, ContractError>)
    ensures
        final(store)@ == update_config_spec(old(store)@, info.sender@, config@).0,
        response_result_matches(r, update_config_spec(old(store)@, info.sender@, config@).1),
{
    let old_config = match store.load() {
        Ok(c) => c,
        Err(e) => {
            return Err(e);
        },
    };
    if info.sender != old_config.owner {
        return Err(ContractError::Unauthorized);
    }
    store.save(config);
    let mut attributes: Vec<LogAttribute> = Vec::new();
    let a0 = log_attr("action", String::from_str("update_config"));
    let ghost views = seq![a0@];
    attributes.push(a0);
    let resp = Response { messages: Vec::new(), attributes };
    proof {
        assert(resp@.attributes =~= views);
        assert(resp@.messages =~= Seq::<OutboundMsgView>::empty());
        assert(resp@ =~~= update_config_response_spec());
    }
    Ok(resp)
}

/// Registers a scientist: derives the token id and registration time
/// from the block time, builds the metadata, and wraps a mint request
/// addressed to the configured NFT module. Reads the store, never
/// writes it; any caller may register.
pub fn execute_register_scientist(
    store: &ConfigStore,
    env: &Env,
    info: &MessageInfo,
    name: String,
    institution: String,
    specialization: String,
    description: String,
    email: String,
    image: Option<String>,
    website: Option<String>,
    orcid_id: Option<String>,
) -> (r: Result<Response, ContractError>)
    ensures
        response_result_matches(
            r,
            register_scientist_spec(
                store@,
                info.sender@,
                env.block.time.nanos,
                registration_view(
                    name@,
                    institution@,
                    specialization@,
                    description@,
                    email@,
                    image.deep_view(),
                    website.deep_view(),
                    orcid_id.deep_view(),
                ),
            ),
        ),
{
    let ghost reqv = registration_view(
        name@,
        institution@,
        specialization@,
        description@,
        email@,
        image.deep_view(),
        website.deep_view(),
        orcid_id.deep_view(),
    );
    let ghost senderv = info.sender@;
    let ghost t = env.block.time.nanos;

    let config = match store.load() {
        Ok(c) => c,
        Err(e) => {
            return Err(e);
        },
    };
    let ghost cfgv = config@;

    let timestamp = env.block.time.seconds();
    let token_id = String::from_str("scientist-").concat(u64_to_dec(timestamp).as_str());
    proof {
        assert(token_id@ == token_id_spec(t));
    }

    let registered_at = env.block.time.display_string();

    let mut attribute_list: Vec<Attribute> = Vec::new();
    let b0 = Attribute {
        trait_type: String::from_str("Type"),
        value: String::from_str("Scientist"),
    };
    let b1 = Attribute { trait_type: String::from_str("Institution"), value: institution.clone() };
    let b2 = Attribute {
        trait_type: String::from_str("Specialization"),
        value: specialization.clone(),
    };
    let b3 = Attribute {
        trait_type: String::from_str("Network"),
        value: String::from_str("Secret Network Mainnet"),
    };
    let b4 = Attribute {
        trait_type: String::from_str("Platform"),
        value: String::from_str("Unbound Science"),
    };
    let ghost attr_views = seq![b0@, b1@, b2@, b3@, b4@];
    attribute_list.push(b0);
    attribute_list.push(b1);
    attribute_list.push(b2);
    attribute_list.push(b3);
    attribute_list.push(b4);

    let public_metadata = PublicMetadata {
        extension: PublicExtension {
            name: name.clone().concat(" - Scientist"),
            description: String::from_str("Scientist verification token on Secret Network"),
            image,
            attributes: attribute_list,
        },
    };
    let ghost pmv = public_metadata@;
    proof {
        assert(public_metadata.extension.attributes.deep_view() =~= attr_views);
        assert(pmv =~~= public_metadata_spec(reqv));
    }

    let private_metadata = PrivateMetadata {
        extension: PrivateExtension {
            registered_at,
            wallet_address: info.sender.clone(),
            description,
            platform: String::from_str("Unbound Science"),
            email,
            website,
            orcid_id,
        },
    };
    let ghost prv = private_metadata@;
    proof {
        assert(prv =~~= private_metadata_spec(reqv, senderv, t));
    }

    let mint_msg = Snip721ExecuteMsg::MintNft {
        token_id: token_id.clone(),
        owner: info.sender.clone(),
        public_metadata: Some(public_metadata),
        private_metadata: Some(private_metadata),
        memo: None,
    };
    let ghost mv = mint_msg@;
    proof {
        assert(mv =~~= mint_msg_spec(reqv, senderv, t));
    }

    let outbound = OutboundMsg {
        contract_addr: config.nft_contract,
        code_hash: config.nft_contract_hash,
        msg: mint_msg,
        funds: Vec::new(),
    };
    let ghost ov = outbound@;
    proof {
        assert(ov.funds =~= Seq::<CoinView>::empty());
        assert(ov =~~= outbound_mint_msg_spec(cfgv, reqv, senderv, t));
    }
    let mut messages: Vec<OutboundMsg> = Vec::new();
    messages.push(outbound);

    let mut attributes: Vec<LogAttribute> = Vec::new();
    let a0 = log_attr("action", String::from_str("register_scientist"));
    let a1 = log_attr("token_id", token_id);
    let a2 = log_attr("owner", info.sender.clone());
    let a3 = log_attr("name", name);
    let a4 = log_attr("institution", institution);
    let a5 = log_attr("specialization", specialization);
    let ghost log_views = seq![a0@, a1@, a2@, a3@, a4@, a5@];
    attributes.push(a0);
    attributes.push(a1);
    attributes.push(a2);
    attributes.push(a3);
    attributes.push(a4);
    attributes.push(a5);

    let resp = Response { messages, attributes };
    proof {
        assert(resp@.messages =~= seq![ov]);
        assert(resp@.attributes =~= log_views);
        assert(resp@ =~~= register_response_spec(cfgv, reqv, senderv, t));
    }
    Ok(resp)
}

/// Routes a read-only operation to its handler.
pub fn query(store: &ConfigStore, _env: &Env, msg: QueryMsg) -> (r: Result<Config, ContractError>)
    ensures
        config_result_matches(r, query_config_spec(store@)),
{
    match msg {
        QueryMsg::GetConfig {  } => query_config(store),
    }
}

/// Returns the stored configuration verbatim.
pub fn query_config(store: &ConfigStore) -> (r: Result<Config, ContractError>)
    ensures
        config_result_matches(r, query_config_spec(store@)),
{
    store.load()
}

/// Law: for all valid instantiation inputs, the transition succeeds,
/// stores exactly those inputs, and a subsequent get-config query
/// returns exactly them.
pub proof fn lemma_instantiate_then_get_config(store: Option<ConfigView>, msg: InstantiateMsgView)
    requires
        valid_identity(msg.owner),
        valid_identity(msg.nft_contract),
    ensures
        instantiate_spec(store, msg).1 is Ok,
        query_config_spec(instantiate_spec(store, msg).0) == Ok::<ConfigView, ContractError>(
            (ConfigView {
                owner: msg.owner,
                nft_contract: msg.nft_contract,
                nft_contract_hash: msg.nft_contract_hash,
            }),
        ),
{
}

/// Law: an update by the owner replaces the configuration wholesale and
/// a subsequent query returns the new one; an update by anyone else
/// fails with `Unauthorized` and the query still returns the old one.
pub proof fn lemma_update_config_authorization(
    current: ConfigView,
    sender: Seq<char>,
    next: ConfigView,
)
    requires
        current != next,
    ensures
        sender == current.owner ==> update_config_spec(Some(current), sender, next).1 is Ok
            && query_config_spec(update_config_spec(Some(current), sender, next).0)
            == Ok::<ConfigView, ContractError>(next),
        sender != current.owner ==> update_config_spec(Some(current), sender, next).1
            == Err::<ResponseView, ContractError>(ContractError::Unauthorized)
            && query_config_spec(update_config_spec(Some(current), sender, next).0)
            == Ok::<ConfigView, ContractError>(current),
{
}

/// Law: the token id is `scientist-` followed by the block time in
/// whole seconds, whatever the request, caller or configuration; two
/// registrations whose block times fall in the same second produce the
/// same (colliding) token id.
pub proof fn lemma_token_id_from_block_time(
    config1: ConfigView,
    config2: ConfigView,
    req1: RegistrationView,
    req2: RegistrationView,
    sender1: Seq<char>,
    sender2: Seq<char>,
    t1: u64,
    t2: u64,
)
    requires
        t1 / NANOS_PER_SECOND == t2 / NANOS_PER_SECOND,
    ensures
        register_response_spec(config1, req1, sender1, t1).messages[0].msg->token_id
            == "scientist-"@ + dec_str((t1 / NANOS_PER_SECOND) as nat),
        register_response_spec(config1, req1, sender1, t1).messages[0].msg->token_id
            == register_response_spec(config2, req2, sender2, t2).messages[0].msg->token_id,
{
}

/// Law: the public metadata always carries exactly five attributes, in
/// the fixed order Type, Institution, Specialization, Network,
/// Platform, with institution and specialization echoing the request.
pub proof fn lemma_public_metadata_attributes(req: RegistrationView)
    ensures
        public_metadata_spec(req).extension.attributes.len() == 5,
        public_metadata_spec(req).extension.attributes[0] == attr_entry("Type"@, "Scientist"@),
        public_metadata_spec(req).extension.attributes[1] == attr_entry(
            "Institution"@,
            req.institution,
        ),
        public_metadata_spec(req).extension.attributes[2] == attr_entry(
            "Specialization"@,
            req.specialization,
        ),
        public_metadata_spec(req).extension.attributes[3] == attr_entry(
            "Network"@,
            "Secret Network Mainnet"@,
        ),
        public_metadata_spec(req).extension.attributes[4] == attr_entry(
            "Platform"@,
            "Unbound Science"@,
        ),
{
}

/// Law: the private metadata's wallet address is the calling identity
/// and its registration time is the block time, never anything the
/// request supplied (a request has no such fields to supply).
pub proof fn lemma_private_metadata_from_context(
    config: ConfigView,
    req: RegistrationView,
    sender: Seq<char>,
    time_nanos: u64,
)
    ensures
        register_response_spec(config, req, sender, time_nanos).messages[0].msg->private_metadata
            matches Some(p) && p.extension.wallet_address == sender,
        register_response_spec(config, req, sender, time_nanos).messages[0].msg->private_metadata
            matches Some(p) && p.extension.registered_at == timestamp_display(time_nanos),
{
}

/// Law: register-scientist never changes the stored configuration.
pub proof fn lemma_register_preserves_config(
    store: Option<ConfigView>,
    sender: Seq<char>,
    time_nanos: u64,
    req: RegistrationView,
)
    ensures
        execute_spec(
            store,
            sender,
            time_nanos,
            (ExecuteMsgView::RegisterScientist { request: req }),
        ).0 == store,
{
}

} // verus!
