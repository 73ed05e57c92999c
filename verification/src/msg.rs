//! The structured data crossing this module's boundary: incoming
//! operation payloads, the metadata attached to a minted token, and the
//! result bundle (observability attributes plus outbound messages) a
//! handler returns to the host.

use vstd::prelude::*;
use crate::state::{Config, ConfigView};

verus! {

/// Payload of the one-time `instantiate` operation.
#[derive(Debug)]
pub struct InstantiateMsg {
    pub owner: String,
    pub nft_contract: String,
    pub nft_contract_hash: String,
}

#[verifier::ext_equal]
pub ghost struct InstantiateMsgView {
    pub owner: Seq<char>,
    pub nft_contract: Seq<char>,
    pub nft_contract_hash: Seq<char>,
}

impl View for InstantiateMsg {
    type V = InstantiateMsgView;

    open spec fn view(&self) -> InstantiateMsgView {
        InstantiateMsgView {
            owner: self.owner@,
            nft_contract: self.nft_contract@,
            nft_contract_hash: self.nft_contract_hash@,
        }
    }
}

/// One displayable trait of a token, as the NFT module stores it.
#[derive(Debug)]
pub struct Attribute {
    pub trait_type: String,
    pub value: String,
}

#[verifier::ext_equal]
pub ghost struct AttributeView {
    pub trait_type: Seq<char>,
    pub value: Seq<char>,
}

impl View for Attribute {
    type V = AttributeView;

    open spec fn view(&self) -> AttributeView {
        AttributeView { trait_type: self.trait_type@, value: self.value@ }
    }
}

impl DeepView for Attribute {
    type V = AttributeView;

    open spec fn deep_view(&self) -> AttributeView {
        self.view()
    }
}

/// The publicly visible part of a token's metadata.
#[derive(Debug)]
pub struct PublicExtension {
    pub name: String,
    pub description: String,
    pub image: Option<String>,
    pub attributes: Vec<Attribute>,
}

#[verifier::ext_equal]
pub ghost struct PublicExtensionView {
    pub name: Seq<char>,
    pub description: Seq<char>,
    pub image: Option<Seq<char>>,
    pub attributes: Seq<AttributeView>,
}

impl View for PublicExtension {
    type V = PublicExtensionView;

    open spec fn view(&self) -> PublicExtensionView {
        PublicExtensionView {
            name: self.name@,
            description: self.description@,
            image: self.image.deep_view(),
            attributes: self.attributes.deep_view(),
        }
    }
}

/// The owner-only part of a token's metadata. `registered_at` and
/// `wallet_address` come from the execution context, never from the
/// registration request.
#[derive(Debug)]
pub struct PrivateExtension {
    pub registered_at: String,
    pub wallet_address: String,
    pub description: String,
    pub platform: String,
    pub email: String,
    pub website: Option<String>,
    pub orcid_id: Option<String>,
}

#[verifier::ext_equal]
pub ghost struct PrivateExtensionView {
    pub registered_at: Seq<char>,
    pub wallet_address: Seq<char>,
    pub description: Seq<char>,
    pub platform: Seq<char>,
    pub email: Seq<char>,
    pub website: Option<Seq<char>>,
    pub orcid_id: Option<Seq<char>>,
}

impl View for PrivateExtension {
    type V = PrivateExtensionView;

    open spec fn view(&self) -> PrivateExtensionView {
        PrivateExtensionView {
            registered_at: self.registered_at@,
            wallet_address: self.wallet_address@,
            description: self.description@,
            platform: self.platform@,
            email: self.email@,
            website: self.website.deep_view(),
            orcid_id: self.orcid_id.deep_view(),
        }
    }
}

#[derive(Debug)]
pub struct PublicMetadata {
    pub extension: PublicExtension,
}

#[verifier::ext_equal]
pub ghost struct PublicMetadataView {
    pub extension: PublicExtensionView,
}

impl View for PublicMetadata {
    type V = PublicMetadataView;

    open spec fn view(&self) -> PublicMetadataView {
        PublicMetadataView { extension: self.extension@ }
    }
}

impl DeepView for PublicMetadata {
    type V = PublicMetadataView;

    open spec fn deep_view(&self) -> PublicMetadataView {
        self.view()
    }
}

#[derive(Debug)]
pub struct PrivateMetadata {
    pub extension: PrivateExtension,
}

#[verifier::ext_equal]
pub ghost struct PrivateMetadataView {
    pub extension: PrivateExtensionView,
}

impl View for PrivateMetadata {
    type V = PrivateMetadataView;

    open spec fn view(&self) -> PrivateMetadataView {
        PrivateMetadataView { extension: self.extension@ }
    }
}

impl DeepView for PrivateMetadata {
    type V = PrivateMetadataView;

    open spec fn deep_view(&self) -> PrivateMetadataView {
        self.view()
    }
}

/// The mutating operations the host can dispatch to this module.
pub enum ExecuteMsg {
    UpdateConfig {
        config: Config,
    },
    RegisterScientist {
        name: String,
        institution: String,
        specialization: String,
        description: String,
        email: String,
        image: Option<String>,
        website: Option<String>,
        orcid_id: Option<String>,
    },
}

/// The read-only operations the host can dispatch to this module.
pub enum QueryMsg {
    GetConfig {},
}

/// Migration payload; this module carries no state across migrations.
pub struct MigrateMsg {}

/// The operations of the target NFT module that this module addresses;
/// only minting is ever requested.
#[derive(Debug)]
pub enum Snip721ExecuteMsg {
    MintNft {
        token_id: String,
        owner: String,
        public_metadata: Option<PublicMetadata>,
        private_metadata: Option<PrivateMetadata>,
        memo: Option<String>,
    },
}

#[verifier::ext_equal]
pub ghost enum Snip721ExecuteMsgView {
    MintNft {
        token_id: Seq<char>,
        owner: Seq<char>,
        public_metadata: Option<PublicMetadataView>,
        private_metadata: Option<PrivateMetadataView>,
        memo: Option<Seq<char>>,
    },
}

impl View for Snip721ExecuteMsg {
    type V = Snip721ExecuteMsgView;

    open spec fn view(&self) -> Snip721ExecuteMsgView {
        match self {
            Snip721ExecuteMsg::MintNft {
                token_id,
                owner,
                public_metadata,
                private_metadata,
                memo,
            } => Snip721ExecuteMsgView::MintNft {
                token_id: token_id@,
                owner: owner@,
                public_metadata: public_metadata.deep_view(),
                private_metadata: private_metadata.deep_view(),
                memo: memo.deep_view(),
            },
        }
    }
}

/// One coin of funds attached to an outbound message. This module never
/// attaches any; the type only makes "no funds" a checkable statement.
#[derive(Debug)]
pub struct Coin {
    pub denom: String,
    pub amount: u128,
}

#[verifier::ext_equal]
pub ghost struct CoinView {
    pub denom: Seq<char>,
    pub amount: u128,
}

impl View for Coin {
    type V = CoinView;

    open spec fn view(&self) -> CoinView {
        CoinView { denom: self.denom@, amount: self.amount }
    }
}

impl DeepView for Coin {
    type V = CoinView;

    open spec fn deep_view(&self) -> CoinView {
        self.view()
    }
}

/// An addressed, hash-pinned call to the NFT module, handed to the host
/// for delivery after this transition commits.
#[derive(Debug)]
pub struct OutboundMsg {
    pub contract_addr: String,
    pub code_hash: String,
    pub msg: Snip721ExecuteMsg,
    pub funds: Vec<Coin>,
}

#[verifier::ext_equal]
pub ghost struct OutboundMsgView {
    pub contract_addr: Seq<char>,
    pub code_hash: Seq<char>,
    pub msg: Snip721ExecuteMsgView,
    pub funds: Seq<CoinView>,
}

impl View for OutboundMsg {
    type V = OutboundMsgView;

    open spec fn view(&self) -> OutboundMsgView {
        OutboundMsgView {
            contract_addr: self.contract_addr@,
            code_hash: self.code_hash@,
            msg: self.msg@,
            funds: self.funds.deep_view(),
        }
    }
}

impl DeepView for OutboundMsg {
    type V = OutboundMsgView;

    open spec fn deep_view(&self) -> OutboundMsgView {
        self.view()
    }
}

/// One key/value observability record attached to a transition's result.
#[derive(Debug)]
pub struct LogAttribute {
    pub key: String,
    pub value: String,
}

#[verifier::ext_equal]
pub ghost struct LogAttributeView {
    pub key: Seq<char>,
    pub value: Seq<char>,
}

impl View for LogAttribute {
    type V = LogAttributeView;

    open spec fn view(&self) -> LogAttributeView {
        LogAttributeView { key: self.key@, value: self.value@ }
    }
}

impl DeepView for LogAttribute {
    type V = LogAttributeView;

    open spec fn deep_view(&self) -> LogAttributeView {
        self.view()
    }
}

/// A successful transition's result bundle: the outbound messages the
/// host must deliver with it, and its observability attributes.
#[derive(Debug)]
pub struct Response {
    pub messages: Vec<OutboundMsg>,
    pub attributes: Vec<LogAttribute>,
}

#[verifier::ext_equal]
pub ghost struct ResponseView {
    pub messages: Seq<OutboundMsgView>,
    pub attributes: Seq<LogAttributeView>,
}

impl View for Response {
    type V = ResponseView;

    open spec fn view(&self) -> ResponseView {
        ResponseView {
            messages: self.messages.deep_view(),
            attributes: self.attributes.deep_view(),
        }
    }
}

/// A registration request as the spec-level transition functions see it.
#[verifier::ext_equal]
pub ghost struct RegistrationView {
    pub name: Seq<char>,
    pub institution: Seq<char>,
    pub specialization: Seq<char>,
    pub description: Seq<char>,
    pub email: Seq<char>,
    pub image: Option<Seq<char>>,
    pub website: Option<Seq<char>>,
    pub orcid_id: Option<Seq<char>>,
}

/// The view of an `ExecuteMsg`, pairing each operation with the view of
/// its payload.
#[verifier::ext_equal]
pub ghost enum ExecuteMsgView {
    UpdateConfig { config: ConfigView },
    RegisterScientist { request: RegistrationView },
}

impl View for ExecuteMsg {
    type V = ExecuteMsgView;

    open spec fn view(&self) -> ExecuteMsgView {
        match self {
            ExecuteMsg::UpdateConfig { config } => ExecuteMsgView::UpdateConfig {
                config: config@,
            },
            ExecuteMsg::RegisterScientist {
                name,
                institution,
                specialization,
                description,
                email,
                image,
                website,
                orcid_id,
            } => ExecuteMsgView::RegisterScientist {
                request: RegistrationView {
                    name: name@,
                    institution: institution@,
                    specialization: specialization@,
                    description: description@,
                    email: email@,
                    image: image.deep_view(),
                    website: website.deep_view(),
                    orcid_id: orcid_id.deep_view(),
                },
            },
        }
    }
}

} // verus!
