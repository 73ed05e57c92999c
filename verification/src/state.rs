//! The one persistent record this module keeps, and the store that
//! holds it. The host persists the record between invocations; each
//! handler works against this in-memory image of the single slot.

use vstd::prelude::*;
use crate::error::ContractError;

verus! {

/// The module's configuration: the owner allowed to replace it, and
/// the address and code hash of the NFT module that mints for us.
#[derive(Debug)]
pub struct Config {
    pub owner: String,
    pub nft_contract: String,
    pub nft_contract_hash: String,
}

/// The mathematical image of a `Config`: its three strings.
#[verifier::ext_equal]
pub ghost struct ConfigView {
    pub owner: Seq<char>,
    pub nft_contract: Seq<char>,
    pub nft_contract_hash: Seq<char>,
}

impl View for Config {
    type V = ConfigView;

    open spec fn view(&self) -> ConfigView {
        ConfigView {
            owner: self.owner@,
            nft_contract: self.nft_contract@,
            nft_contract_hash: self.nft_contract_hash@,
        }
    }
}

impl DeepView for Config {
    type V = ConfigView;

    open spec fn deep_view(&self) -> ConfigView {
        self.view()
    }
}

impl Clone for Config {
    fn clone(&self) -> (res: Self)
        ensures
            res == *self,
    {
        Config {
            owner: self.owner.clone(),
            nft_contract: self.nft_contract.clone(),
            nft_contract_hash: self.nft_contract_hash.clone(),
        }
    }
}

/// The single keyed slot the host persists for this module. Its view is
/// the configuration it holds, if one was ever saved.
pub struct ConfigStore {
    pub config: Option<Config>,
}

impl View for ConfigStore {
    type V = Option<ConfigView>;

    open spec fn view(&self) -> Option<ConfigView> {
        self.config.deep_view()
    }
}

impl ConfigStore {
    /// A store in which nothing was ever saved.
    pub fn new() -> (s: ConfigStore)
        ensures
            s@ is None,
    {
        ConfigStore { config: None }
    }

    /// Overwrites the slot with `config`.
    pub fn save(&mut self, config: Config)
        ensures
            final(self)@ == Some(config@),
    {
        self.config = Some(config);
    }

    /// Reads the slot; fails when nothing was ever saved.
    pub fn load(&self) -> (r: Result<Config, ContractError>)
        ensures
            match self@ {
                Some(v) => r matches Ok(c) && c@ == v,
                None => r matches Err(e) && e == ContractError::NotInitialized,
            },
    {
        match &self.config {
            Some(c) => Ok(c.clone()),
            None => Err(ContractError::NotInitialized),
        }
    }
}

} // verus!
