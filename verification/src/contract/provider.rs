//! Read access to contract-related ledger data, as a trait for storage
//! back ends to implement.
use crate::crypto::PublicKey;
use vstd::prelude::*;

verus! {

/// A topological height in the block DAG.
pub type TopoHeight = u64;

/// Why a provider could not answer.
#[derive(Debug, Clone, PartialEq, Eq)]
pub struct ProviderError {
    /// A description of the failure.
    pub message: String,
}

/// High-level read access to contract-related data. Storage back ends
/// implement it; the ciphertext and asset data types are theirs.
pub trait ContractProvider: 'static {
    /// The encrypted balance kept for an account.
    type Ciphertext;

    /// The full data of an asset (metadata, rules, ...).
    type AssetData;

    /// The balance of a contract for an asset, with the height it was set at.
    fn get_contract_balance_for_asset(
        &self,
        contract: &crate::crypto::Hash,
        asset: &crate::crypto::Hash,
        topoheight: TopoHeight,
    ) -> Result<Option<(TopoHeight, u64)>, ProviderError>;

    /// The balance of an account for an asset at a height.
    fn get_account_balance_for_asset(
        &self,
        key: &PublicKey,
        asset: &crate::crypto::Hash,
        topoheight: TopoHeight,
    ) -> Result<Option<(TopoHeight, Self::Ciphertext)>, ProviderError>;

    /// Whether an asset exists at a height.
    fn asset_exists(&self, asset: &crate::crypto::Hash, topoheight: TopoHeight) -> Result<bool, ProviderError>;

    /// The full data of an asset at a height.
    fn load_asset_data(
        &self,
        asset: &crate::crypto::Hash,
        topoheight: TopoHeight,
    ) -> Result<Option<(TopoHeight, Self::AssetData)>, ProviderError>;

    /// The total supply of an asset at a height.
    fn load_asset_supply(
        &self,
        asset: &crate::crypto::Hash,
        topoheight: TopoHeight,
    ) -> Result<Option<(TopoHeight, u64)>, ProviderError>;

    /// Whether an account exists at a height.
    fn account_exists(&self, key: &PublicKey, topoheight: TopoHeight) -> Result<bool, ProviderError>;
}

/// Lends a provider, mutably, to code that runs a contract.
pub struct ContractProviderWrapper<'a, S: ContractProvider>(pub &'a mut S);

} // verus!
