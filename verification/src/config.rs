//! Configuration per pallet grouping.

use crate::weights::{AssetsWeight, EvmWeight};
use vstd::prelude::*;

verus! {

/// The types that configure the pallets of the assets grouping.
pub trait AssetsConfig: AssetsWeight {
    type ApprovalDeposit;
    type AssetAccountDeposit;
    type AssetDeposit;
    type AssetId;
    type AssetType;
    type BenchmarkHelper;
    type CreateOrigin;
    type ForceOrigin;
    type ForeignAssetModifierOrigin;
    type AssetRegistrar;
    type AssetRegistrarMetadata;
    type WeightToFee;
}

/// The types that configure the pallets of the EVM grouping.
pub trait EvmConfig: EvmWeight {
    type AddressMapping;
    type FindAuthor;
    type CallOrigin;
    type WithdrawOrigin;
    type PrecompilesType;
    type PrecompilesValue;
    type Erc20XcmBridgeTransferGasLimit;
    type LocationToH160;
}

} // verus!
