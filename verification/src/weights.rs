//! Weights per pallet grouping.

use vstd::prelude::*;

verus! {

/// The weight information of the pallets of the system grouping, one type per
/// pallet.
pub trait SystemWeight {
    type Timestamp;
    type Scheduler;
    type Preimage;
    type Proxy;
    type Multisig;
    type ParachainSystem;
    type DbWeight;
}

/// The weight information of the pallets of the consensus grouping, one type per
/// pallet.
pub trait ConsensusWeight {
    type CollatorSelection;
    type Session;
}

/// The weight information of the pallets of the assets grouping, one type per
/// pallet.
pub trait AssetsWeight {
    type Assets;
    type AssetManager;
}

/// The weight information of the pallets of the governance grouping, one type per
/// pallet.
pub trait GovernanceWeight {
    type Sudo;
    type Treasury;
    type ConvictionVoting;
    type Whitelist;
    type Referenda;
}

/// The weight information of the pallets of the XCM grouping, one type per
/// pallet.
pub trait XcmWeight {
    type MessageQueue;
    type XcmpQueue;
    type Xcm;
    type XcmWeightTrader;
    type XcmTransactor;
}

/// The weight information of the pallets of the EVM grouping, one type per
/// pallet.
pub trait EvmWeight {
    type Evm;
}

/// The weight information of the pallets of the Tanssi grouping, one type per
/// pallet.
pub trait TanssiWeight {
    type AuthorInherent;
    type AuthoritiesNoting;
}

} // verus!
