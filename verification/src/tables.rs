//! The pallets of each abstraction, in the order in which they receive their
//! indices.

use crate::models::ConstructAbstractions;
use vstd::prelude::*;
use vstd::string::StringExecFns;

verus! {

/// One pallet of an abstraction: the name it gets in the runtime and the
/// module that implements it.
#[derive(Debug, PartialEq, Eq)]
pub struct PalletEntry {
    pub name: String,
    pub module: String,
}

impl View for PalletEntry {
    type V = (Seq<char>, Seq<char>);

    open spec fn view(&self) -> (Seq<char>, Seq<char>) {
        (self.name@, self.module@)
    }
}

impl PalletEntry {
    /// An entry with the given name and module.
    pub fn new(name: &str, module: &str) -> (entry: PalletEntry)
        ensures
            entry@ == (name@, module@),
    {
        PalletEntry { name: String::from_str(name), module: String::from_str(module) }
    }
}

/// The (name, module) pairs of a list of entries, in order.
pub open spec fn pairs(entries: Seq<PalletEntry>) -> Seq<(Seq<char>, Seq<char>)> {
    Seq::new(entries.len(), |i: int| entries[i]@)
}

/// One ordered list of pallets per abstraction. The order within a list is
/// the order of index assignment; it is not sorted.
#[derive(Debug, PartialEq, Eq)]
pub struct PalletTables {
    pub system: Vec<PalletEntry>,
    pub assets: Vec<PalletEntry>,
    pub consensus: Vec<PalletEntry>,
    pub governance: Vec<PalletEntry>,
    pub xcm: Vec<PalletEntry>,
    pub evm: Vec<PalletEntry>,
    pub tanssi: Vec<PalletEntry>,
}

impl PalletTables {
    /// The list of an abstraction.
    pub open spec fn table(self, kind: ConstructAbstractions) -> Seq<(Seq<char>, Seq<char>)> {
        match kind {
            ConstructAbstractions::System => pairs(self.system@),
            ConstructAbstractions::Assets => pairs(self.assets@),
            ConstructAbstractions::Consensus => pairs(self.consensus@),
            ConstructAbstractions::Governance => pairs(self.governance@),
            ConstructAbstractions::Xcm => pairs(self.xcm@),
            ConstructAbstractions::Evm => pairs(self.evm@),
            ConstructAbstractions::Tanssi => pairs(self.tanssi@),
        }
    }

    /// The list of an abstraction.
    pub fn entries(&self, kind: ConstructAbstractions) -> (list: &Vec<PalletEntry>)
        ensures
            pairs(list@) == self.table(kind),
    {
        match kind {
            ConstructAbstractions::System => &self.system,
            ConstructAbstractions::Assets => &self.assets,
            ConstructAbstractions::Consensus => &self.consensus,
            ConstructAbstractions::Governance => &self.governance,
            ConstructAbstractions::Xcm => &self.xcm,
            ConstructAbstractions::Evm => &self.evm,
            ConstructAbstractions::Tanssi => &self.tanssi,
        }
    }

    /// The standard tables.
    pub fn standard() -> (tables: PalletTables)
        ensures
            forall|kind: ConstructAbstractions| #[trigger] tables.table(kind) == standard_table(kind),
    {
        PalletTables {
            system: system_pallets(),
            assets: assets_pallets(),
            consensus: consensus_pallets(),
            governance: governance_pallets(),
            xcm: xcm_pallets(),
            evm: evm_pallets(),
            tanssi: tanssi_pallets(),
        }
    }
}

/// The standard list of an abstraction.
pub open spec fn standard_table(kind: ConstructAbstractions) -> Seq<(Seq<char>, Seq<char>)> {
    match kind {
        ConstructAbstractions::System => seq![
            ("System"@, "frame_system"@),
            ("Timestamp"@, "pallet_timestamp"@),
            ("ParachainInfo"@, "parachain_info"@),
            ("Proxy"@, "pallet_proxy"@),
            ("Utility"@, "pallet_utility"@),
            ("Multisig"@, "pallet_multisig"@),
            ("Scheduler"@, "pallet_scheduler"@),
            ("Preimage"@, "pallet_preimage"@),
            ("Balances"@, "pallet_balances"@),
            ("TransactionPayment"@, "pallet_transaction_payment"@),
            ("ParachainSystem"@, "cumulus_pallet_parachain_system"@),
        ],
        ConstructAbstractions::Assets => seq![
            ("Assets"@, "pallet_assets"@),
            ("TransactionPayment"@, "pallet_transaction_payment"@),
            ("AssetManager"@, "pallet_asset_manager"@),
        ],
        ConstructAbstractions::Consensus => seq![
            ("Authorship"@, "pallet_authorship"@),
            ("Aura"@, "pallet_aura"@),
            ("AuraExt"@, "cumulus_pallet_aura_ext"@),
            ("CollatorSelection"@, "pallet_collator_selection"@),
            ("Session"@, "pallet_session"@),
        ],
        ConstructAbstractions::Governance => seq![
            ("Sudo"@, "pallet_sudo"@),
            ("Treasury"@, "pallet_treasury"@),
            ("ConvictionVoting"@, "pallet_conviction_voting"@),
            ("Whitelist"@, "pallet_whitelist"@),
            ("Origins"@, "pallet_custom_origins"@),
            ("Referenda"@, "pallet_referenda"@),
        ],
        ConstructAbstractions::Xcm => seq![
            ("MessageQueue"@, "pallet_message_queue"@),
            ("XcmpQueue"@, "cumulus_pallet_xcmp_queue"@),
            ("PolkadotXcm"@, "pallet_xcm"@),
            ("CumulusXcm"@, "cumulus_pallet_xcm"@),
            ("XcmWeightTrader"@, "pallet_xcm_weight_trader"@),
            ("XTokens"@, "orml_xtokens"@),
            ("XcmTransactor"@, "pallet_xcm_transactor"@),
        ],
        ConstructAbstractions::Evm => seq![
            ("Ethereum"@, "pallet_ethereum"@),
            ("EVM"@, "pallet_evm"@),
            ("BaseFee"@, "pallet_base_fee"@),
            ("EVMChainId"@, "pallet_evm_chain_id"@),
            ("Erc20XcmBridge"@, "pallet_erc20_xcm_bridge"@),
        ],
        ConstructAbstractions::Tanssi => seq![
            ("AuthorInherent"@, "pallet_author_inherent"@),
            ("AuthoritiesNoting"@, "pallet_cc_authorities_noting"@),
        ],
    }
}

/// The standard pallets of the System abstraction.
pub fn system_pallets() -> (list: Vec<PalletEntry>)
    ensures
        pairs(list@) == standard_table(ConstructAbstractions::System),
{
    let mut list: Vec<PalletEntry> = Vec::new();
    list.push(PalletEntry::new("System", "frame_system"));
    list.push(PalletEntry::new("Timestamp", "pallet_timestamp"));
    list.push(PalletEntry::new("ParachainInfo", "parachain_info"));
    list.push(PalletEntry::new("Proxy", "pallet_proxy"));
    list.push(PalletEntry::new("Utility", "pallet_utility"));
    list.push(PalletEntry::new("Multisig", "pallet_multisig"));
    list.push(PalletEntry::new("Scheduler", "pallet_scheduler"));
    list.push(PalletEntry::new("Preimage", "pallet_preimage"));
    list.push(PalletEntry::new("Balances", "pallet_balances"));
    list.push(PalletEntry::new("TransactionPayment", "pallet_transaction_payment"));
    list.push(PalletEntry::new("ParachainSystem", "cumulus_pallet_parachain_system"));
    assert(pairs(list@) =~= standard_table(ConstructAbstractions::System));
    list
}

/// The standard pallets of the Assets abstraction.
pub fn assets_pallets() -> (list: Vec<PalletEntry>)
    ensures
        pairs(list@) == standard_table(ConstructAbstractions::Assets),
{
    let mut list: Vec<PalletEntry> = Vec::new();
    list.push(PalletEntry::new("Assets", "pallet_assets"));
    list.push(PalletEntry::new("TransactionPayment", "pallet_transaction_payment"));
    list.push(PalletEntry::new("AssetManager", "pallet_asset_manager"));
    assert(pairs(list@) =~= standard_table(ConstructAbstractions::Assets));
    list
}

/// The standard pallets of the Consensus abstraction.
pub fn consensus_pallets() -> (list: Vec<PalletEntry>)
    ensures
        pairs(list@) == standard_table(ConstructAbstractions::Consensus),
{
    let mut list: Vec<PalletEntry> = Vec::new();
    list.push(PalletEntry::new("Authorship", "pallet_authorship"));
    list.push(PalletEntry::new("Aura", "pallet_aura"));
    list.push(PalletEntry::new("AuraExt", "cumulus_pallet_aura_ext"));
    list.push(PalletEntry::new("CollatorSelection", "pallet_collator_selection"));
    list.push(PalletEntry::new("Session", "pallet_session"));
    assert(pairs(list@) =~= standard_table(ConstructAbstractions::Consensus));
    list
}

/// The standard pallets of the Governance abstraction.
pub fn governance_pallets() -> (list: Vec<PalletEntry>)
    ensures
        pairs(list@) == standard_table(ConstructAbstractions::Governance),
{
    let mut list: Vec<PalletEntry> = Vec::new();
    list.push(PalletEntry::new("Sudo", "pallet_sudo"));
    list.push(PalletEntry::new("Treasury", "pallet_treasury"));
    list.push(PalletEntry::new("ConvictionVoting", "pallet_conviction_voting"));
    list.push(PalletEntry::new("Whitelist", "pallet_whitelist"));
    list.push(PalletEntry::new("Origins", "pallet_custom_origins"));
    list.push(PalletEntry::new("Referenda", "pallet_referenda"));
    assert(pairs(list@) =~= standard_table(ConstructAbstractions::Governance));
    list
}

/// The standard pallets of the XCM abstraction.
pub fn xcm_pallets() -> (list: Vec<PalletEntry>)
    ensures
        pairs(list@) == standard_table(ConstructAbstractions::Xcm),
{
    let mut list: Vec<PalletEntry> = Vec::new();
    list.push(PalletEntry::new("MessageQueue", "pallet_message_queue"));
    list.push(PalletEntry::new("XcmpQueue", "cumulus_pallet_xcmp_queue"));
    list.push(PalletEntry::new("PolkadotXcm", "pallet_xcm"));
    list.push(PalletEntry::new("CumulusXcm", "cumulus_pallet_xcm"));
    list.push(PalletEntry::new("XcmWeightTrader", "pallet_xcm_weight_trader"));
    list.push(PalletEntry::new("XTokens", "orml_xtokens"));
    list.push(PalletEntry::new("XcmTransactor", "pallet_xcm_transactor"));
    assert(pairs(list@) =~= standard_table(ConstructAbstractions::Xcm));
    list
}

/// The standard pallets of the EVM abstraction.
pub fn evm_pallets() -> (list: Vec<PalletEntry>)
    ensures
        pairs(list@) == standard_table(ConstructAbstractions::Evm),
{
    let mut list: Vec<PalletEntry> = Vec::new();
    list.push(PalletEntry::new("Ethereum", "pallet_ethereum"));
    list.push(PalletEntry::new("EVM", "pallet_evm"));
    list.push(PalletEntry::new("BaseFee", "pallet_base_fee"));
    list.push(PalletEntry::new("EVMChainId", "pallet_evm_chain_id"));
    list.push(PalletEntry::new("Erc20XcmBridge", "pallet_erc20_xcm_bridge"));
    assert(pairs(list@) =~= standard_table(ConstructAbstractions::Evm));
    list
}

/// The standard pallets of the Tanssi abstraction.
pub fn tanssi_pallets() -> (list: Vec<PalletEntry>)
    ensures
        pairs(list@) == standard_table(ConstructAbstractions::Tanssi),
{
    let mut list: Vec<PalletEntry> = Vec::new();
    list.push(PalletEntry::new("AuthorInherent", "pallet_author_inherent"));
    list.push(PalletEntry::new("AuthoritiesNoting", "pallet_cc_authorities_noting"));
    assert(pairs(list@) =~= standard_table(ConstructAbstractions::Tanssi));
    list
}

} // verus!
