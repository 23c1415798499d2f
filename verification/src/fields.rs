//! The field sets of the abstractions: which keys a marker's body must
//! supply, and the record of identifiers that they resolve to.

use crate::errors::{ExpansionError, Failure};
use crate::extract::{alias_position, extract, lemma_alias_position, lookup};
use crate::items::{Item, TargetType};
use crate::models::BackingMode;
use vstd::prelude::*;

verus! {

/// The least position at or after `from` of a key whose lookup fails, or the
/// length of `keys` if every key from there on resolves.
pub open spec fn first_failure(items: Seq<Item>, keys: Seq<Seq<char>>, from: int) -> int
    decreases keys.len() - from,
{
    if from < 0 || from >= keys.len() {
        keys.len() as int
    } else if lookup(items, keys[from]) is Err {
        from
    } else {
        first_failure(items, keys, from + 1)
    }
}

/// What resolving `keys` against `items` yields: the identifiers of all keys,
/// in the order of the keys, or the failure of the first key that does not
/// resolve.
pub open spec fn resolve(items: Seq<Item>, keys: Seq<Seq<char>>) -> Result<
    Seq<Seq<char>>,
    Failure,
> {
    let at = first_failure(items, keys, 0);
    if at < keys.len() {
        Err(lookup(items, keys[at])->Err_0)
    } else {
        Ok(Seq::new(keys.len(), |i: int| lookup(items, keys[i])->Ok_0))
    }
}

/// The texts of a list of keys.
pub open spec fn key_texts(keys: Seq<&'static str>) -> Seq<Seq<char>> {
    Seq::new(keys.len(), |i: int| keys[i]@)
}

/// The texts of a list of identifiers.
pub open spec fn texts(idents: Seq<String>) -> Seq<Seq<char>> {
    Seq::new(idents.len(), |i: int| idents[i]@)
}

/// `first_failure` is the least position of a key that fails.
pub proof fn lemma_first_failure(items: Seq<Item>, keys: Seq<Seq<char>>, from: int)
    requires
        0 <= from <= keys.len(),
    ensures
        from <= first_failure(items, keys, from) <= keys.len(),
        first_failure(items, keys, from) < keys.len() ==> lookup(
            items,
            keys[first_failure(items, keys, from)],
        ) is Err,
        forall|j: int|
            from <= j < first_failure(items, keys, from) ==> lookup(items, #[trigger] keys[j]) is Ok,
    decreases keys.len() - from,
{
    if from < keys.len() && lookup(items, keys[from]) is Ok {
        lemma_first_failure(items, keys, from + 1);
    }
}

/// Where all keys resolve, the identifier at each position of the record is
/// the one that looking up the key at that position yields.
pub proof fn law_resolved_fields(items: Seq<Item>, keys: Seq<Seq<char>>, at: int)
    requires
        resolve(items, keys) is Ok,
        0 <= at < keys.len(),
    ensures
        resolve(items, keys)->Ok_0.len() == keys.len(),
        lookup(items, keys[at]) == Ok::<_, Failure>(resolve(items, keys)->Ok_0[at]),
{
    lemma_first_failure(items, keys, 0);
    assert(lookup(items, keys[at]) is Ok);
}

/// Whether `item` is an alias that binds `key` to the bare identifier `ident`.
pub open spec fn binds(item: Item, key: Seq<char>, ident: Seq<char>) -> bool {
    match item {
        Item::TypeAlias { name, target: TargetType::Bare(bound), .. } => name@ == key && bound@
            == ident,
        _ => false,
    }
}

/// Whether `item` is an alias named `key` whose right-hand side is not a bare
/// identifier.
pub open spec fn binds_malformed(item: Item, key: Seq<char>) -> bool {
    match item {
        Item::TypeAlias { name, target: TargetType::Other, .. } => name@ == key,
        _ => false,
    }
}

/// Where every key is supplied exactly once, `at[i]` being the place of the
/// alias that binds `keys[i]` to `idents[i]`, all keys resolve and the record
/// holds exactly the supplied identifiers. Items that are no alias of a
/// required key do not matter.
pub proof fn law_all_keys_supplied(
    items: Seq<Item>,
    keys: Seq<Seq<char>>,
    idents: Seq<Seq<char>>,
    at: Seq<int>,
)
    requires
        idents.len() == keys.len(),
        at.len() == keys.len(),
        forall|i: int|
            0 <= i < keys.len() ==> 0 <= #[trigger] at[i] < items.len() && binds(
                items[at[i]],
                keys[i],
                idents[i],
            ),
        forall|i: int, p: int|
            0 <= i < keys.len() && 0 <= p < items.len() && (#[trigger] items[p]).is_alias_named(
                #[trigger] keys[i],
            ) ==> p == at[i],
    ensures
        resolve(items, keys) == Ok::<_, Failure>(idents),
{
    assert forall|i: int| 0 <= i < keys.len() implies lookup(items, #[trigger] keys[i]) == Ok::<
        _,
        Failure,
    >(idents[i]) by {
        lemma_alias_position(items, keys[i], 0);
        let first = alias_position(items, keys[i], 0);
        assert(0 <= at[i] < items.len());
        assert(items[at[i]].is_alias_named(keys[i]));
        assert(first <= at[i]);
        assert(items[first].is_alias_named(keys[i]));
    }
    lemma_first_failure(items, keys, 0);
    assert(resolve(items, keys)->Ok_0 =~= idents);
}

/// Where one required key has no alias at all and every other key resolves,
/// the parse fails and names the key that is missing.
pub proof fn law_missing_key(items: Seq<Item>, keys: Seq<Seq<char>>, missing: int)
    requires
        0 <= missing < keys.len(),
        forall|p: int| 0 <= p < items.len() ==> !(#[trigger] items[p]).is_alias_named(keys[missing]),
        forall|i: int| 0 <= i < keys.len() && i != missing ==> lookup(items, #[trigger] keys[i]) is Ok,
    ensures
        resolve(items, keys) == Err::<Seq<Seq<char>>, _>(Failure::MissingRequiredKey(keys[missing])),
{
    lemma_alias_position(items, keys[missing], 0);
    lemma_first_failure(items, keys, 0);
    let first = first_failure(items, keys, 0);
    assert(lookup(items, keys[missing]) is Err);
    if first < missing {
        assert(lookup(items, keys[first]) is Ok);
    }
    if first > missing {
        assert(lookup(items, keys[missing]) is Ok);
    }
}

/// Where the first alias of a required key has a right-hand side that is not
/// a bare identifier, the parse fails whatever else the body holds, so no
/// record is returned; the failure names that key when every key before it
/// resolves.
pub proof fn law_malformed_target(
    items: Seq<Item>,
    keys: Seq<Seq<char>>,
    malformed: int,
    at: int,
)
    requires
        0 <= malformed < keys.len(),
        0 <= at < items.len(),
        binds_malformed(items[at], keys[malformed]),
        forall|p: int| 0 <= p < at ==> !(#[trigger] items[p]).is_alias_named(keys[malformed]),
    ensures
        resolve(items, keys) is Err,
        (forall|i: int| 0 <= i < malformed ==> lookup(items, #[trigger] keys[i]) is Ok) ==> resolve(
            items,
            keys,
        ) == Err::<Seq<Seq<char>>, _>(Failure::MalformedTargetType(keys[malformed])),
{
    lemma_alias_position(items, keys[malformed], 0);
    let first_alias = alias_position(items, keys[malformed], 0);
    assert(items[at].is_alias_named(keys[malformed]));
    assert(first_alias <= at);
    if first_alias < at {
        assert(items[first_alias].is_alias_named(keys[malformed]));
    }
    assert(first_alias == at);
    assert(lookup(items, keys[malformed]) == Err::<Seq<char>, _>(
        Failure::MalformedTargetType(keys[malformed]),
    ));
    lemma_first_failure(items, keys, 0);
    let first = first_failure(items, keys, 0);
    if first > malformed {
        assert(lookup(items, keys[malformed]) is Ok);
    }
    if forall|i: int| 0 <= i < malformed ==> lookup(items, #[trigger] keys[i]) is Ok {
        if first < malformed {
            assert(lookup(items, keys[first]) is Ok);
        }
    }
}

/// Resolves each of `keys` against `items`, in order, and stops at the first
/// key that fails.
pub fn resolve_keys(items: &Vec<Item>, keys: &Vec<&'static str>) -> (found: Result<
    Vec<String>,
    ExpansionError,
>)
    ensures
        match found {
            Ok(idents) => idents@.len() == keys@.len() && resolve(items@, key_texts(keys@))
                == Ok::<_, Failure>(texts(idents@)),
            Err(e) => resolve(items@, key_texts(keys@)) == Err::<Seq<Seq<char>>, _>(e@),
        },
{
    let ghost kt = key_texts(keys@);
    let mut idents: Vec<String> = Vec::new();
    let mut i: usize = 0;
    while i < keys.len()
        invariant
            i <= keys.len(),
            kt == key_texts(keys@),
            idents@.len() == i,
            forall|j: int| 0 <= j < i ==> lookup(items@, kt[j]) == Ok::<_, Failure>(idents@[j]@),
            first_failure(items@, kt, 0) == first_failure(items@, kt, i as int),
        decreases keys.len() - i,
    {
        assert(kt[i as int] == keys@[i as int]@);
        match extract(items, keys[i]) {
            Ok(ident) => {
                idents.push(ident);
            },
            Err(e) => {
                return Err(e);
            },
        }
        i += 1;
    }
    assert(texts(idents@) =~= Seq::new(kt.len(), |i: int| lookup(items@, kt[i])->Ok_0));
    Ok(idents)
}

/// The identifiers that the assets APIs are built from.
#[derive(Debug, PartialEq, Eq)]
pub struct AssetAPIFields {
    pub transaction_payment: String,
    pub balance: String,
    pub call: String,
}

impl View for AssetAPIFields {
    type V = Seq<Seq<char>>;

    /// The identifiers in the order of [`AssetAPIFields::keys`].
    open spec fn view(&self) -> Seq<Seq<char>> {
        seq![self.transaction_payment@, self.balance@, self.call@]
    }
}

impl AssetAPIFields {
    /// The required keys, in the order in which they are resolved.
    pub open spec fn keys() -> Seq<Seq<char>> {
        seq!["TransactionPayment"@, "Balance"@, "RuntimeCall"@]
    }

    /// Resolves the required keys against a marker's body.
    pub fn try_from(value: &Vec<Item>) -> (fields: Result<AssetAPIFields, ExpansionError>)
        ensures
            match fields {
                Ok(f) => resolve(value@, Self::keys()) == Ok::<_, Failure>(f@),
                Err(e) => resolve(value@, Self::keys()) == Err::<Seq<Seq<char>>, _>(e@),
            },
    {
        let keys = vec!["TransactionPayment", "Balance", "RuntimeCall"];
        assert(key_texts(keys@) =~= Self::keys());
        match resolve_keys(value, &keys) {
            Ok(v) => {
                let f = AssetAPIFields {
                    transaction_payment: v[0].clone(),
                    balance: v[1].clone(),
                    call: v[2].clone(),
                };
                assert(f@ =~= texts(v@));
                Ok(f)
            },
            Err(e) => Err(e),
        }
    }
}

/// The identifiers that the EVM APIs are built from.
#[derive(Debug, PartialEq, Eq)]
pub struct EVMAPIFields {
    pub executive: String,
    pub ethereum: String,
    pub call: String,
}

impl View for EVMAPIFields {
    type V = Seq<Seq<char>>;

    /// The identifiers in the order of [`EVMAPIFields::keys`].
    open spec fn view(&self) -> Seq<Seq<char>> {
        seq![self.executive@, self.ethereum@, self.call@]
    }
}

impl EVMAPIFields {
    /// The required keys, in the order in which they are resolved.
    pub open spec fn keys() -> Seq<Seq<char>> {
        seq!["Executive"@, "Ethereum"@, "RuntimeCall"@]
    }

    /// Resolves the required keys against a marker's body.
    pub fn try_from(value: &Vec<Item>) -> (fields: Result<EVMAPIFields, ExpansionError>)
        ensures
            match fields {
                Ok(f) => resolve(value@, Self::keys()) == Ok::<_, Failure>(f@),
                Err(e) => resolve(value@, Self::keys()) == Err::<Seq<Seq<char>>, _>(e@),
            },
    {
        let keys = vec!["Executive", "Ethereum", "RuntimeCall"];
        assert(key_texts(keys@) =~= Self::keys());
        match resolve_keys(value, &keys) {
            Ok(v) => {
                let f = EVMAPIFields {
                    executive: v[0].clone(),
                    ethereum: v[1].clone(),
                    call: v[2].clone(),
                };
                assert(f@ =~= texts(v@));
                Ok(f)
            },
            Err(e) => Err(e),
        }
    }
}

/// The identifiers that the system APIs are built from.
#[derive(Debug, PartialEq, Eq)]
pub struct SystemAPIFields {
    pub executive: String,
    pub system: String,
    pub parachain_system: String,
    pub version: String,
    pub account_id: String,
    pub nonce: String,
    pub genesis: String,
    pub runtime_block_weights: String,
}

impl View for SystemAPIFields {
    type V = Seq<Seq<char>>;

    /// The identifiers in the order of [`SystemAPIFields::keys`].
    open spec fn view(&self) -> Seq<Seq<char>> {
        seq![self.executive@, self.system@, self.parachain_system@, self.version@, self.account_id@, self.nonce@, self.genesis@, self.runtime_block_weights@]
    }
}

impl SystemAPIFields {
    /// The required keys, in the order in which they are resolved.
    pub open spec fn keys() -> Seq<Seq<char>> {
        seq!["Executive"@, "System"@, "ParachainSystem"@, "RuntimeVersion"@, "AccountId"@, "Nonce"@, "RuntimeGenesisConfig"@, "RuntimeBlockWeights"@]
    }

    /// Resolves the required keys against a marker's body.
    pub fn try_from(value: &Vec<Item>) -> (fields: Result<SystemAPIFields, ExpansionError>)
        ensures
            match fields {
                Ok(f) => resolve(value@, Self::keys()) == Ok::<_, Failure>(f@),
                Err(e) => resolve(value@, Self::keys()) == Err::<Seq<Seq<char>>, _>(e@),
            },
    {
        let keys = vec!["Executive", "System", "ParachainSystem", "RuntimeVersion", "AccountId", "Nonce", "RuntimeGenesisConfig", "RuntimeBlockWeights"];
        assert(key_texts(keys@) =~= Self::keys());
        match resolve_keys(value, &keys) {
            Ok(v) => {
                let f = SystemAPIFields {
                    executive: v[0].clone(),
                    system: v[1].clone(),
                    parachain_system: v[2].clone(),
                    version: v[3].clone(),
                    account_id: v[4].clone(),
                    nonce: v[5].clone(),
                    genesis: v[6].clone(),
                    runtime_block_weights: v[7].clone(),
                };
                assert(f@ =~= texts(v@));
                Ok(f)
            },
            Err(e) => Err(e),
        }
    }
}

/// The identifier that the Tanssi APIs are built from.
#[derive(Debug, PartialEq, Eq)]
pub struct TanssiAPIFields {
    pub session_keys: String,
}

impl View for TanssiAPIFields {
    type V = Seq<Seq<char>>;

    /// The identifiers in the order of [`TanssiAPIFields::keys`].
    open spec fn view(&self) -> Seq<Seq<char>> {
        seq![self.session_keys@]
    }
}

impl TanssiAPIFields {
    /// The required keys, in the order in which they are resolved.
    pub open spec fn keys() -> Seq<Seq<char>> {
        seq!["SessionKeys"@]
    }

    /// Resolves the required keys against a marker's body.
    pub fn try_from(value: &Vec<Item>) -> (fields: Result<TanssiAPIFields, ExpansionError>)
        ensures
            match fields {
                Ok(f) => resolve(value@, Self::keys()) == Ok::<_, Failure>(f@),
                Err(e) => resolve(value@, Self::keys()) == Err::<Seq<Seq<char>>, _>(e@),
            },
    {
        let keys = vec!["SessionKeys"];
        assert(key_texts(keys@) =~= Self::keys());
        match resolve_keys(value, &keys) {
            Ok(v) => {
                let f = TanssiAPIFields {
                    session_keys: v[0].clone(),
                };
                assert(f@ =~= texts(v@));
                Ok(f)
            },
            Err(e) => Err(e),
        }
    }
}

/// The identifiers that the XCM part of the benchmarking API is built from.
#[derive(Debug, PartialEq, Eq)]
pub struct XCMBenchmarkAPIFields {
    pub assets: String,
    pub asset_manager: String,
    pub asset_type: String,
    pub runtime_origin: String,
    pub relay_location: String,
    pub existential_deposit: String,
    pub asset_id: String,
    pub xcm_config: String,
    pub account_id: String,
    pub cents: String,
    pub fee_asset_id: String,
    pub transaction_byte_fee: String,
    pub address: String,
    pub balances: String,
}

impl View for XCMBenchmarkAPIFields {
    type V = Seq<Seq<char>>;

    /// The identifiers in the order of [`XCMBenchmarkAPIFields::keys`].
    open spec fn view(&self) -> Seq<Seq<char>> {
        seq![self.assets@, self.asset_manager@, self.asset_type@, self.runtime_origin@, self.relay_location@, self.existential_deposit@, self.asset_id@, self.xcm_config@, self.account_id@, self.cents@, self.fee_asset_id@, self.transaction_byte_fee@, self.address@, self.balances@]
    }
}

impl XCMBenchmarkAPIFields {
    /// The required keys, in the order in which they are resolved.
    pub open spec fn keys() -> Seq<Seq<char>> {
        seq!["Assets"@, "AssetManager"@, "AssetType"@, "RuntimeOrigin"@, "RelayLocation"@, "ExistentialDeposit"@, "AssetId"@, "XCMConfig"@, "AccountId"@, "Cents"@, "FeeAssetId"@, "TransactionByteFee"@, "Address"@, "Balances"@]
    }

    /// Resolves the required keys against a marker's body.
    pub fn try_from(value: &Vec<Item>) -> (fields: Result<XCMBenchmarkAPIFields, ExpansionError>)
        ensures
            match fields {
                Ok(f) => resolve(value@, Self::keys()) == Ok::<_, Failure>(f@),
                Err(e) => resolve(value@, Self::keys()) == Err::<Seq<Seq<char>>, _>(e@),
            },
    {
        let keys = vec!["Assets", "AssetManager", "AssetType", "RuntimeOrigin", "RelayLocation", "ExistentialDeposit", "AssetId", "XCMConfig", "AccountId", "Cents", "FeeAssetId", "TransactionByteFee", "Address", "Balances"];
        assert(key_texts(keys@) =~= Self::keys());
        match resolve_keys(value, &keys) {
            Ok(v) => {
                let f = XCMBenchmarkAPIFields {
                    assets: v[0].clone(),
                    asset_manager: v[1].clone(),
                    asset_type: v[2].clone(),
                    runtime_origin: v[3].clone(),
                    relay_location: v[4].clone(),
                    existential_deposit: v[5].clone(),
                    asset_id: v[6].clone(),
                    xcm_config: v[7].clone(),
                    account_id: v[8].clone(),
                    cents: v[9].clone(),
                    fee_asset_id: v[10].clone(),
                    transaction_byte_fee: v[11].clone(),
                    address: v[12].clone(),
                    balances: v[13].clone(),
                };
                assert(f@ =~= texts(v@));
                Ok(f)
            },
            Err(e) => Err(e),
        }
    }
}

/// The identifiers that the consensus APIs are built from. Which keys are
/// required depends on the backing mode.
#[derive(Debug, PartialEq, Eq)]
pub enum ConsensusAPIFields {
    Classic { session_keys: String, aura: String },
    AsyncBacking { session_keys: String, slot_duration: String, consensus_hook: String },
}

impl View for ConsensusAPIFields {
    type V = Seq<Seq<char>>;

    /// The identifiers in the order of [`ConsensusAPIFields::keys`].
    open spec fn view(&self) -> Seq<Seq<char>> {
        match self {
            ConsensusAPIFields::Classic { session_keys, aura } => seq![session_keys@, aura@],
            ConsensusAPIFields::AsyncBacking { session_keys, slot_duration, consensus_hook } => seq![
                session_keys@,
                slot_duration@,
                consensus_hook@,
            ],
        }
    }
}

impl ConsensusAPIFields {
    /// The required keys of a mode, in the order in which they are resolved.
    pub open spec fn keys(mode: BackingMode) -> Seq<Seq<char>> {
        match mode {
            BackingMode::Classic => seq!["SessionKeys"@, "Aura"@],
            BackingMode::AsyncBacking => seq!["SessionKeys"@, "SlotDuration"@, "ConsensusHook"@],
        }
    }

    /// The mode that this record was resolved for.
    pub open spec fn mode(self) -> BackingMode {
        match self {
            ConsensusAPIFields::Classic { .. } => BackingMode::Classic,
            ConsensusAPIFields::AsyncBacking { .. } => BackingMode::AsyncBacking,
        }
    }

    /// Resolves the keys that `mode` requires against a marker's body.
    pub fn try_from(value: &Vec<Item>, mode: BackingMode) -> (fields: Result<
        ConsensusAPIFields,
        ExpansionError,
    >)
        ensures
            match fields {
                Ok(f) => f.mode() == mode && resolve(value@, Self::keys(mode)) == Ok::<_, Failure>(
                    f@,
                ),
                Err(e) => resolve(value@, Self::keys(mode)) == Err::<Seq<Seq<char>>, _>(e@),
            },
    {
        match mode {
            BackingMode::Classic => {
                let keys = vec!["SessionKeys", "Aura"];
                assert(key_texts(keys@) =~= Self::keys(mode));
                match resolve_keys(value, &keys) {
                    Ok(v) => {
                        let f = ConsensusAPIFields::Classic {
                            session_keys: v[0].clone(),
                            aura: v[1].clone(),
                        };
                        assert(f@ =~= texts(v@));
                        Ok(f)
                    },
                    Err(e) => Err(e),
                }
            },
            BackingMode::AsyncBacking => {
                let keys = vec!["SessionKeys", "SlotDuration", "ConsensusHook"];
                assert(key_texts(keys@) =~= Self::keys(mode));
                match resolve_keys(value, &keys) {
                    Ok(v) => {
                        let f = ConsensusAPIFields::AsyncBacking {
                            session_keys: v[0].clone(),
                            slot_duration: v[1].clone(),
                            consensus_hook: v[2].clone(),
                        };
                        assert(f@ =~= texts(v@));
                        Ok(f)
                    },
                    Err(e) => Err(e),
                }
            },
        }
    }
}

/// The identifiers that the benchmarking API is built from. The XCM part is
/// optional: it is present exactly when all of its keys resolve.
#[derive(Debug, PartialEq, Eq)]
pub struct BenchmarkAPIFields {
    pub all_pallets_with_system: String,
    pub parachain_system: String,
    pub system: String,
    pub xcm_fields: Option<XCMBenchmarkAPIFields>,
}

/// The mathematical content of a [`BenchmarkAPIFields`].
pub struct BenchmarkFields {
    /// The identifiers in the order of [`BenchmarkAPIFields::keys`].
    pub required: Seq<Seq<char>>,
    /// The identifiers of the XCM part, if it is present.
    pub xcm: Option<Seq<Seq<char>>>,
}

impl View for BenchmarkAPIFields {
    type V = BenchmarkFields;

    open spec fn view(&self) -> BenchmarkFields {
        BenchmarkFields {
            required: seq![self.all_pallets_with_system@, self.parachain_system@, self.system@],
            xcm: match self.xcm_fields {
                Some(x) => Some(x@),
                None => None,
            },
        }
    }
}

/// What parsing a benchmarking marker's body yields: the required keys must
/// resolve; a failure in the XCM part only makes that part absent.
pub open spec fn resolve_benchmarks(items: Seq<Item>) -> Result<BenchmarkFields, Failure> {
    match resolve(items, BenchmarkAPIFields::keys()) {
        Ok(required) => Ok(
            BenchmarkFields {
                required,
                xcm: match resolve(items, XCMBenchmarkAPIFields::keys()) {
                    Ok(x) => Some(x),
                    Err(_) => None,
                },
            },
        ),
        Err(e) => Err(e),
    }
}

impl BenchmarkAPIFields {
    /// The required keys, in the order in which they are resolved.
    pub open spec fn keys() -> Seq<Seq<char>> {
        seq!["AllPalletsWithSystem"@, "ParachainSystem"@, "System"@]
    }

    /// Resolves the required keys against a marker's body, and the XCM part
    /// where all of its keys are there.
    pub fn try_from(value: &Vec<Item>) -> (fields: Result<BenchmarkAPIFields, ExpansionError>)
        ensures
            match fields {
                Ok(f) => resolve_benchmarks(value@) == Ok::<_, Failure>(f@),
                Err(e) => resolve_benchmarks(value@) == Err::<BenchmarkFields, _>(e@),
            },
    {
        let keys = vec!["AllPalletsWithSystem", "ParachainSystem", "System"];
        assert(key_texts(keys@) =~= Self::keys());
        match resolve_keys(value, &keys) {
            Ok(v) => {
                let xcm_fields = match XCMBenchmarkAPIFields::try_from(value) {
                    Ok(x) => Some(x),
                    Err(_) => None,
                };
                let f = BenchmarkAPIFields {
                    all_pallets_with_system: v[0].clone(),
                    parachain_system: v[1].clone(),
                    system: v[2].clone(),
                    xcm_fields,
                };
                assert(f@.required =~= texts(v@));
                Ok(f)
            },
            Err(e) => Err(e),
        }
    }
}

} // verus!
