//! The API blocks: which skeleton of trait implementations is instantiated,
//! and with which identifiers.

use crate::fields::{
    AssetAPIFields, BenchmarkAPIFields, BenchmarkFields, ConsensusAPIFields, EVMAPIFields,
    SystemAPIFields, TanssiAPIFields,
};
use crate::models::BackingMode;
use vstd::prelude::*;
use vstd::string::StringExecFns;

verus! {

/// The fixed skeletons of trait implementations.
#[derive(Debug, Clone, Copy, PartialEq, Eq, Structural)]
pub enum Skeleton {
    /// No skeleton: an implementation that the user wrote, passed through as
    /// it is.
    Verbatim,
    /// Ethereum RPC and transaction conversion.
    Evm,
    /// Transaction payment queries, for extrinsics and for calls.
    Assets,
    /// Aura and session keys. With asynchronous backing the slot duration is
    /// a supplied constant and the unincluded-segment API is added; otherwise
    /// the slot duration is read from the Aura pallet.
    Consensus(BackingMode),
    /// Core, metadata, block builder, transaction queue, offchain worker,
    /// account nonce, collation info, try-runtime and genesis builder.
    System,
    /// Session keys.
    Tanssi,
    /// Benchmark metadata and dispatch. The base skeleton is always there;
    /// the consensus part and the XCM part are there when requested.
    Benchmarking { consensus: bool, xcm: bool },
}

/// The mathematical content of an [`ApiBlock`]: a skeleton and the
/// identifiers that are substituted into it, in the order of its slots.
pub struct Block {
    pub skeleton: Skeleton,
    pub idents: Seq<Seq<char>>,
}

/// One block of generated API code.
#[derive(Debug, PartialEq, Eq)]
#[allow(inconsistent_fields)]
pub enum ApiBlock {
    Verbatim { text: String },
    Evm { runtime: String, block: String, fields: EVMAPIFields },
    Assets { runtime: String, block: String, fields: AssetAPIFields },
    Consensus { runtime: String, block: String, fields: ConsensusAPIFields },
    System { runtime: String, block: String, fields: SystemAPIFields },
    Tanssi { runtime: String, block: String, fields: TanssiAPIFields },
    Benchmarking { runtime: String, fields: BenchmarkAPIFields, consensus: bool },
}

/// The block that instantiates `skeleton` for a runtime and a block type with
/// the identifiers of a field set.
pub open spec fn instance(
    skeleton: Skeleton,
    runtime: Seq<char>,
    block: Seq<char>,
    fields: Seq<Seq<char>>,
) -> Block {
    Block { skeleton, idents: seq![runtime, block] + fields }
}

/// The identifiers of an optional part.
pub open spec fn optional(part: Option<Seq<Seq<char>>>) -> Seq<Seq<char>> {
    match part {
        Some(idents) => idents,
        None => Seq::empty(),
    }
}

/// The benchmarking block: the XCM part is there exactly when the record
/// holds the XCM identifiers, the consensus part exactly when it was
/// requested.
pub open spec fn benchmarking_block(
    consensus: bool,
    runtime: Seq<char>,
    fields: BenchmarkFields,
) -> Block {
    Block {
        skeleton: Skeleton::Benchmarking { consensus, xcm: fields.xcm is Some },
        idents: seq![runtime] + fields.required + optional(fields.xcm),
    }
}

impl View for ApiBlock {
    type V = Block;

    open spec fn view(&self) -> Block {
        match self {
            ApiBlock::Verbatim { text } => Block { skeleton: Skeleton::Verbatim, idents: seq![text@] },
            ApiBlock::Evm { runtime, block, fields } => instance(
                Skeleton::Evm,
                runtime@,
                block@,
                fields@,
            ),
            ApiBlock::Assets { runtime, block, fields } => instance(
                Skeleton::Assets,
                runtime@,
                block@,
                fields@,
            ),
            ApiBlock::Consensus { runtime, block, fields } => instance(
                Skeleton::Consensus(fields.mode()),
                runtime@,
                block@,
                fields@,
            ),
            ApiBlock::System { runtime, block, fields } => instance(
                Skeleton::System,
                runtime@,
                block@,
                fields@,
            ),
            ApiBlock::Tanssi { runtime, block, fields } => instance(
                Skeleton::Tanssi,
                runtime@,
                block@,
                fields@,
            ),
            ApiBlock::Benchmarking { runtime, fields, consensus } => benchmarking_block(
                *consensus,
                runtime@,
                fields@,
            ),
        }
    }
}

/// The views of a list of blocks, in order.
pub open spec fn block_views(blocks: Seq<ApiBlock>) -> Seq<Block> {
    Seq::new(blocks.len(), |i: int| blocks[i]@)
}

/// What the API composer has gathered so far.
#[derive(Debug, PartialEq, Eq)]
pub struct AbstractionState {
    /// The record of the last benchmarking marker, if there was one.
    pub benchmark_fields: Option<BenchmarkAPIFields>,
    /// Whether a consensus marker was seen.
    pub consensus: bool,
}

/// The mathematical content of an [`AbstractionState`].
pub struct State {
    pub benchmarks: Option<BenchmarkFields>,
    pub consensus: bool,
}

impl View for AbstractionState {
    type V = State;

    open spec fn view(&self) -> State {
        State {
            benchmarks: match self.benchmark_fields {
                Some(fields) => Some(fields@),
                None => None,
            },
            consensus: self.consensus,
        }
    }
}

impl Default for AbstractionState {
    /// The state before any marker: no benchmarking record, no consensus.
    fn default() -> (state: AbstractionState)
        ensures
            state@ == (State { benchmarks: None, consensus: false }),
    {
        AbstractionState { benchmark_fields: None, consensus: false }
    }
}

/// The assets APIs for the given identifiers.
pub fn assets_apis(
    runtime: &str,
    block: &str,
    transaction_payment: &str,
    balance: &str,
    call: &str,
) -> (made: ApiBlock)
    ensures
        made@ == instance(
            Skeleton::Assets,
            runtime@,
            block@,
            seq![transaction_payment@, balance@, call@],
        ),
{
    ApiBlock::Assets {
        runtime: String::from_str(runtime),
        block: String::from_str(block),
        fields: AssetAPIFields {
            transaction_payment: String::from_str(transaction_payment),
            balance: String::from_str(balance),
            call: String::from_str(call),
        },
    }
}

/// The EVM APIs for the given identifiers.
pub fn evm_apis(
    runtime: &str,
    block: &str,
    runtime_call: &str,
    executive: &str,
    ethereum: &str,
) -> (made: ApiBlock)
    ensures
        made@ == instance(
            Skeleton::Evm,
            runtime@,
            block@,
            seq![executive@, ethereum@, runtime_call@],
        ),
{
    ApiBlock::Evm {
        runtime: String::from_str(runtime),
        block: String::from_str(block),
        fields: EVMAPIFields {
            executive: String::from_str(executive),
            ethereum: String::from_str(ethereum),
            call: String::from_str(runtime_call),
        },
    }
}

/// The consensus APIs for the given record, in the skeleton of the mode that
/// the record was resolved for.
pub fn consensus_apis(runtime: &str, block: &str, fields: ConsensusAPIFields) -> (made: ApiBlock)
    ensures
        made@ == instance(Skeleton::Consensus(fields.mode()), runtime@, block@, fields@),
{
    ApiBlock::Consensus {
        runtime: String::from_str(runtime),
        block: String::from_str(block),
        fields,
    }
}

/// The system APIs for the given identifiers.
pub fn system_apis(
    runtime: &str,
    block: &str,
    executive: &str,
    system: &str,
    parachain_system: &str,
    version: &str,
    account_id: &str,
    nonce: &str,
    genesis: &str,
    runtime_block_weights: &str,
) -> (made: ApiBlock)
    ensures
        made@ == instance(
            Skeleton::System,
            runtime@,
            block@,
            seq![
                executive@,
                system@,
                parachain_system@,
                version@,
                account_id@,
                nonce@,
                genesis@,
                runtime_block_weights@,
            ],
        ),
{
    ApiBlock::System {
        runtime: String::from_str(runtime),
        block: String::from_str(block),
        fields: SystemAPIFields {
            executive: String::from_str(executive),
            system: String::from_str(system),
            parachain_system: String::from_str(parachain_system),
            version: String::from_str(version),
            account_id: String::from_str(account_id),
            nonce: String::from_str(nonce),
            genesis: String::from_str(genesis),
            runtime_block_weights: String::from_str(runtime_block_weights),
        },
    }
}

/// The Tanssi APIs for the given identifiers.
pub fn tanssi_apis(runtime: &str, block: &str, session_keys: &str) -> (made: ApiBlock)
    ensures
        made@ == instance(Skeleton::Tanssi, runtime@, block@, seq![session_keys@]),
{
    ApiBlock::Tanssi {
        runtime: String::from_str(runtime),
        block: String::from_str(block),
        fields: TanssiAPIFields { session_keys: String::from_str(session_keys) },
    }
}

/// The benchmarking API for the given record. The XCM part is appended
/// exactly when the record holds the XCM identifiers, the consensus part
/// exactly when `consensus_benchmarking` is set.
pub fn construct_benchmarking_api(
    consensus_benchmarking: bool,
    runtime: &str,
    api_fields: BenchmarkAPIFields,
) -> (made: ApiBlock)
    ensures
        made@ == benchmarking_block(consensus_benchmarking, runtime@, api_fields@),
        made@.skeleton == (Skeleton::Benchmarking {
            consensus: consensus_benchmarking,
            xcm: api_fields.xcm_fields is Some,
        }),
{
    ApiBlock::Benchmarking {
        runtime: String::from_str(runtime),
        fields: api_fields,
        consensus: consensus_benchmarking,
    }
}

} // verus!
