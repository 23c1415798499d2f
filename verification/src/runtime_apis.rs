//! The API composer: from marker modules to the blocks of trait
//! implementations that the runtime exposes.

use crate::apis::{
    assets_apis, benchmarking_block, block_views, consensus_apis, construct_benchmarking_api,
    evm_apis, instance, system_apis, tanssi_apis, AbstractionState, ApiBlock, Block, Skeleton,
    State,
};
use crate::errors::{ExpansionError, Failure};
use crate::extract::{extract, lookup};
use crate::fields::{
    resolve, resolve_benchmarks, AssetAPIFields, BenchmarkAPIFields, ConsensusAPIFields,
    EVMAPIFields, SystemAPIFields, TanssiAPIFields,
};
use crate::items::{abstraction_word, has_attribute, has_word, Item};
use crate::models::{APIAbstractions, BackingMode};
use vstd::prelude::*;

verus! {

/// What looking up a top-level alias yields: as a lookup, except that a
/// missing alias is reported as a missing top-level alias.
pub open spec fn top_level(items: Seq<Item>, key: Seq<char>) -> Result<Seq<char>, Failure> {
    match lookup(items, key) {
        Ok(ident) => Ok(ident),
        Err(Failure::MissingRequiredKey(k)) => Err(Failure::MissingTopLevelAlias(k)),
        Err(e) => Err(e),
    }
}

/// Whether `item` is a marker module: a module that carries the abstraction
/// attribute.
pub open spec fn is_marker(item: Item) -> bool {
    match item {
        Item::Module { attrs, .. } => has_word(attrs@, abstraction_word()),
        _ => false,
    }
}

/// The name of a module.
pub open spec fn module_name(item: Item) -> Seq<char> {
    match item {
        Item::Module { name, .. } => name@,
        _ => Seq::empty(),
    }
}

/// The body of a module.
pub open spec fn module_body(item: Item) -> Seq<Item> {
    match item {
        Item::Module { body, .. } => body@,
        _ => Seq::empty(),
    }
}

/// The state and the blocks gathered from a prefix of the markers.
pub struct Expansion {
    pub state: State,
    pub blocks: Seq<Block>,
}

/// A skeleton and the keys whose identifiers fill its slots.
pub struct Synthesis {
    pub skeleton: Skeleton,
    pub keys: Seq<Seq<char>>,
}

/// The skeleton that a marker of the given kind instantiates and the keys
/// that its body must supply. A benchmarking marker instantiates nothing by
/// itself.
pub open spec fn synthesis_of(kind: APIAbstractions, mode: BackingMode) -> Option<Synthesis> {
    match kind {
        APIAbstractions::Evm => Some(
            Synthesis { skeleton: Skeleton::Evm, keys: EVMAPIFields::keys() },
        ),
        APIAbstractions::Assets => Some(
            Synthesis { skeleton: Skeleton::Assets, keys: AssetAPIFields::keys() },
        ),
        APIAbstractions::Consensus => Some(
            Synthesis { skeleton: Skeleton::Consensus(mode), keys: ConsensusAPIFields::keys(mode) },
        ),
        APIAbstractions::System => Some(
            Synthesis { skeleton: Skeleton::System, keys: SystemAPIFields::keys() },
        ),
        APIAbstractions::Tanssi => Some(
            Synthesis { skeleton: Skeleton::Tanssi, keys: TanssiAPIFields::keys() },
        ),
        APIAbstractions::Benchmarks => None,
    }
}

/// The state after a marker of the given kind was met, whether or not its
/// body parses: a consensus marker requests consensus benchmarking.
pub open spec fn noted(kind: Option<APIAbstractions>, before: State) -> State {
    State {
        benchmarks: before.benchmarks,
        consensus: before.consensus || kind == Some(APIAbstractions::Consensus),
    }
}

/// What one marker module does: a benchmarking marker stores its record in
/// the state, replacing an earlier one, and yields no block; every other
/// marker yields the block of its abstraction, instantiated with the
/// identifiers that its body supplies. A name that stands for no abstraction
/// and a body that does not parse are failures.
pub open spec fn marker_step(
    name: Seq<char>,
    body: Seq<Item>,
    runtime: Seq<char>,
    block: Seq<char>,
    mode: BackingMode,
    before: State,
) -> Result<Expansion, Failure> {
    match APIAbstractions::named(name) {
        None => Err(Failure::UnrecognizedAbstractionName(name)),
        Some(kind) => match synthesis_of(kind, mode) {
            None => match resolve_benchmarks(body) {
                Ok(fields) => Ok(
                    Expansion {
                        state: State { benchmarks: Some(fields), consensus: before.consensus },
                        blocks: Seq::empty(),
                    },
                ),
                Err(e) => Err(e),
            },
            Some(synthesis) => match resolve(body, synthesis.keys) {
                Ok(idents) => Ok(
                    Expansion {
                        state: noted(Some(kind), before),
                        blocks: seq![instance(synthesis.skeleton, runtime, block, idents)],
                    },
                ),
                Err(e) => Err(e),
            },
        },
    }
}

/// What the first `upto` items yield, taken in source order: the marker
/// modules among them are expanded one after the other, each from the state
/// that the one before left; the first failure ends the expansion.
pub open spec fn expand(
    items: Seq<Item>,
    runtime: Seq<char>,
    block: Seq<char>,
    mode: BackingMode,
    upto: int,
) -> Result<Expansion, Failure>
    decreases upto,
{
    if upto <= 0 {
        Ok(Expansion { state: State { benchmarks: None, consensus: false }, blocks: Seq::empty() })
    } else {
        match expand(items, runtime, block, mode, upto - 1) {
            Err(e) => Err(e),
            Ok(so_far) => if is_marker(items[upto - 1]) {
                match marker_step(
                    module_name(items[upto - 1]),
                    module_body(items[upto - 1]),
                    runtime,
                    block,
                    mode,
                    so_far.state,
                ) {
                    Ok(step) => Ok(
                        Expansion { state: step.state, blocks: so_far.blocks + step.blocks },
                    ),
                    Err(e) => Err(e),
                }
            } else {
                Ok(so_far)
            },
        }
    }
}

/// The verbatim blocks of the trait implementations among the first `upto`
/// items, in source order.
pub open spec fn passthrough(items: Seq<Item>, upto: int) -> Seq<Block>
    decreases upto,
{
    if upto <= 0 {
        Seq::empty()
    } else {
        match items[upto - 1] {
            Item::Impl { text } => passthrough(items, upto - 1).push(
                Block { skeleton: Skeleton::Verbatim, idents: seq![text@] },
            ),
            _ => passthrough(items, upto - 1),
        }
    }
}

/// The final synthesis step: the benchmarking block, if a benchmarking
/// record was stored; nothing otherwise.
pub open spec fn benchmarking(state: State, runtime: Seq<char>) -> Seq<Block> {
    match state.benchmarks {
        Some(fields) => seq![benchmarking_block(state.consensus, runtime, fields)],
        None => Seq::empty(),
    }
}

/// What composing the APIs of `items` yields: the implementations passed
/// through, then the blocks of the markers in source order, then the
/// benchmarking block if there is one; or the first failure, where a missing
/// `Runtime` comes before a missing `Block`, and both before the markers.
pub open spec fn api_declarations(items: Seq<Item>, mode: BackingMode) -> Result<
    Seq<Block>,
    Failure,
> {
    match top_level(items, "Runtime"@) {
        Err(e) => Err(e),
        Ok(runtime) => match top_level(items, "Block"@) {
            Err(e) => Err(e),
            Ok(block) => match expand(items, runtime, block, mode, items.len() as int) {
                Err(e) => Err(e),
                Ok(all) => Ok(
                    passthrough(items, items.len() as int) + all.blocks + benchmarking(
                        all.state,
                        runtime,
                    ),
                ),
            },
        },
    }
}

/// The view of the API composer's outcome.
pub open spec fn api_output(r: Result<Vec<ApiBlock>, ExpansionError>) -> Result<Seq<Block>, Failure> {
    match r {
        Ok(blocks) => Ok(block_views(blocks@)),
        Err(e) => Err(e@),
    }
}

/// The blocks of an optional block.
pub open spec fn block_of(made: Option<ApiBlock>) -> Seq<Block> {
    match made {
        Some(b) => seq![b@],
        None => Seq::empty(),
    }
}

/// Once a prefix of the items has failed, every longer prefix fails in the
/// same way.
pub proof fn lemma_expand_failure(
    items: Seq<Item>,
    runtime: Seq<char>,
    block: Seq<char>,
    mode: BackingMode,
    failed: int,
    upto: int,
)
    requires
        failed <= upto,
        expand(items, runtime, block, mode, failed) is Err,
    ensures
        expand(items, runtime, block, mode, upto) == expand(items, runtime, block, mode, failed),
    decreases upto - failed,
{
    if failed < upto {
        lemma_expand_failure(items, runtime, block, mode, failed, upto - 1);
    }
}

/// Looks up a top-level alias.
pub fn top_level_alias(items: &Vec<Item>, key: &str) -> (found: Result<String, ExpansionError>)
    ensures
        crate::extract::outcome(found) == top_level(items@, key@),
{
    match extract(items, key) {
        Ok(ident) => Ok(ident),
        Err(ExpansionError::MissingRequiredKey(k)) => Err(ExpansionError::MissingTopLevelAlias(k)),
        Err(e) => Err(e),
    }
}

/// Expands one marker module: resolves its name, parses its body with the
/// field set of the abstraction and instantiates the abstraction's skeleton.
/// A benchmarking marker only stores its record in `state`; a consensus
/// marker also requests consensus benchmarking.
pub fn construct_abstraction(
    name: &String,
    body: &Vec<Item>,
    state: &mut AbstractionState,
    runtime: &str,
    block: &str,
    mode: BackingMode,
) -> (made: Result<Option<ApiBlock>, ExpansionError>)
    ensures
        match made {
            Ok(b) => marker_step(name@, body@, runtime@, block@, mode, old(state)@) == Ok::<
                _,
                Failure,
            >(Expansion { state: final(state)@, blocks: block_of(b) }),
            Err(e) => {
                &&& marker_step(name@, body@, runtime@, block@, mode, old(state)@) == Err::<
                    Expansion,
                    _,
                >(e@)
                &&& final(state)@ == noted(APIAbstractions::named(name@), old(state)@)
            },
        },
{
    let kind = match APIAbstractions::try_from(name.as_str()) {
        Ok(kind) => kind,
        Err(_) => {
            return Err(ExpansionError::UnrecognizedAbstractionName(name.clone()));
        },
    };
    match kind {
        APIAbstractions::Evm => match EVMAPIFields::try_from(body) {
            Ok(f) => Ok(
                Some(
                    evm_apis(
                        runtime,
                        block,
                        f.call.as_str(),
                        f.executive.as_str(),
                        f.ethereum.as_str(),
                    ),
                ),
            ),
            Err(e) => Err(e),
        },
        APIAbstractions::Assets => match AssetAPIFields::try_from(body) {
            Ok(f) => Ok(
                Some(
                    assets_apis(
                        runtime,
                        block,
                        f.transaction_payment.as_str(),
                        f.balance.as_str(),
                        f.call.as_str(),
                    ),
                ),
            ),
            Err(e) => Err(e),
        },
        APIAbstractions::Consensus => {
            state.consensus = true;
            match ConsensusAPIFields::try_from(body, mode) {
                Ok(f) => Ok(Some(consensus_apis(runtime, block, f))),
                Err(e) => Err(e),
            }
        },
        APIAbstractions::System => match SystemAPIFields::try_from(body) {
            Ok(f) => Ok(
                Some(
                    system_apis(
                        runtime,
                        block,
                        f.executive.as_str(),
                        f.system.as_str(),
                        f.parachain_system.as_str(),
                        f.version.as_str(),
                        f.account_id.as_str(),
                        f.nonce.as_str(),
                        f.genesis.as_str(),
                        f.runtime_block_weights.as_str(),
                    ),
                ),
            ),
            Err(e) => Err(e),
        },
        APIAbstractions::Benchmarks => match BenchmarkAPIFields::try_from(body) {
            Ok(f) => {
                state.benchmark_fields = Some(f);
                Ok(None)
            },
            Err(e) => Err(e),
        },
        APIAbstractions::Tanssi => match TanssiAPIFields::try_from(body) {
            Ok(f) => Ok(Some(tanssi_apis(runtime, block, f.session_keys.as_str()))),
            Err(e) => Err(e),
        },
    }
}

/// Composes the runtime APIs: requires the `Runtime` and `Block` aliases,
/// passes the trait implementations through, expands the marker modules in
/// source order and, if a benchmarking marker was among them, ends with the
/// benchmarking block. The first failure aborts the composition, and nothing
/// is produced.
pub fn impl_openzeppelin_runtime_apis(items: &Vec<Item>, mode: BackingMode) -> (out: Result<
    Vec<ApiBlock>,
    ExpansionError,
>)
    ensures
        api_output(out) == api_declarations(items@, mode),
{
    let runtime = match top_level_alias(items, "Runtime") {
        Ok(runtime) => runtime,
        Err(e) => {
            return Err(e);
        },
    };
    let block = match top_level_alias(items, "Block") {
        Ok(block) => block,
        Err(e) => {
            return Err(e);
        },
    };
    let mut blocks: Vec<ApiBlock> = Vec::new();
    let mut i: usize = 0;
    while i < items.len()
        invariant
            i <= items.len(),
            block_views(blocks@) == passthrough(items@, i as int),
        decreases items.len() - i,
    {
        match &items[i] {
            Item::Impl { text } => {
                blocks.push(ApiBlock::Verbatim { text: text.clone() });
                assert(block_views(blocks@) =~= passthrough(items@, i + 1));
            },
            _ => {},
        }
        i += 1;
    }
    let ghost passed = passthrough(items@, items@.len() as int);
    let mut state = AbstractionState::default();
    let ghost mut made: Seq<Block> = Seq::empty();
    assert(block_views(blocks@) =~= passed + made);
    i = 0;
    while i < items.len()
        invariant
            i <= items.len(),
            expand(items@, runtime@, block@, mode, i as int) == Ok::<_, Failure>(
                Expansion { state: state@, blocks: made },
            ),
            block_views(blocks@) == passed + made,
            top_level(items@, "Runtime"@) == Ok::<_, Failure>(runtime@),
            top_level(items@, "Block"@) == Ok::<_, Failure>(block@),
        decreases items.len() - i,
    {
        match &items[i] {
            Item::Module { attrs, name, body } => {
                if has_attribute(attrs, "abstraction") {
                    let ghost entered = Expansion { state: state@, blocks: made };
                    match construct_abstraction(
                        name,
                        body,
                        &mut state,
                        runtime.as_str(),
                        block.as_str(),
                        mode,
                    ) {
                        Ok(Some(b)) => {
                            let ghost added = b@;
                            let ghost before = blocks@;
                            blocks.push(b);
                            proof {
                                assert(block_views(blocks@) =~= block_views(before).push(added));
                                made = made + seq![added];
                                assert(block_views(blocks@) =~= passed + made);
                            }
                        },
                        Ok(None) => {
                            proof {
                                made = made + Seq::empty();
                            }
                        },
                        Err(e) => {
                            proof {
                                assert(is_marker(items@[i as int]));
                                assert(expand(items@, runtime@, block@, mode, i as int) == Ok::<
                                    _,
                                    Failure,
                                >(entered));
                                assert(marker_step(
                                    module_name(items@[i as int]),
                                    module_body(items@[i as int]),
                                    runtime@,
                                    block@,
                                    mode,
                                    entered.state,
                                ) == Err::<Expansion, _>(e@));
                                assert(expand(items@, runtime@, block@, mode, i + 1) == Err::<
                                    Expansion,
                                    _,
                                >(e@));
                                lemma_expand_failure(
                                    items@,
                                    runtime@,
                                    block@,
                                    mode,
                                    i + 1,
                                    items@.len() as int,
                                );
                            }
                            return Err(e);
                        },
                    }
                }
            },
            _ => {},
        }
        i += 1;
    }
    match state.benchmark_fields {
        Some(fields) => {
            let b = construct_benchmarking_api(state.consensus, runtime.as_str(), fields);
            blocks.push(b);
            assert(block_views(blocks@) =~= passed + made + benchmarking(state@, runtime@));
        },
        None => {
            assert(block_views(blocks@) =~= passed + made + benchmarking(state@, runtime@));
        },
    }
    Ok(blocks)
}

/// Whether one of the first `upto` items is a consensus marker.
pub open spec fn has_consensus_marker(items: Seq<Item>, upto: int) -> bool {
    exists|i: int|
        0 <= i < upto && is_marker(#[trigger] items[i]) && APIAbstractions::named(
            module_name(items[i]),
        ) == Some(APIAbstractions::Consensus)
}

/// Consensus benchmarking is requested exactly when a consensus marker is
/// among the items, wherever it stands: before or after a benchmarking
/// marker makes no difference.
pub proof fn law_consensus_requested(
    items: Seq<Item>,
    runtime: Seq<char>,
    block: Seq<char>,
    mode: BackingMode,
    upto: int,
)
    requires
        0 <= upto <= items.len(),
        expand(items, runtime, block, mode, upto) is Ok,
    ensures
        expand(items, runtime, block, mode, upto)->Ok_0.state.consensus == has_consensus_marker(
            items,
            upto,
        ),
    decreases upto,
{
    if upto > 0 {
        law_consensus_requested(items, runtime, block, mode, upto - 1);
        let last = items[upto - 1];
        let here = is_marker(last) && APIAbstractions::named(module_name(last)) == Some(
            APIAbstractions::Consensus,
        );
        assert(has_consensus_marker(items, upto) == (has_consensus_marker(items, upto - 1)
            || here)) by {
            if has_consensus_marker(items, upto) {
                let i = choose|i: int|
                    0 <= i < upto && is_marker(#[trigger] items[i]) && APIAbstractions::named(
                        module_name(items[i]),
                    ) == Some(APIAbstractions::Consensus);
                if i < upto - 1 {
                    assert(is_marker(items[i]));
                }
            }
            if has_consensus_marker(items, upto - 1) {
                let i = choose|i: int|
                    0 <= i < upto - 1 && is_marker(#[trigger] items[i]) && APIAbstractions::named(
                        module_name(items[i]),
                    ) == Some(APIAbstractions::Consensus);
                assert(is_marker(items[i]));
            }
            if here {
                assert(is_marker(items[upto - 1]));
            }
        }
    }
}

/// The benchmarking block is the last block of the output exactly when a
/// benchmarking record was stored, and it then carries the consensus part
/// exactly when a consensus marker is among the items.
pub proof fn law_benchmarking_block(items: Seq<Item>, mode: BackingMode)
    requires
        api_declarations(items, mode) is Ok,
    ensures
        ({
            let runtime = top_level(items, "Runtime"@)->Ok_0;
            let block = top_level(items, "Block"@)->Ok_0;
            let all = expand(items, runtime, block, mode, items.len() as int)->Ok_0;
            let blocks = api_declarations(items, mode)->Ok_0;
            match all.state.benchmarks {
                Some(fields) => blocks.len() > 0 && blocks.last() == benchmarking_block(
                    has_consensus_marker(items, items.len() as int),
                    runtime,
                    fields,
                ),
                None => blocks == passthrough(items, items.len() as int) + all.blocks,
            }
        }),
{
    let runtime = top_level(items, "Runtime"@)->Ok_0;
    let block = top_level(items, "Block"@)->Ok_0;
    law_consensus_requested(items, runtime, block, mode, items.len() as int);
    let all = expand(items, runtime, block, mode, items.len() as int)->Ok_0;
    if all.state.benchmarks is None {
        assert(passthrough(items, items.len() as int) + all.blocks + Seq::<Block>::empty()
            =~= passthrough(items, items.len() as int) + all.blocks);
    }
}

/// Composing the APIs is a function of the module body and the backing mode:
/// two runs on the same input yield the same blocks, in the same order, or
/// the same failure.
pub proof fn law_apis_deterministic(
    items: Seq<Item>,
    mode: BackingMode,
    first: Result<Vec<ApiBlock>, ExpansionError>,
    second: Result<Vec<ApiBlock>, ExpansionError>,
)
    requires
        api_output(first) == api_declarations(items, mode),
        api_output(second) == api_declarations(items, mode),
    ensures
        api_output(first) == api_output(second),
        first is Ok ==> second is Ok && block_views(first->Ok_0@) == block_views(second->Ok_0@),
        first is Err ==> second is Err && first->Err_0@ == second->Err_0@,
{
}

} // verus!
