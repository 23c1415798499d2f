use runtime_wrappers::apis::{
    assets_apis, consensus_apis, construct_benchmarking_api, evm_apis, system_apis, tanssi_apis,
    AbstractionState, ApiBlock,
};
use runtime_wrappers::errors::ExpansionError;
use runtime_wrappers::fields::{BenchmarkAPIFields, ConsensusAPIFields};
use runtime_wrappers::items::{Attribute, Item, TargetType};
use runtime_wrappers::models::BackingMode;
use runtime_wrappers::runtime_apis::{
    construct_abstraction, impl_openzeppelin_runtime_apis, top_level_alias,
};

fn ty(name: &str, target: &str) -> Item {
    Item::TypeAlias {
        attrs: vec![],
        name: name.to_string(),
        target: TargetType::Bare(target.to_string()),
    }
}

fn types(pairs: &[(&str, &str)]) -> Vec<Item> {
    pairs.iter().map(|(k, v)| ty(k, v)).collect()
}

fn module(name: &str, body: Vec<Item>) -> Item {
    Item::Module {
        attrs: vec![Attribute::Word("abstraction".to_string())],
        name: name.to_string(),
        body,
    }
}

fn root(mut rest: Vec<Item>) -> Vec<Item> {
    let mut items = vec![ty("Runtime", "MyRuntime"), ty("Block", "MyBlock")];
    items.append(&mut rest);
    items
}

fn bench_body() -> Vec<Item> {
    types(&[("AllPalletsWithSystem", "All"), ("ParachainSystem", "ParaSys"), ("System", "Sys")])
}

fn xcm_body() -> Vec<Item> {
    types(&[
        ("Assets", "A1"),
        ("AssetManager", "A2"),
        ("AssetType", "A3"),
        ("RuntimeOrigin", "A4"),
        ("RelayLocation", "A5"),
        ("ExistentialDeposit", "A6"),
        ("AssetId", "A7"),
        ("XCMConfig", "A8"),
        ("AccountId", "A9"),
        ("Cents", "A10"),
        ("FeeAssetId", "A11"),
        ("TransactionByteFee", "A12"),
        ("Address", "A13"),
        ("Balances", "A14"),
    ])
}

fn consensus_body() -> Vec<Item> {
    types(&[("SessionKeys", "Keys"), ("Aura", "AuraPallet")])
}

fn consensus_block() -> ApiBlock {
    consensus_apis(
        "MyRuntime",
        "MyBlock",
        ConsensusAPIFields::Classic { session_keys: "Keys".to_string(), aura: "AuraPallet".to_string() },
    )
}

fn bench_block(consensus: bool, body: &Vec<Item>) -> ApiBlock {
    construct_benchmarking_api(consensus, "MyRuntime", BenchmarkAPIFields::try_from(body).unwrap())
}

#[test]
fn scenario_no_markers() {
    assert_eq!(impl_openzeppelin_runtime_apis(&root(vec![]), BackingMode::Classic), Ok(vec![]));
}

#[test]
fn scenario_no_markers_with_passthrough() {
    let items = root(vec![
        Item::Impl { text: "impl A for MyRuntime {}".to_string() },
        Item::Other,
        Item::Impl { text: "impl B for MyRuntime {}".to_string() },
    ]);
    assert_eq!(
        impl_openzeppelin_runtime_apis(&items, BackingMode::Classic),
        Ok(vec![
            ApiBlock::Verbatim { text: "impl A for MyRuntime {}".to_string() },
            ApiBlock::Verbatim { text: "impl B for MyRuntime {}".to_string() },
        ])
    );
}

#[test]
fn scenario_benchmarks_without_xcm() {
    let items = root(vec![module("Benchmarks", bench_body())]);
    let out = impl_openzeppelin_runtime_apis(&items, BackingMode::Classic).unwrap();
    assert_eq!(out.len(), 1);
    match &out[0] {
        ApiBlock::Benchmarking { runtime, fields, consensus } => {
            assert_eq!(runtime, "MyRuntime");
            assert_eq!(fields.all_pallets_with_system, "All");
            assert_eq!(fields.parachain_system, "ParaSys");
            assert_eq!(fields.system, "Sys");
            assert_eq!(fields.xcm_fields, None);
            assert!(!*consensus);
        }
        other => panic!("unexpected block {:?}", other),
    }
}

#[test]
fn benchmarks_with_xcm() {
    let mut body = bench_body();
    body.append(&mut xcm_body());
    let items = root(vec![module("Benchmarks", body)]);
    let out = impl_openzeppelin_runtime_apis(&items, BackingMode::Classic).unwrap();
    assert_eq!(out.len(), 1);
    match &out[0] {
        ApiBlock::Benchmarking { fields, consensus, .. } => {
            let xcm = fields.xcm_fields.as_ref().unwrap();
            assert_eq!(xcm.assets, "A1");
            assert_eq!(xcm.balances, "A14");
            assert!(!*consensus);
        }
        other => panic!("unexpected block {:?}", other),
    }
}

#[test]
fn scenario_consensus_then_benchmarks() {
    let items =
        root(vec![module("Consensus", consensus_body()), module("Benchmarks", bench_body())]);
    assert_eq!(
        impl_openzeppelin_runtime_apis(&items, BackingMode::Classic),
        Ok(vec![consensus_block(), bench_block(true, &bench_body())])
    );
}

#[test]
fn scenario_benchmarks_then_consensus() {
    let forward =
        root(vec![module("Consensus", consensus_body()), module("Benchmarks", bench_body())]);
    let reversed =
        root(vec![module("Benchmarks", bench_body()), module("Consensus", consensus_body())]);
    let forward = impl_openzeppelin_runtime_apis(&forward, BackingMode::Classic).unwrap();
    let reversed = impl_openzeppelin_runtime_apis(&reversed, BackingMode::Classic).unwrap();
    assert_eq!(reversed, vec![consensus_block(), bench_block(true, &bench_body())]);
    assert_eq!(forward.last(), reversed.last());
    assert_eq!(forward, reversed);
}

#[test]
fn benchmarks_without_consensus_marker() {
    let items = root(vec![
        module("Tanssi", types(&[("SessionKeys", "Keys")])),
        module("Benchmarks", bench_body()),
    ]);
    assert_eq!(
        impl_openzeppelin_runtime_apis(&items, BackingMode::Classic),
        Ok(vec![tanssi_apis("MyRuntime", "MyBlock", "Keys"), bench_block(false, &bench_body())])
    );
}

#[test]
fn last_benchmarks_marker_wins() {
    let second = types(&[("AllPalletsWithSystem", "All2"), ("ParachainSystem", "ParaSys2"), ("System", "Sys2")]);
    let items = root(vec![
        module("Benchmarks", bench_body()),
        module(
            "Benchmarks",
            types(&[("AllPalletsWithSystem", "All2"), ("ParachainSystem", "ParaSys2"), ("System", "Sys2")]),
        ),
    ]);
    assert_eq!(
        impl_openzeppelin_runtime_apis(&items, BackingMode::Classic),
        Ok(vec![bench_block(false, &second)])
    );
}

#[test]
fn missing_runtime_alias() {
    let items = vec![ty("Block", "MyBlock")];
    assert_eq!(
        impl_openzeppelin_runtime_apis(&items, BackingMode::Classic),
        Err(ExpansionError::MissingTopLevelAlias("Runtime".to_string()))
    );
    assert_eq!(
        impl_openzeppelin_runtime_apis(&Vec::new(), BackingMode::Classic),
        Err(ExpansionError::MissingTopLevelAlias("Runtime".to_string()))
    );
}

#[test]
fn missing_block_alias() {
    let items = vec![ty("Runtime", "MyRuntime")];
    assert_eq!(
        impl_openzeppelin_runtime_apis(&items, BackingMode::Classic),
        Err(ExpansionError::MissingTopLevelAlias("Block".to_string()))
    );
}

#[test]
fn aliases_inside_modules_are_not_top_level() {
    let items = vec![
        ty("Runtime", "MyRuntime"),
        module("System", types(&[("Block", "Inner")])),
    ];
    assert_eq!(
        impl_openzeppelin_runtime_apis(&items, BackingMode::Classic),
        Err(ExpansionError::MissingTopLevelAlias("Block".to_string()))
    );
}

#[test]
fn malformed_runtime_alias() {
    let items = vec![
        Item::TypeAlias { attrs: vec![], name: "Runtime".to_string(), target: TargetType::Other },
        ty("Block", "MyBlock"),
    ];
    assert_eq!(
        impl_openzeppelin_runtime_apis(&items, BackingMode::Classic),
        Err(ExpansionError::MalformedTargetType("Runtime".to_string()))
    );
}

#[test]
fn top_level_alias_lookup() {
    let items = root(vec![]);
    assert_eq!(top_level_alias(&items, "Runtime"), Ok("MyRuntime".to_string()));
    assert_eq!(top_level_alias(&items, "Block"), Ok("MyBlock".to_string()));
    assert_eq!(
        top_level_alias(&items, "Other"),
        Err(ExpansionError::MissingTopLevelAlias("Other".to_string()))
    );
}

#[test]
fn unknown_marker_module() {
    let items = root(vec![module("Governance", vec![])]);
    assert_eq!(
        impl_openzeppelin_runtime_apis(&items, BackingMode::Classic),
        Err(ExpansionError::UnrecognizedAbstractionName("Governance".to_string()))
    );
}

#[test]
fn untagged_modules_are_skipped() {
    let items = root(vec![Item::Module {
        attrs: vec![Attribute::Other, Attribute::Word("pallet".to_string())],
        name: "Governance".to_string(),
        body: vec![],
    }]);
    assert_eq!(impl_openzeppelin_runtime_apis(&items, BackingMode::Classic), Ok(vec![]));
}

#[test]
fn marker_with_missing_key_aborts() {
    let items = root(vec![
        module("Tanssi", types(&[("SessionKeys", "Keys")])),
        module("Assets", types(&[("TransactionPayment", "Tp"), ("RuntimeCall", "Call")])),
    ]);
    assert_eq!(
        impl_openzeppelin_runtime_apis(&items, BackingMode::Classic),
        Err(ExpansionError::MissingRequiredKey("Balance".to_string()))
    );
}

#[test]
fn every_kind_of_marker() {
    let system = [
        ("Executive", "Exec"),
        ("System", "Sys"),
        ("ParachainSystem", "ParaSys"),
        ("RuntimeVersion", "VERSION"),
        ("AccountId", "Account"),
        ("Nonce", "Index"),
        ("RuntimeGenesisConfig", "Genesis"),
        ("RuntimeBlockWeights", "Weights"),
    ];
    let items = root(vec![
        Item::Impl { text: "impl X for MyRuntime {}".to_string() },
        module("evm", types(&[("RuntimeCall", "Call"), ("Executive", "Exec"), ("Ethereum", "Eth")])),
        module("assets", types(&[("TransactionPayment", "Tp"), ("Balance", "Bal"), ("RuntimeCall", "Call")])),
        module("system", types(&system)),
        Item::Impl { text: "impl Y for MyRuntime {}".to_string() },
        module("tanssi", types(&[("SessionKeys", "Keys")])),
    ]);
    assert_eq!(
        impl_openzeppelin_runtime_apis(&items, BackingMode::Classic),
        Ok(vec![
            ApiBlock::Verbatim { text: "impl X for MyRuntime {}".to_string() },
            ApiBlock::Verbatim { text: "impl Y for MyRuntime {}".to_string() },
            evm_apis("MyRuntime", "MyBlock", "Call", "Exec", "Eth"),
            assets_apis("MyRuntime", "MyBlock", "Tp", "Bal", "Call"),
            system_apis(
                "MyRuntime", "MyBlock", "Exec", "Sys", "ParaSys", "VERSION", "Account", "Index",
                "Genesis", "Weights",
            ),
            tanssi_apis("MyRuntime", "MyBlock", "Keys"),
        ])
    );
}

#[test]
fn consensus_marker_in_async_backing_mode() {
    let body = types(&[("SessionKeys", "Keys"), ("SlotDuration", "SLOT"), ("ConsensusHook", "Hook")]);
    let items = root(vec![module("Consensus", body)]);
    assert_eq!(
        impl_openzeppelin_runtime_apis(&items, BackingMode::AsyncBacking),
        Ok(vec![consensus_apis(
            "MyRuntime",
            "MyBlock",
            ConsensusAPIFields::AsyncBacking {
                session_keys: "Keys".to_string(),
                slot_duration: "SLOT".to_string(),
                consensus_hook: "Hook".to_string(),
            },
        )])
    );
    assert_eq!(
        impl_openzeppelin_runtime_apis(&items, BackingMode::Classic),
        Err(ExpansionError::MissingRequiredKey("Aura".to_string()))
    );
}

#[test]
fn synthesis_places_each_identifier() {
    match evm_apis("R", "B", "Call", "Exec", "Eth") {
        ApiBlock::Evm { runtime, block, fields } => {
            assert_eq!((runtime.as_str(), block.as_str()), ("R", "B"));
            assert_eq!(fields.call, "Call");
            assert_eq!(fields.executive, "Exec");
            assert_eq!(fields.ethereum, "Eth");
        }
        other => panic!("unexpected block {:?}", other),
    }
    match assets_apis("R", "B", "Tp", "Bal", "Call") {
        ApiBlock::Assets { runtime, block, fields } => {
            assert_eq!((runtime.as_str(), block.as_str()), ("R", "B"));
            assert_eq!(fields.transaction_payment, "Tp");
            assert_eq!(fields.balance, "Bal");
            assert_eq!(fields.call, "Call");
        }
        other => panic!("unexpected block {:?}", other),
    }
    match system_apis("R", "B", "e", "s", "p", "v", "a", "n", "g", "w") {
        ApiBlock::System { runtime, block, fields } => {
            assert_eq!((runtime.as_str(), block.as_str()), ("R", "B"));
            assert_eq!(fields.executive, "e");
            assert_eq!(fields.system, "s");
            assert_eq!(fields.parachain_system, "p");
            assert_eq!(fields.version, "v");
            assert_eq!(fields.account_id, "a");
            assert_eq!(fields.nonce, "n");
            assert_eq!(fields.genesis, "g");
            assert_eq!(fields.runtime_block_weights, "w");
        }
        other => panic!("unexpected block {:?}", other),
    }
    match tanssi_apis("R", "B", "k") {
        ApiBlock::Tanssi { runtime, block, fields } => {
            assert_eq!((runtime.as_str(), block.as_str()), ("R", "B"));
            assert_eq!(fields.session_keys, "k");
        }
        other => panic!("unexpected block {:?}", other),
    }
}

#[test]
fn state_starts_empty() {
    let state = AbstractionState::default();
    assert_eq!(state.benchmark_fields, None);
    assert!(!state.consensus);
}

#[test]
fn construct_abstraction_updates_state() {
    let mut state = AbstractionState::default();
    let made = construct_abstraction(
        &"Consensus".to_string(),
        &consensus_body(),
        &mut state,
        "MyRuntime",
        "MyBlock",
        BackingMode::Classic,
    );
    assert_eq!(made, Ok(Some(consensus_block())));
    assert!(state.consensus);
    assert_eq!(state.benchmark_fields, None);
    let made = construct_abstraction(
        &"benchmarks".to_string(),
        &bench_body(),
        &mut state,
        "MyRuntime",
        "MyBlock",
        BackingMode::Classic,
    );
    assert_eq!(made, Ok(None));
    assert!(state.consensus);
    assert_eq!(state.benchmark_fields, Some(BenchmarkAPIFields::try_from(&bench_body()).unwrap()));
    let made = construct_abstraction(
        &"Nope".to_string(),
        &bench_body(),
        &mut state,
        "MyRuntime",
        "MyBlock",
        BackingMode::Classic,
    );
    assert_eq!(made, Err(ExpansionError::UnrecognizedAbstractionName("Nope".to_string())));
}

#[test]
fn composing_apis_twice_gives_the_same_output() {
    let items =
        root(vec![module("Consensus", consensus_body()), module("Benchmarks", bench_body())]);
    assert_eq!(
        impl_openzeppelin_runtime_apis(&items, BackingMode::Classic),
        impl_openzeppelin_runtime_apis(&items, BackingMode::Classic)
    );
}
