use runtime_wrappers::errors::ExpansionError;
use runtime_wrappers::extract::{extract, fetch_ident};
use runtime_wrappers::fields::{
    resolve_keys, AssetAPIFields, BenchmarkAPIFields, ConsensusAPIFields, EVMAPIFields,
    SystemAPIFields, TanssiAPIFields, XCMBenchmarkAPIFields,
};
use runtime_wrappers::items::{Item, TargetType};
use runtime_wrappers::models::BackingMode;

fn bound(name: &str, target: &str) -> Item {
    Item::TypeAlias {
        attrs: vec![],
        name: name.to_string(),
        target: TargetType::Bare(target.to_string()),
    }
}

fn unbound(name: &str) -> Item {
    Item::TypeAlias { attrs: vec![], name: name.to_string(), target: TargetType::Other }
}

fn body_of(pairs: &[(&str, &str)]) -> Vec<Item> {
    pairs.iter().map(|(k, v)| bound(k, v)).collect()
}

fn body_without(pairs: &[(&str, &str)], key: &str) -> Vec<Item> {
    pairs.iter().filter(|(k, _)| *k != key).map(|(k, v)| bound(k, v)).collect()
}

const SYSTEM: [(&str, &str); 8] = [
    ("Executive", "Exec"),
    ("System", "Sys"),
    ("ParachainSystem", "ParaSys"),
    ("RuntimeVersion", "VERSION"),
    ("AccountId", "Account"),
    ("Nonce", "Index"),
    ("RuntimeGenesisConfig", "Genesis"),
    ("RuntimeBlockWeights", "Weights"),
];

const XCM: [(&str, &str); 14] = [
    ("Assets", "A1"),
    ("AssetManager", "A2"),
    ("AssetType", "A3"),
    ("RuntimeOrigin", "A4"),
    ("RelayLocation", "A5"),
    ("ExistentialDeposit", "A6"),
    ("AssetId", "A7"),
    ("XCMConfig", "A8"),
    ("AccountId", "A9"),
    ("Cents", "A10"),
    ("FeeAssetId", "A11"),
    ("TransactionByteFee", "A12"),
    ("Address", "A13"),
    ("Balances", "A14"),
];

const BENCH: [(&str, &str); 3] =
    [("AllPalletsWithSystem", "All"), ("ParachainSystem", "ParaSys"), ("System", "Sys")];

#[test]
fn fetch_ident_of_bare_and_other() {
    assert_eq!(fetch_ident(&TargetType::Bare("Foo".to_string())), Some("Foo".to_string()));
    assert_eq!(fetch_ident(&TargetType::Other), None);
}

#[test]
fn extract_returns_bound_identifier() {
    let items = vec![bound("A", "x"), Item::Other, bound("B", "y")];
    assert_eq!(extract(&items, "B"), Ok("y".to_string()));
    assert_eq!(extract(&items, "A"), Ok("x".to_string()));
}

#[test]
fn extract_missing_key() {
    let items = vec![bound("A", "x")];
    assert_eq!(extract(&items, "B"), Err(ExpansionError::MissingRequiredKey("B".to_string())));
    assert_eq!(
        extract(&Vec::new(), "Runtime"),
        Err(ExpansionError::MissingRequiredKey("Runtime".to_string()))
    );
}

#[test]
fn extract_is_case_sensitive() {
    let items = vec![bound("runtime", "x")];
    assert_eq!(
        extract(&items, "Runtime"),
        Err(ExpansionError::MissingRequiredKey("Runtime".to_string()))
    );
}

#[test]
fn extract_malformed_target() {
    let items = vec![unbound("A")];
    assert_eq!(extract(&items, "A"), Err(ExpansionError::MalformedTargetType("A".to_string())));
}

#[test]
fn extract_first_match_wins() {
    let items = vec![bound("A", "first"), bound("A", "second"), unbound("A")];
    assert_eq!(extract(&items, "A"), Ok("first".to_string()));
    let items = vec![unbound("A"), bound("A", "second")];
    assert_eq!(extract(&items, "A"), Err(ExpansionError::MalformedTargetType("A".to_string())));
}

#[test]
fn extract_ignores_items_that_are_no_alias() {
    let items = vec![
        Item::Struct { attrs: vec![], name: "A".to_string() },
        Item::Module { attrs: vec![], name: "A".to_string(), body: vec![bound("A", "inner")] },
        Item::Impl { text: "A".to_string() },
        bound("A", "outer"),
    ];
    assert_eq!(extract(&items, "A"), Ok("outer".to_string()));
}

#[test]
fn resolve_keys_in_key_order() {
    let items = vec![bound("B", "b"), bound("A", "a")];
    assert_eq!(resolve_keys(&items, &vec!["A", "B"]), Ok(vec!["a".to_string(), "b".to_string()]));
    assert_eq!(resolve_keys(&items, &vec![]), Ok(vec![]));
}

#[test]
fn resolve_keys_reports_first_failing_key() {
    let items = vec![bound("B", "b")];
    assert_eq!(
        resolve_keys(&items, &vec!["A", "B", "C"]),
        Err(ExpansionError::MissingRequiredKey("A".to_string()))
    );
    assert_eq!(
        resolve_keys(&items, &vec!["B", "C", "A"]),
        Err(ExpansionError::MissingRequiredKey("C".to_string()))
    );
}

#[test]
fn assets_fields_all_keys() {
    let items = body_of(&[("RuntimeCall", "Call"), ("Balance", "Bal"), ("TransactionPayment", "Tp")]);
    assert_eq!(
        AssetAPIFields::try_from(&items),
        Ok(AssetAPIFields {
            transaction_payment: "Tp".to_string(),
            balance: "Bal".to_string(),
            call: "Call".to_string(),
        })
    );
}

#[test]
fn assets_fields_each_missing_key() {
    let all = [("TransactionPayment", "Tp"), ("Balance", "Bal"), ("RuntimeCall", "Call")];
    for (key, _) in all {
        assert_eq!(
            AssetAPIFields::try_from(&body_without(&all, key)),
            Err(ExpansionError::MissingRequiredKey(key.to_string()))
        );
    }
}

#[test]
fn assets_fields_first_missing_key_is_reported() {
    assert_eq!(
        AssetAPIFields::try_from(&Vec::new()),
        Err(ExpansionError::MissingRequiredKey("TransactionPayment".to_string()))
    );
    assert_eq!(
        AssetAPIFields::try_from(&body_of(&[("TransactionPayment", "Tp")])),
        Err(ExpansionError::MissingRequiredKey("Balance".to_string()))
    );
}

#[test]
fn evm_fields_all_keys() {
    let items = body_of(&[("RuntimeCall", "Call"), ("Executive", "Exec"), ("Ethereum", "Eth")]);
    assert_eq!(
        EVMAPIFields::try_from(&items),
        Ok(EVMAPIFields {
            executive: "Exec".to_string(),
            ethereum: "Eth".to_string(),
            call: "Call".to_string(),
        })
    );
}

#[test]
fn evm_fields_each_missing_key() {
    let all = [("Executive", "Exec"), ("Ethereum", "Eth"), ("RuntimeCall", "Call")];
    for (key, _) in all {
        assert_eq!(
            EVMAPIFields::try_from(&body_without(&all, key)),
            Err(ExpansionError::MissingRequiredKey(key.to_string()))
        );
    }
    assert_eq!(
        EVMAPIFields::try_from(&Vec::new()),
        Err(ExpansionError::MissingRequiredKey("Executive".to_string()))
    );
}

#[test]
fn evm_fields_malformed_target() {
    let items = vec![bound("Executive", "Exec"), unbound("Ethereum"), bound("RuntimeCall", "Call")];
    assert_eq!(
        EVMAPIFields::try_from(&items),
        Err(ExpansionError::MalformedTargetType("Ethereum".to_string()))
    );
}

#[test]
fn missing_key_before_malformed_key_is_reported_first() {
    let items = vec![unbound("Ethereum"), bound("RuntimeCall", "Call")];
    assert_eq!(
        EVMAPIFields::try_from(&items),
        Err(ExpansionError::MissingRequiredKey("Executive".to_string()))
    );
}

#[test]
fn system_fields_all_keys() {
    assert_eq!(
        SystemAPIFields::try_from(&body_of(&SYSTEM)),
        Ok(SystemAPIFields {
            executive: "Exec".to_string(),
            system: "Sys".to_string(),
            parachain_system: "ParaSys".to_string(),
            version: "VERSION".to_string(),
            account_id: "Account".to_string(),
            nonce: "Index".to_string(),
            genesis: "Genesis".to_string(),
            runtime_block_weights: "Weights".to_string(),
        })
    );
}

#[test]
fn system_fields_each_missing_key() {
    for (key, _) in SYSTEM {
        assert_eq!(
            SystemAPIFields::try_from(&body_without(&SYSTEM, key)),
            Err(ExpansionError::MissingRequiredKey(key.to_string()))
        );
    }
}

#[test]
fn tanssi_fields() {
    assert_eq!(
        TanssiAPIFields::try_from(&body_of(&[("SessionKeys", "Keys")])),
        Ok(TanssiAPIFields { session_keys: "Keys".to_string() })
    );
    assert_eq!(
        TanssiAPIFields::try_from(&body_of(&[("Aura", "Aura")])),
        Err(ExpansionError::MissingRequiredKey("SessionKeys".to_string()))
    );
}

#[test]
fn consensus_fields_classic() {
    let items = body_of(&[("SessionKeys", "Keys"), ("Aura", "AuraPallet")]);
    assert_eq!(
        ConsensusAPIFields::try_from(&items, BackingMode::Classic),
        Ok(ConsensusAPIFields::Classic {
            session_keys: "Keys".to_string(),
            aura: "AuraPallet".to_string(),
        })
    );
    assert_eq!(
        ConsensusAPIFields::try_from(&body_of(&[("SessionKeys", "Keys")]), BackingMode::Classic),
        Err(ExpansionError::MissingRequiredKey("Aura".to_string()))
    );
    assert_eq!(
        ConsensusAPIFields::try_from(&body_of(&[("Aura", "A")]), BackingMode::Classic),
        Err(ExpansionError::MissingRequiredKey("SessionKeys".to_string()))
    );
}

#[test]
fn consensus_fields_async_backing() {
    let all = [("SessionKeys", "Keys"), ("SlotDuration", "SLOT"), ("ConsensusHook", "Hook")];
    assert_eq!(
        ConsensusAPIFields::try_from(&body_of(&all), BackingMode::AsyncBacking),
        Ok(ConsensusAPIFields::AsyncBacking {
            session_keys: "Keys".to_string(),
            slot_duration: "SLOT".to_string(),
            consensus_hook: "Hook".to_string(),
        })
    );
    for (key, _) in all {
        assert_eq!(
            ConsensusAPIFields::try_from(&body_without(&all, key), BackingMode::AsyncBacking),
            Err(ExpansionError::MissingRequiredKey(key.to_string()))
        );
    }
}

#[test]
fn consensus_keys_of_the_other_mode_do_not_count() {
    let classic = body_of(&[("SessionKeys", "Keys"), ("Aura", "AuraPallet")]);
    assert_eq!(
        ConsensusAPIFields::try_from(&classic, BackingMode::AsyncBacking),
        Err(ExpansionError::MissingRequiredKey("SlotDuration".to_string()))
    );
}

#[test]
fn xcm_benchmark_fields_all_keys() {
    let f = XCMBenchmarkAPIFields::try_from(&body_of(&XCM)).unwrap();
    assert_eq!(f.assets, "A1");
    assert_eq!(f.asset_manager, "A2");
    assert_eq!(f.asset_type, "A3");
    assert_eq!(f.runtime_origin, "A4");
    assert_eq!(f.relay_location, "A5");
    assert_eq!(f.existential_deposit, "A6");
    assert_eq!(f.asset_id, "A7");
    assert_eq!(f.xcm_config, "A8");
    assert_eq!(f.account_id, "A9");
    assert_eq!(f.cents, "A10");
    assert_eq!(f.fee_asset_id, "A11");
    assert_eq!(f.transaction_byte_fee, "A12");
    assert_eq!(f.address, "A13");
    assert_eq!(f.balances, "A14");
}

#[test]
fn xcm_benchmark_fields_each_missing_key() {
    for (key, _) in XCM {
        assert_eq!(
            XCMBenchmarkAPIFields::try_from(&body_without(&XCM, key)),
            Err(ExpansionError::MissingRequiredKey(key.to_string()))
        );
    }
}

#[test]
fn benchmark_fields_without_xcm() {
    let f = BenchmarkAPIFields::try_from(&body_of(&BENCH)).unwrap();
    assert_eq!(f.all_pallets_with_system, "All");
    assert_eq!(f.parachain_system, "ParaSys");
    assert_eq!(f.system, "Sys");
    assert_eq!(f.xcm_fields, None);
}

#[test]
fn benchmark_fields_with_xcm() {
    let mut items = body_of(&BENCH);
    items.extend(body_of(&XCM));
    let f = BenchmarkAPIFields::try_from(&items).unwrap();
    assert_eq!(f.system, "Sys");
    assert_eq!(f.xcm_fields, Some(XCMBenchmarkAPIFields::try_from(&body_of(&XCM)).unwrap()));
}

#[test]
fn benchmark_fields_partial_xcm_is_absent() {
    let mut items = body_of(&BENCH);
    items.extend(body_without(&XCM, "Cents"));
    assert_eq!(BenchmarkAPIFields::try_from(&items).unwrap().xcm_fields, None);
    let mut items = body_of(&BENCH);
    items.extend(body_without(&XCM, "Cents"));
    items.push(unbound("Cents"));
    assert_eq!(BenchmarkAPIFields::try_from(&items).unwrap().xcm_fields, None);
}

#[test]
fn benchmark_fields_each_missing_key() {
    for (key, _) in BENCH {
        let mut items = body_without(&BENCH, key);
        items.extend(body_without(&XCM, key));
        assert_eq!(
            BenchmarkAPIFields::try_from(&items),
            Err(ExpansionError::MissingRequiredKey(key.to_string()))
        );
    }
}

#[test]
fn benchmark_fields_malformed_required_key() {
    let items = vec![bound("AllPalletsWithSystem", "All"), unbound("ParachainSystem")];
    assert_eq!(
        BenchmarkAPIFields::try_from(&items),
        Err(ExpansionError::MalformedTargetType("ParachainSystem".to_string()))
    );
}

#[test]
fn parsing_twice_gives_the_same_record() {
    let items = body_of(&SYSTEM);
    assert_eq!(SystemAPIFields::try_from(&items), SystemAPIFields::try_from(&items));
}
