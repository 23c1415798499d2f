use runtime_wrappers::models::{APIAbstractions, ConstructAbstractions, ConversionError};

#[test]
fn construct_kinds_by_name() {
    assert_eq!(ConstructAbstractions::try_from("Assets"), Ok(ConstructAbstractions::Assets));
    assert_eq!(ConstructAbstractions::try_from("XCM"), Ok(ConstructAbstractions::Xcm));
    assert_eq!(ConstructAbstractions::try_from("EVM"), Ok(ConstructAbstractions::Evm));
    assert_eq!(ConstructAbstractions::try_from("System"), Ok(ConstructAbstractions::System));
    assert_eq!(ConstructAbstractions::try_from("Governance"), Ok(ConstructAbstractions::Governance));
    assert_eq!(ConstructAbstractions::try_from("Consensus"), Ok(ConstructAbstractions::Consensus));
    assert_eq!(ConstructAbstractions::try_from("Tanssi"), Ok(ConstructAbstractions::Tanssi));
}

#[test]
fn construct_kinds_ignore_case() {
    assert_eq!(ConstructAbstractions::try_from("system"), Ok(ConstructAbstractions::System));
    assert_eq!(ConstructAbstractions::try_from("SYSTEM"), Ok(ConstructAbstractions::System));
    assert_eq!(ConstructAbstractions::try_from("xcm"), Ok(ConstructAbstractions::Xcm));
    assert_eq!(ConstructAbstractions::try_from("Xcm"), Ok(ConstructAbstractions::Xcm));
    assert_eq!(ConstructAbstractions::try_from("Evm"), Ok(ConstructAbstractions::Evm));
    assert_eq!(ConstructAbstractions::try_from("tANSSI"), Ok(ConstructAbstractions::Tanssi));
}

#[test]
fn construct_kinds_unknown() {
    assert_eq!(ConstructAbstractions::try_from("Unknown"), Err(ConversionError::UnknownAbstraction));
    assert_eq!(
        ConstructAbstractions::try_from("Benchmarks"),
        Err(ConversionError::UnknownAbstraction)
    );
    assert_eq!(ConstructAbstractions::try_from(""), Err(ConversionError::UnknownAbstraction));
    assert_eq!(ConstructAbstractions::try_from("System "), Err(ConversionError::UnknownAbstraction));
    assert_eq!(ConstructAbstractions::try_from("Syste"), Err(ConversionError::UnknownAbstraction));
}

#[test]
fn api_kinds_by_name() {
    assert_eq!(APIAbstractions::try_from("Benchmarks"), Ok(APIAbstractions::Benchmarks));
    assert_eq!(APIAbstractions::try_from("Assets"), Ok(APIAbstractions::Assets));
    assert_eq!(APIAbstractions::try_from("EVM"), Ok(APIAbstractions::Evm));
    assert_eq!(APIAbstractions::try_from("System"), Ok(APIAbstractions::System));
    assert_eq!(APIAbstractions::try_from("Consensus"), Ok(APIAbstractions::Consensus));
    assert_eq!(APIAbstractions::try_from("Tanssi"), Ok(APIAbstractions::Tanssi));
}

#[test]
fn api_kinds_ignore_case() {
    assert_eq!(APIAbstractions::try_from("BENCHMARKS"), Ok(APIAbstractions::Benchmarks));
    assert_eq!(APIAbstractions::try_from("evm"), Ok(APIAbstractions::Evm));
    assert_eq!(APIAbstractions::try_from("consensus"), Ok(APIAbstractions::Consensus));
}

#[test]
fn api_kinds_unknown() {
    assert_eq!(APIAbstractions::try_from("Governance"), Err(ConversionError::UnknownAbstraction));
    assert_eq!(APIAbstractions::try_from("XCM"), Err(ConversionError::UnknownAbstraction));
    assert_eq!(APIAbstractions::try_from("Unknown"), Err(ConversionError::UnknownAbstraction));
}
