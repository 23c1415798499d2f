//! The kinds of abstraction that a marker can name.

use crate::text::{
    ascii_lower, eq_ignore_ascii_case, lemma_same_ignoring_case_carries, same_ignoring_ascii_case,
};
use vstd::prelude::*;

verus! {

/// The abstractions that the runtime composer expands into pallets.
#[derive(Debug, Clone, Copy, PartialEq, Eq, Structural)]
pub enum ConstructAbstractions {
    Assets,
    Xcm,
    Evm,
    System,
    Governance,
    Consensus,
    Tanssi,
}

/// A name that stands for no abstraction.
#[derive(Debug, Clone, Copy, PartialEq, Eq, Structural)]
pub enum ConversionError {
    UnknownAbstraction,
}

/// The abstractions that the API composer expands into trait implementations.
#[derive(Debug, Clone, Copy, PartialEq, Eq, Structural)]
pub enum APIAbstractions {
    Benchmarks,
    System,
    Evm,
    Consensus,
    Assets,
    Tanssi,
}

/// Which consensus configuration the generated runtime is built for.
#[derive(Debug, Clone, Copy, PartialEq, Eq, Structural)]
pub enum BackingMode {
    /// Slot duration is read from the Aura pallet.
    Classic,
    /// Asynchronous backing: slot duration and a consensus hook are supplied.
    AsyncBacking,
}

impl ConstructAbstractions {
    /// The name by which a marker selects this abstraction.
    pub open spec fn label(self) -> Seq<char> {
        match self {
            ConstructAbstractions::Assets => "Assets"@,
            ConstructAbstractions::Xcm => "XCM"@,
            ConstructAbstractions::Evm => "EVM"@,
            ConstructAbstractions::System => "System"@,
            ConstructAbstractions::Governance => "Governance"@,
            ConstructAbstractions::Consensus => "Consensus"@,
            ConstructAbstractions::Tanssi => "Tanssi"@,
        }
    }

    /// The abstraction whose label is `name` when the case of ASCII letters
    /// is ignored, if there is one.
    pub open spec fn named(name: Seq<char>) -> Option<ConstructAbstractions> {
        if same_ignoring_ascii_case(ConstructAbstractions::Assets.label(), name) {
            Some(ConstructAbstractions::Assets)
        } else if same_ignoring_ascii_case(ConstructAbstractions::Xcm.label(), name) {
            Some(ConstructAbstractions::Xcm)
        } else if same_ignoring_ascii_case(ConstructAbstractions::Evm.label(), name) {
            Some(ConstructAbstractions::Evm)
        } else if same_ignoring_ascii_case(ConstructAbstractions::System.label(), name) {
            Some(ConstructAbstractions::System)
        } else if same_ignoring_ascii_case(ConstructAbstractions::Governance.label(), name) {
            Some(ConstructAbstractions::Governance)
        } else if same_ignoring_ascii_case(ConstructAbstractions::Consensus.label(), name) {
            Some(ConstructAbstractions::Consensus)
        } else if same_ignoring_ascii_case(ConstructAbstractions::Tanssi.label(), name) {
            Some(ConstructAbstractions::Tanssi)
        } else {
            None
        }
    }

    /// Resolves a marker's name, ignoring the case of ASCII letters.
    pub fn try_from(value: &str) -> (kind: Result<ConstructAbstractions, ConversionError>)
        ensures
            kind.ok() == ConstructAbstractions::named(value@),
    {
        if eq_ignore_ascii_case("Assets", value) {
            Ok(ConstructAbstractions::Assets)
        } else if eq_ignore_ascii_case("XCM", value) {
            Ok(ConstructAbstractions::Xcm)
        } else if eq_ignore_ascii_case("EVM", value) {
            Ok(ConstructAbstractions::Evm)
        } else if eq_ignore_ascii_case("System", value) {
            Ok(ConstructAbstractions::System)
        } else if eq_ignore_ascii_case("Governance", value) {
            Ok(ConstructAbstractions::Governance)
        } else if eq_ignore_ascii_case("Consensus", value) {
            Ok(ConstructAbstractions::Consensus)
        } else if eq_ignore_ascii_case("Tanssi", value) {
            Ok(ConstructAbstractions::Tanssi)
        } else {
            Err(ConversionError::UnknownAbstraction)
        }
    }
}

impl APIAbstractions {
    /// The name by which a marker module selects this abstraction.
    pub open spec fn label(self) -> Seq<char> {
        match self {
            APIAbstractions::Benchmarks => "Benchmarks"@,
            APIAbstractions::Assets => "Assets"@,
            APIAbstractions::Evm => "EVM"@,
            APIAbstractions::System => "System"@,
            APIAbstractions::Consensus => "Consensus"@,
            APIAbstractions::Tanssi => "Tanssi"@,
        }
    }

    /// The abstraction whose label is `name` when the case of ASCII letters
    /// is ignored, if there is one.
    pub open spec fn named(name: Seq<char>) -> Option<APIAbstractions> {
        if same_ignoring_ascii_case(APIAbstractions::Benchmarks.label(), name) {
            Some(APIAbstractions::Benchmarks)
        } else if same_ignoring_ascii_case(APIAbstractions::Assets.label(), name) {
            Some(APIAbstractions::Assets)
        } else if same_ignoring_ascii_case(APIAbstractions::Evm.label(), name) {
            Some(APIAbstractions::Evm)
        } else if same_ignoring_ascii_case(APIAbstractions::System.label(), name) {
            Some(APIAbstractions::System)
        } else if same_ignoring_ascii_case(APIAbstractions::Consensus.label(), name) {
            Some(APIAbstractions::Consensus)
        } else if same_ignoring_ascii_case(APIAbstractions::Tanssi.label(), name) {
            Some(APIAbstractions::Tanssi)
        } else {
            None
        }
    }

    /// Resolves a marker module's name, ignoring the case of ASCII letters.
    pub fn try_from(value: &str) -> (kind: Result<APIAbstractions, ConversionError>)
        ensures
            kind.ok() == APIAbstractions::named(value@),
    {
        if eq_ignore_ascii_case("Benchmarks", value) {
            Ok(APIAbstractions::Benchmarks)
        } else if eq_ignore_ascii_case("Assets", value) {
            Ok(APIAbstractions::Assets)
        } else if eq_ignore_ascii_case("EVM", value) {
            Ok(APIAbstractions::Evm)
        } else if eq_ignore_ascii_case("System", value) {
            Ok(APIAbstractions::System)
        } else if eq_ignore_ascii_case("Consensus", value) {
            Ok(APIAbstractions::Consensus)
        } else if eq_ignore_ascii_case("Tanssi", value) {
            Ok(APIAbstractions::Tanssi)
        } else {
            Err(ConversionError::UnknownAbstraction)
        }
    }
}

/// Reveals the labels of the abstractions.
proof fn lemma_labels()
    ensures
        "Assets"@ == seq!['A', 's', 's', 'e', 't', 's'],
        "XCM"@ == seq!['X', 'C', 'M'],
        "EVM"@ == seq!['E', 'V', 'M'],
        "System"@ == seq!['S', 'y', 's', 't', 'e', 'm'],
        "Governance"@.len() == 10,
        "Consensus"@.len() == 9,
        "Tanssi"@ == seq!['T', 'a', 'n', 's', 's', 'i'],
        "Benchmarks"@.len() == 10,
{
    reveal_strlit("Assets");
    reveal_strlit("XCM");
    reveal_strlit("EVM");
    reveal_strlit("System");
    reveal_strlit("Governance");
    reveal_strlit("Consensus");
    reveal_strlit("Tanssi");
    reveal_strlit("Benchmarks");
    assert("Assets"@ =~= seq!['A', 's', 's', 'e', 't', 's']);
    assert("XCM"@ =~= seq!['X', 'C', 'M']);
    assert("EVM"@ =~= seq!['E', 'V', 'M']);
    assert("System"@ =~= seq!['S', 'y', 's', 't', 'e', 'm']);
    assert("Tanssi"@ =~= seq!['T', 'a', 'n', 's', 's', 'i']);
}

/// No two of the labels that have the same length are the same text when
/// case is ignored.
proof fn lemma_labels_differ()
    ensures
        !same_ignoring_ascii_case("Assets"@, "System"@),
        !same_ignoring_ascii_case("Assets"@, "Tanssi"@),
        !same_ignoring_ascii_case("System"@, "Tanssi"@),
        !same_ignoring_ascii_case("XCM"@, "EVM"@),
{
    lemma_labels();
    assert(ascii_lower("Assets"@[0]) != ascii_lower("System"@[0]));
    assert(ascii_lower("Assets"@[0]) != ascii_lower("Tanssi"@[0]));
    assert(ascii_lower("System"@[0]) != ascii_lower("Tanssi"@[0]));
    assert(ascii_lower("XCM"@[0]) != ascii_lower("EVM"@[0]));
}

/// Every abstraction of the runtime composer is selected by its own label.
pub proof fn law_construct_label_resolves(kind: ConstructAbstractions)
    ensures
        ConstructAbstractions::named(kind.label()) == Some(kind),
{
    lemma_labels();
    lemma_labels_differ();
}

/// Every abstraction of the API composer is selected by its own label.
pub proof fn law_api_label_resolves(kind: APIAbstractions)
    ensures
        APIAbstractions::named(kind.label()) == Some(kind),
{
    lemma_labels();
    lemma_labels_differ();
}

/// Names that differ only in the case of ASCII letters select the same
/// abstraction.
pub proof fn law_named_ignores_case(a: Seq<char>, b: Seq<char>)
    requires
        same_ignoring_ascii_case(a, b),
    ensures
        ConstructAbstractions::named(a) == ConstructAbstractions::named(b),
        APIAbstractions::named(a) == APIAbstractions::named(b),
{
    lemma_same_ignoring_case_carries("Assets"@, a, b);
    lemma_same_ignoring_case_carries("XCM"@, a, b);
    lemma_same_ignoring_case_carries("EVM"@, a, b);
    lemma_same_ignoring_case_carries("System"@, a, b);
    lemma_same_ignoring_case_carries("Governance"@, a, b);
    lemma_same_ignoring_case_carries("Consensus"@, a, b);
    lemma_same_ignoring_case_carries("Tanssi"@, a, b);
    lemma_same_ignoring_case_carries("Benchmarks"@, a, b);
}

} // verus!
