//! The ways in which an expansion fails.

use vstd::prelude::*;
use vstd::string::StringExecFns;

verus! {

/// Why an expansion was aborted. Every failure is final: nothing is produced.
#[derive(Debug, PartialEq, Eq)]
pub enum ExpansionError {
    /// A marker's body holds no alias with this required key.
    MissingRequiredKey(String),
    /// The alias with this key has a right-hand side that is not a bare
    /// identifier.
    MalformedTargetType(String),
    /// A marker with this name stands for no known abstraction.
    UnrecognizedAbstractionName(String),
    /// An item lacks the attribute that marks it as a pallet or as an
    /// abstraction: the attribute, then the item's name.
    MissingMarkerAttribute(String, String),
    /// The module body lacks this top-level alias (`Runtime` or `Block`).
    MissingTopLevelAlias(String),
}

/// The mathematical content of an [`ExpansionError`].
pub enum Failure {
    MissingRequiredKey(Seq<char>),
    MalformedTargetType(Seq<char>),
    UnrecognizedAbstractionName(Seq<char>),
    MissingMarkerAttribute(Seq<char>, Seq<char>),
    MissingTopLevelAlias(Seq<char>),
}

impl View for ExpansionError {
    type V = Failure;

    open spec fn view(&self) -> Failure {
        match self {
            ExpansionError::MissingRequiredKey(k) => Failure::MissingRequiredKey(k@),
            ExpansionError::MalformedTargetType(k) => Failure::MalformedTargetType(k@),
            ExpansionError::UnrecognizedAbstractionName(n) => Failure::UnrecognizedAbstractionName(
                n@,
            ),
            ExpansionError::MissingMarkerAttribute(a, n) => Failure::MissingMarkerAttribute(a@, n@),
            ExpansionError::MissingTopLevelAlias(k) => Failure::MissingTopLevelAlias(k@),
        }
    }
}

impl Failure {
    /// The message shown to the user: it names the offending key, item or
    /// attribute.
    pub open spec fn message(self) -> Seq<char> {
        match self {
            Failure::MissingRequiredKey(k) => "type `"@ + k + "` not specified, but required"@,
            Failure::MalformedTargetType(k) => "malformed type for `"@ + k
                + "`: expected a bare identifier"@,
            Failure::UnrecognizedAbstractionName(n) => "unknown abstraction `"@ + n + "`"@,
            Failure::MissingMarkerAttribute(a, n) => "`"@ + a + "` attribute is missing on `"@ + n
                + "`"@,
            Failure::MissingTopLevelAlias(k) => "please add `type "@ + k
                + "` to the root of the module: it is missing"@,
        }
    }
}

impl ExpansionError {
    /// The message shown to the user.
    pub fn message(&self) -> (text: String)
        ensures
            text@ == self@.message(),
    {
        match self {
            ExpansionError::MissingRequiredKey(k) => {
                String::from_str("type `").concat(k.as_str()).concat(
                    "` not specified, but required",
                )
            },
            ExpansionError::MalformedTargetType(k) => {
                String::from_str("malformed type for `").concat(k.as_str()).concat(
                    "`: expected a bare identifier",
                )
            },
            ExpansionError::UnrecognizedAbstractionName(n) => {
                String::from_str("unknown abstraction `").concat(n.as_str()).concat("`")
            },
            ExpansionError::MissingMarkerAttribute(a, n) => {
                String::from_str("`").concat(a.as_str()).concat("` attribute is missing on `").concat(
                    n.as_str(),
                ).concat("`")
            },
            ExpansionError::MissingTopLevelAlias(k) => {
                String::from_str("please add `type ").concat(k.as_str()).concat(
                    "` to the root of the module: it is missing",
                )
            },
        }
    }
}

} // verus!
