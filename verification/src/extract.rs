//! Looking up the identifier that a type alias binds.

use crate::errors::{ExpansionError, Failure};
use crate::items::{Item, TargetType};
use crate::text::same_text;
use vstd::prelude::*;
use vstd::string::StringExecFns;

verus! {

/// The position of the first alias named `key` at or after `from`, or the
/// length of `items` if there is none.
pub open spec fn alias_position(items: Seq<Item>, key: Seq<char>, from: int) -> int
    decreases items.len() - from,
{
    if from < 0 || from >= items.len() {
        items.len() as int
    } else if items[from].is_alias_named(key) {
        from
    } else {
        alias_position(items, key, from + 1)
    }
}

/// What looking up `key` in `items` yields: the identifier bound by the first
/// alias named `key`; a failure if there is no such alias or if its
/// right-hand side is not a bare identifier. Later aliases with the same key
/// are not looked at.
pub open spec fn lookup(items: Seq<Item>, key: Seq<char>) -> Result<Seq<char>, Failure> {
    let at = alias_position(items, key, 0);
    if at >= items.len() {
        Err(Failure::MissingRequiredKey(key))
    } else {
        match items[at] {
            Item::TypeAlias { target: TargetType::Bare(ident), .. } => Ok(ident@),
            _ => Err(Failure::MalformedTargetType(key)),
        }
    }
}

/// The view of a lookup's outcome.
pub open spec fn outcome(r: Result<String, ExpansionError>) -> Result<Seq<char>, Failure> {
    match r {
        Ok(ident) => Ok(ident@),
        Err(e) => Err(e@),
    }
}

/// `alias_position` is the least position of an alias named `key`.
pub proof fn lemma_alias_position(items: Seq<Item>, key: Seq<char>, from: int)
    requires
        0 <= from <= items.len(),
    ensures
        from <= alias_position(items, key, from) <= items.len(),
        alias_position(items, key, from) < items.len() ==> items[alias_position(
            items,
            key,
            from,
        )].is_alias_named(key),
        forall|j: int|
            from <= j < alias_position(items, key, from) ==> !(#[trigger] items[j]).is_alias_named(
                key,
            ),
    decreases items.len() - from,
{
    if from < items.len() && !items[from].is_alias_named(key) {
        lemma_alias_position(items, key, from + 1);
    }
}

/// The identifier of a bare right-hand side; `None` for any other shape.
pub fn fetch_ident(ty: &TargetType) -> (ident: Option<String>)
    ensures
        match (ty, ident) {
            (TargetType::Bare(name), Some(found)) => found@ == name@,
            (TargetType::Other, None) => true,
            _ => false,
        },
{
    match ty {
        TargetType::Bare(name) => Some(name.clone()),
        TargetType::Other => None,
    }
}

/// Scans `items` in order and returns the identifier bound by the first type
/// alias whose name is exactly `key`.
pub fn extract(items: &Vec<Item>, key: &str) -> (found: Result<String, ExpansionError>)
    ensures
        outcome(found) == lookup(items@, key@),
{
    let mut i: usize = 0;
    while i < items.len()
        invariant
            i <= items.len(),
            alias_position(items@, key@, 0) == alias_position(items@, key@, i as int),
        decreases items.len() - i,
    {
        match &items[i] {
            Item::TypeAlias { name, target, .. } => {
                if same_text(name, key) {
                    return match fetch_ident(target) {
                        Some(ident) => Ok(ident),
                        None => Err(ExpansionError::MalformedTargetType(String::from_str(key))),
                    };
                }
            },
            _ => {},
        }
        i += 1;
    }
    Err(ExpansionError::MissingRequiredKey(String::from_str(key)))
}

} // verus!
