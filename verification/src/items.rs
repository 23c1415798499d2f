//! The declaration items that the composers read.

use vstd::prelude::*;
use vstd::string::StringExecFns;

verus! {

/// An attribute attached to an item.
#[derive(Debug, PartialEq, Eq)]
pub enum Attribute {
    /// A single bare word, such as `pallet` or `abstraction`.
    Word(String),
    /// Any other attribute shape.
    Other,
}

/// The right-hand side of a type alias.
#[derive(Debug, PartialEq, Eq)]
pub enum TargetType {
    /// A single unqualified name without generic parameters.
    Bare(String),
    /// Anything else: a path with segments, a generic type, a tuple, a reference.
    Other,
}

/// One item of a module body.
#[derive(Debug)]
pub enum Item {
    /// `type name = target;`
    TypeAlias { attrs: Vec<Attribute>, name: String, target: TargetType },
    /// `struct name;`
    Struct { attrs: Vec<Attribute>, name: String },
    /// `mod name { body }`
    Module { attrs: Vec<Attribute>, name: String, body: Vec<Item> },
    /// A trait implementation, kept as its source text.
    Impl { text: String },
    /// Any other item.
    Other,
}

impl Attribute {
    /// Whether this attribute is the bare word `word`.
    pub open spec fn is_word(self, word: Seq<char>) -> bool {
        match self {
            Attribute::Word(w) => w@ == word,
            Attribute::Other => false,
        }
    }
}

/// Whether one of `attrs` is the bare word `word`.
pub open spec fn has_word(attrs: Seq<Attribute>, word: Seq<char>) -> bool {
    exists|i: int| 0 <= i < attrs.len() && (#[trigger] attrs[i]).is_word(word)
}

/// The attribute that marks a struct or a module as an abstraction.
pub open spec fn abstraction_word() -> Seq<char> {
    "abstraction"@
}

/// The attribute that marks a type alias as a pallet.
pub open spec fn pallet_word() -> Seq<char> {
    "pallet"@
}

/// Tells whether one of `attrs` is the bare word `word`.
pub fn has_attribute(attrs: &Vec<Attribute>, word: &str) -> (found: bool)
    ensures
        found == has_word(attrs@, word@),
{
    let wanted = String::from_str(word);
    let mut i: usize = 0;
    while i < attrs.len()
        invariant
            i <= attrs.len(),
            wanted@ == word@,
            forall|j: int| 0 <= j < i ==> !(#[trigger] attrs@[j]).is_word(word@),
        decreases attrs.len() - i,
    {
        match &attrs[i] {
            Attribute::Word(w) => {
                if *w == wanted {
                    return true;
                }
            },
            Attribute::Other => {},
        }
        i += 1;
    }
    false
}

impl Item {
    /// Whether this item is a type alias named `key`.
    pub open spec fn is_alias_named(self, key: Seq<char>) -> bool {
        match self {
            Item::TypeAlias { name, .. } => name@ == key,
            _ => false,
        }
    }
}

} // verus!
