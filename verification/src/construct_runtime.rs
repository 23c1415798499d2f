//! The runtime composer: from abstraction markers and explicit pallet
//! aliases to the indexed pallet declarations of the runtime.

use crate::errors::{ExpansionError, Failure};
use crate::extract::fetch_ident;
use crate::items::{
    abstraction_word, has_attribute, has_word, pallet_word, Attribute, Item, TargetType,
};
use crate::literal::{decimal, index_literal};
use crate::models::ConstructAbstractions;
use crate::tables::{pairs, PalletEntry, PalletTables};
use vstd::prelude::*;
use vstd::string::StringExecFns;

verus! {

/// One pallet of the runtime: `name` is bound to `module` at `index`.
#[derive(Debug, PartialEq, Eq)]
pub struct PalletDeclaration {
    pub index: usize,
    pub name: String,
    pub module: String,
}

/// The mathematical content of a [`PalletDeclaration`].
pub struct Declared {
    pub index: int,
    pub name: Seq<char>,
    pub module: Seq<char>,
}

impl View for PalletDeclaration {
    type V = Declared;

    open spec fn view(&self) -> Declared {
        Declared { index: self.index as int, name: self.name@, module: self.module@ }
    }
}

/// A fixed block of declarations that an abstraction needs beside the
/// runtime's pallets, at module scope.
#[derive(Debug, Clone, Copy, PartialEq, Eq, Structural)]
pub enum AuxiliaryBlock {
    /// Block validation with the Aura block executor.
    ConsensusBlockValidation,
    /// Inherent checking and block validation with the author-inherent block
    /// executor.
    TanssiBlockValidation,
}

/// What the runtime composer produces.
#[derive(Debug, PartialEq, Eq)]
pub struct RuntimeDeclarations {
    /// The pallets, to be placed inside the runtime definition.
    pub pallets: Vec<PalletDeclaration>,
    /// The blocks to be placed beside the runtime definition.
    pub auxiliary: Vec<AuxiliaryBlock>,
}

/// The mathematical content of a [`RuntimeDeclarations`].
pub struct Composition {
    pub pallets: Seq<Declared>,
    pub auxiliary: Seq<AuxiliaryBlock>,
}

/// The declarations of a list of pallets.
pub open spec fn declared(pallets: Seq<PalletDeclaration>) -> Seq<Declared> {
    Seq::new(pallets.len(), |i: int| pallets[i]@)
}

/// Whether every declaration of a list carries its position as its index.
/// Then no two declarations share an index, and the last index is the
/// number of declarations less one.
pub open spec fn indexed(pallets: Seq<Declared>) -> bool {
    forall|k: int| 0 <= k < pallets.len() ==> (#[trigger] pallets[k]).index == k
}

impl RuntimeDeclarations {
    /// The invariant of the pallet indices.
    pub open spec fn well_formed(self) -> bool {
        indexed(self@.pallets)
    }
}

impl View for RuntimeDeclarations {
    type V = Composition;

    open spec fn view(&self) -> Composition {
        Composition { pallets: declared(self.pallets@), auxiliary: self.auxiliary@ }
    }
}

/// Why the composer rejects a struct, if it does: it must carry the
/// abstraction attribute and name a known abstraction.
pub open spec fn marker_failure(attrs: Seq<Attribute>, name: Seq<char>) -> Option<Failure> {
    if !has_word(attrs, abstraction_word()) {
        Some(Failure::MissingMarkerAttribute(abstraction_word(), name))
    } else if ConstructAbstractions::named(name) is None {
        Some(Failure::UnrecognizedAbstractionName(name))
    } else {
        None
    }
}

/// Why the composer rejects a type alias, if it does: it must carry the
/// pallet attribute and bind a bare identifier.
pub open spec fn alias_failure(attrs: Seq<Attribute>, name: Seq<char>, target: TargetType) -> Option<
    Failure,
> {
    if !has_word(attrs, pallet_word()) {
        Some(Failure::MissingMarkerAttribute(pallet_word(), name))
    } else if target is Other {
        Some(Failure::MalformedTargetType(name))
    } else {
        None
    }
}

/// Why the composer rejects `item`, if it does. Items that are neither a
/// struct nor a type alias are accepted and ignored.
pub open spec fn item_failure(item: Item) -> Option<Failure> {
    match item {
        Item::Struct { attrs, name } => marker_failure(attrs@, name@),
        Item::TypeAlias { attrs, name, target } => alias_failure(attrs@, name@, target),
        _ => None,
    }
}

/// The (name, module) pairs of the abstraction that `name` stands for: its
/// table, in table order.
pub open spec fn marker_pallets(name: Seq<char>, tables: PalletTables) -> Seq<
    (Seq<char>, Seq<char>),
> {
    match ConstructAbstractions::named(name) {
        Some(kind) => tables.table(kind),
        None => Seq::empty(),
    }
}

/// The auxiliary block that goes with an abstraction, if any.
pub open spec fn auxiliary_of(kind: ConstructAbstractions) -> Seq<AuxiliaryBlock> {
    match kind {
        ConstructAbstractions::Consensus => seq![AuxiliaryBlock::ConsensusBlockValidation],
        ConstructAbstractions::Tanssi => seq![AuxiliaryBlock::TanssiBlockValidation],
        _ => Seq::empty(),
    }
}

/// The auxiliary blocks of the abstraction that `name` stands for.
pub open spec fn marker_auxiliary(name: Seq<char>) -> Seq<AuxiliaryBlock> {
    match ConstructAbstractions::named(name) {
        Some(kind) => auxiliary_of(kind),
        None => Seq::empty(),
    }
}

/// The (name, module) pairs that an accepted item contributes: a marker its
/// table, in table order; an alias itself; any other item nothing.
pub open spec fn contribution(item: Item, tables: PalletTables) -> Seq<(Seq<char>, Seq<char>)> {
    match item {
        Item::Struct { name, .. } => marker_pallets(name@, tables),
        Item::TypeAlias { name, target: TargetType::Bare(module), .. } => seq![(name@, module@)],
        _ => Seq::empty(),
    }
}

/// The auxiliary blocks that an accepted item contributes.
pub open spec fn auxiliary_contribution(item: Item) -> Seq<AuxiliaryBlock> {
    match item {
        Item::Struct { name, .. } => marker_auxiliary(name@),
        _ => Seq::empty(),
    }
}

/// The contributions of the first `upto` items, one after the other in source
/// order.
pub open spec fn flatten(items: Seq<Item>, tables: PalletTables, upto: int) -> Seq<
    (Seq<char>, Seq<char>),
>
    decreases upto,
{
    if upto <= 0 {
        Seq::empty()
    } else {
        flatten(items, tables, upto - 1) + contribution(items[upto - 1], tables)
    }
}

/// The auxiliary blocks of the first `upto` items, in source order.
pub open spec fn auxiliary(items: Seq<Item>, upto: int) -> Seq<AuxiliaryBlock>
    decreases upto,
{
    if upto <= 0 {
        Seq::empty()
    } else {
        auxiliary(items, upto - 1) + auxiliary_contribution(items[upto - 1])
    }
}

/// The pairs of `entries` with their positions as indices, counted from
/// `start`.
pub open spec fn numbered(entries: Seq<(Seq<char>, Seq<char>)>, start: int) -> Seq<Declared> {
    Seq::new(
        entries.len(),
        |k: int| Declared { index: start + k, name: entries[k].0, module: entries[k].1 },
    )
}

/// The least position at or after `from` of an item that the composer
/// rejects, or the length of `items` if it accepts all of them from there on.
pub open spec fn first_rejected(items: Seq<Item>, from: int) -> int
    decreases items.len() - from,
{
    if from < 0 || from >= items.len() {
        items.len() as int
    } else if item_failure(items[from]) is Some {
        from
    } else {
        first_rejected(items, from + 1)
    }
}

/// What composing `items` yields: the failure of the first rejected item, or
/// the flattened contributions of all items, numbered from 0, with the
/// auxiliary blocks.
pub open spec fn compose(items: Seq<Item>, tables: PalletTables) -> Result<Composition, Failure> {
    let at = first_rejected(items, 0);
    if at < items.len() {
        Err(item_failure(items[at])->Some_0)
    } else {
        Ok(
            Composition {
                pallets: numbered(flatten(items, tables, items.len() as int), 0),
                auxiliary: auxiliary(items, items.len() as int),
            },
        )
    }
}

/// The view of the composer's outcome.
pub open spec fn composed(r: Result<RuntimeDeclarations, ExpansionError>) -> Result<
    Composition,
    Failure,
> {
    match r {
        Ok(out) => Ok(out@),
        Err(e) => Err(e@),
    }
}

/// The number of declarations that the first `upto` items contribute: the
/// length of its table for each marker, one for each alias.
pub open spec fn declaration_count(items: Seq<Item>, tables: PalletTables, upto: int) -> nat
    decreases upto,
{
    if upto <= 0 {
        0
    } else {
        declaration_count(items, tables, upto - 1) + contribution(items[upto - 1], tables).len()
    }
}

/// The flattened contributions are as many as the items contribute one by
/// one, so the indices of a composition run from 0 to that number less one.
pub proof fn law_declaration_count(items: Seq<Item>, tables: PalletTables, upto: int)
    ensures
        flatten(items, tables, upto).len() == declaration_count(items, tables, upto),
        numbered(flatten(items, tables, upto), 0).len() == declaration_count(items, tables, upto),
        forall|k: int|
            0 <= k < declaration_count(items, tables, upto) ==> (#[trigger] numbered(
                flatten(items, tables, upto),
                0,
            )[k]).index == k,
    decreases upto,
{
    if upto > 0 {
        law_declaration_count(items, tables, upto - 1);
    }
}

impl PalletDeclaration {
    /// The text of the declaration.
    pub open spec fn rendered(self) -> Seq<char> {
        "#[runtime::pallet_index("@ + decimal(self.index as nat) + ")] pub type "@ + self.name@
            + " = "@ + self.module@ + ";"@
    }

    /// The declaration as source text: the index attribute, then the alias.
    pub fn render(&self) -> (text: String)
        ensures
            text@ == self.rendered(),
    {
        let index = index_literal(self.index);
        String::from_str("#[runtime::pallet_index(").concat(index.as_str()).concat(
            ")] pub type ",
        ).concat(self.name.as_str()).concat(" = ").concat(self.module.as_str()).concat(";")
    }
}

/// Appends the declaration of one pallet, at the next free index.
pub fn construct_pallet(pallets: &mut Vec<PalletDeclaration>, name: String, module: String)
    ensures
        declared(final(pallets)@) == declared(old(pallets)@).push(
            Declared { index: old(pallets)@.len() as int, name: name@, module: module@ },
        ),
        indexed(declared(old(pallets)@)) ==> indexed(declared(final(pallets)@)),
{
    let index = pallets.len();
    pallets.push(PalletDeclaration { index, name, module });
    assert(declared(pallets@) =~= declared(old(pallets)@).push(
        Declared { index: old(pallets)@.len() as int, name: name@, module: module@ },
    ));
}

/// Appends one declaration per entry of a table, in table order, at the next
/// free indices.
pub fn construct_abstraction(pallets: &mut Vec<PalletDeclaration>, entries: &Vec<PalletEntry>)
    ensures
        declared(final(pallets)@) == declared(old(pallets)@) + numbered(
            pairs(entries@),
            old(pallets)@.len() as int,
        ),
        indexed(declared(old(pallets)@)) ==> indexed(declared(final(pallets)@)),
{
    let ghost before = declared(pallets@);
    let mut i: usize = 0;
    while i < entries.len()
        invariant
            i <= entries.len(),
            before == declared(old(pallets)@),
            declared(pallets@) == before + numbered(pairs(entries@), before.len() as int).take(
                i as int,
            ),
        decreases entries.len() - i,
    {
        let ghost so_far = declared(pallets@);
        construct_pallet(pallets, entries[i].name.clone(), entries[i].module.clone());
        assert(declared(pallets@) =~= before + numbered(
            pairs(entries@),
            before.len() as int,
        ).take(i + 1)) by {
            let all = numbered(pairs(entries@), before.len() as int);
            assert(so_far.len() == before.len() + i);
            assert(all[i as int] == Declared {
                index: before.len() + i,
                name: entries@[i as int].name@,
                module: entries@[i as int].module@,
            });
            assert(all.take(i + 1) =~= all.take(i as int).push(all[i as int]));
        }
        i += 1;
    }
    assert(numbered(pairs(entries@), before.len() as int).take(i as int) =~= numbered(
        pairs(entries@),
        before.len() as int,
    ));
}

/// Numbering two lists one after the other is numbering their concatenation.
pub proof fn lemma_numbered_append(
    first: Seq<(Seq<char>, Seq<char>)>,
    second: Seq<(Seq<char>, Seq<char>)>,
    start: int,
)
    ensures
        numbered(first, start) + numbered(second, start + first.len()) == numbered(
            first + second,
            start,
        ),
{
    assert(numbered(first, start) + numbered(second, start + first.len()) =~= numbered(
        first + second,
        start,
    ));
}

/// Expands one struct into the pallets of the abstraction that it names, and
/// records the auxiliary block of that abstraction, if it has one.
pub fn parse_abstraction(
    attrs: &Vec<Attribute>,
    name: &String,
    tables: &PalletTables,
    out: &mut RuntimeDeclarations,
) -> (done: Result<(), ExpansionError>)
    ensures
        match done {
            Ok(_) => {
                &&& marker_failure(attrs@, name@) is None
                &&& final(out)@.pallets == old(out)@.pallets + numbered(
                    marker_pallets(name@, *tables),
                    old(out)@.pallets.len() as int,
                )
                &&& final(out)@.auxiliary == old(out)@.auxiliary + marker_auxiliary(name@)
                &&& old(out).well_formed() ==> final(out).well_formed()
            },
            Err(e) => marker_failure(attrs@, name@) == Some(e@) && final(out)@ == old(out)@,
        },
{
    if !has_attribute(attrs, "abstraction") {
        return Err(
            ExpansionError::MissingMarkerAttribute(String::from_str("abstraction"), name.clone()),
        );
    }
    let kind = match ConstructAbstractions::try_from(name.as_str()) {
        Ok(kind) => kind,
        Err(_) => {
            return Err(ExpansionError::UnrecognizedAbstractionName(name.clone()));
        },
    };
    construct_abstraction(&mut out.pallets, tables.entries(kind));
    match kind {
        ConstructAbstractions::Consensus => {
            out.auxiliary.push(AuxiliaryBlock::ConsensusBlockValidation);
        },
        ConstructAbstractions::Tanssi => {
            out.auxiliary.push(AuxiliaryBlock::TanssiBlockValidation);
        },
        _ => {},
    }
    assert(out@.auxiliary =~= old(out)@.auxiliary + marker_auxiliary(name@));
    Ok(())
}

/// Turns one explicit type alias into the declaration of a pallet.
pub fn parse_pallet(
    attrs: &Vec<Attribute>,
    name: &String,
    target: &TargetType,
    out: &mut RuntimeDeclarations,
) -> (done: Result<(), ExpansionError>)
    ensures
        match done {
            Ok(_) => {
                &&& alias_failure(attrs@, name@, *target) is None
                &&& target is Bare
                &&& final(out)@.pallets == old(out)@.pallets + numbered(
                    seq![(name@, target->Bare_0@)],
                    old(out)@.pallets.len() as int,
                )
                &&& final(out)@.auxiliary == old(out)@.auxiliary
                &&& old(out).well_formed() ==> final(out).well_formed()
            },
            Err(e) => alias_failure(attrs@, name@, *target) == Some(e@) && final(out)@ == old(out)@,
        },
{
    if !has_attribute(attrs, "pallet") {
        return Err(ExpansionError::MissingMarkerAttribute(String::from_str("pallet"), name.clone()));
    }
    let module = match fetch_ident(target) {
        Some(module) => module,
        None => {
            return Err(ExpansionError::MalformedTargetType(name.clone()));
        },
    };
    construct_pallet(&mut out.pallets, name.clone(), module);
    assert(out@.pallets =~= old(out)@.pallets + numbered(
        seq![(name@, target->Bare_0@)],
        old(out)@.pallets.len() as int,
    ));
    Ok(())
}

/// Composes the runtime: walks the module body in source order, expands each
/// abstraction marker into the pallets of its table and takes each explicit
/// pallet alias as it is. The indices are the positions in the resulting
/// list: they start at 0 and grow by one per declaration. The first rejected
/// item aborts the composition, and nothing is produced.
pub fn construct_openzeppelin_runtime(items: &Vec<Item>, tables: &PalletTables) -> (out: Result<
    RuntimeDeclarations,
    ExpansionError,
>)
    ensures
        composed(out) == compose(items@, *tables),
        out is Ok <==> forall|i: int| 0 <= i < items@.len() ==> item_failure(#[trigger] items@[i]) is None,
        match out {
            Ok(made) => {
                let flat = flatten(items@, *tables, items@.len() as int);
                &&& made.well_formed()
                &&& made.pallets@.len() == flat.len()
                &&& forall|k: int|
                    0 <= k < flat.len() ==> {
                        &&& (#[trigger] made.pallets@[k]).index == k
                        &&& made.pallets@[k].name@ == flat[k].0
                        &&& made.pallets@[k].module@ == flat[k].1
                    }
                &&& made.auxiliary@ == auxiliary(items@, items@.len() as int)
            },
            Err(e) => exists|i: int|
                0 <= i < items@.len() && item_failure(#[trigger] items@[i]) == Some(e@) && forall|
                    j: int,
                |
                    0 <= j < i ==> item_failure(#[trigger] items@[j]) is None,
        },
{
    let mut made = RuntimeDeclarations { pallets: Vec::new(), auxiliary: Vec::new() };
    assert(made@.pallets =~= numbered(flatten(items@, *tables, 0), 0));
    let mut i: usize = 0;
    while i < items.len()
        invariant
            i <= items.len(),
            forall|j: int| 0 <= j < i ==> item_failure(#[trigger] items@[j]) is None,
            first_rejected(items@, 0) == first_rejected(items@, i as int),
            made@.pallets == numbered(flatten(items@, *tables, i as int), 0),
            made@.auxiliary == auxiliary(items@, i as int),
        decreases items.len() - i,
    {
        let ghost flat = flatten(items@, *tables, i as int);
        let ghost before = made@;
        let done = match &items[i] {
            Item::Struct { attrs, name } => parse_abstraction(attrs, name, tables, &mut made),
            Item::TypeAlias { attrs, name, target } => parse_pallet(attrs, name, target, &mut made),
            _ => Ok(()),
        };
        match done {
            Ok(_) => {},
            Err(e) => {
                assert(item_failure(items@[i as int]) == Some(e@));
                return Err(e);
            },
        }
        proof {
            lemma_numbered_append(flat, contribution(items@[i as int], *tables), 0);
            assert(made@.pallets == numbered(flatten(items@, *tables, i + 1), 0));
            assert(made@.auxiliary =~= auxiliary(items@, i + 1));
        }
        i += 1;
    }
    proof {
        let flat = flatten(items@, *tables, items@.len() as int);
        assert(declared(made.pallets@).len() == flat.len());
        assert forall|k: int| 0 <= k < flat.len() implies {
            &&& (#[trigger] made.pallets@[k]).index == k
            &&& made.pallets@[k].name@ == flat[k].0
            &&& made.pallets@[k].module@ == flat[k].1
        } by {
            assert(declared(made.pallets@)[k] == made.pallets@[k]@);
            assert(numbered(flat, 0)[k].index == k);
        }
    }
    Ok(made)
}

/// In a list whose declarations carry their positions as indices, no two
/// declarations share an index, and the last index is the number of
/// declarations less one.
pub proof fn law_indices_distinct(pallets: Seq<Declared>)
    requires
        indexed(pallets),
    ensures
        forall|j: int, k: int|
            0 <= j < pallets.len() && 0 <= k < pallets.len() && j != k ==> (#[trigger] pallets[j]).index
                != (#[trigger] pallets[k]).index,
        pallets.len() > 0 ==> pallets.last().index == pallets.len() - 1,
{
}

/// Composing is a function of the module body and the tables: two runs on
/// the same input yield the same declarations, index by index, or the same
/// failure.
pub proof fn law_runtime_deterministic(
    items: Seq<Item>,
    tables: PalletTables,
    first: Result<RuntimeDeclarations, ExpansionError>,
    second: Result<RuntimeDeclarations, ExpansionError>,
)
    requires
        composed(first) == compose(items, tables),
        composed(second) == compose(items, tables),
    ensures
        composed(first) == composed(second),
        first is Ok ==> second is Ok && first->Ok_0@.pallets == second->Ok_0@.pallets
            && first->Ok_0@.auxiliary == second->Ok_0@.auxiliary,
        first is Err ==> second is Err && first->Err_0@ == second->Err_0@,
{
}

} // verus!
