//! The tree model and its mathematical semantics.
//!
//! Exec types mirror a standard module grammar: a module is an ordered list of
//! items; an item is an exported declaration, a plain declaration statement,
//! or an opaque statement; a variable declaration owns an ordered list of
//! declarators; a declarator owns a binding and an optional initializer.
//! Everything the transform never reads is carried in an opaque payload of
//! type `X`, moved through unchanged.
//!
//! The spec functions at the end define the transform itself over view types:
//! which declarators match the denylist, how declarator lists are compacted,
//! and which items survive.

use vstd::prelude::*;

verus! {

// ---------------------------------------------------------------------------
// Exec tree types
// ---------------------------------------------------------------------------

/// How a declarator binds its value.
#[derive(Debug, Clone, PartialEq, Eq)]
pub enum Binding<X> {
    /// A simple identifier binding. `name` is the identifier's text, the one
    /// thing the matcher reads; `node` carries the host's own identifier node
    /// through opaquely, so a surviving declarator passes back unchanged.
    Ident { name: String, node: X },
    /// Any other binding shape (destructuring and the like): never matched,
    /// never altered.
    Pattern(X),
}

/// One name-to-initializer binding inside a variable declaration.
#[derive(Debug, Clone, PartialEq, Eq)]
pub struct Declarator<X> {
    /// What the declarator binds.
    pub binding: Binding<X>,
    /// The owned initializer expression, opaque: never inspected.
    pub init: Option<X>,
    /// Whatever else the host grammar keeps on a declarator (positions and
    /// the like), opaque.
    pub meta: X,
}

/// A declaration: the variable case with its declarators, or any other
/// declaration kind, carried through opaquely.
#[derive(Debug, Clone, PartialEq, Eq)]
pub enum Decl<X> {
    /// A variable declaration. `meta` carries the host's declaration
    /// attributes (kind, positions), opaque. The grammar guarantees a
    /// non-empty declarator list on input.
    Var { meta: X, declarators: Vec<Declarator<X>> },
    /// Any other declaration (a function, a class), never touched.
    Other(X),
}

/// One top-level module item.
#[derive(Debug, Clone, PartialEq, Eq)]
pub enum Item<X> {
    /// An export-wrapped declaration. `meta` carries the export wrapper's own
    /// attributes, opaque.
    Exported { meta: X, decl: Decl<X> },
    /// A plain (non-exported) declaration statement.
    Plain(Decl<X>),
    /// Any other statement or module-level form, never touched.
    Opaque(X),
}

/// One module: an ordered list of top-level items.
#[derive(Debug, Clone, PartialEq, Eq)]
pub struct Module<X> {
    pub items: Vec<Item<X>>,
}

// ---------------------------------------------------------------------------
// View types: the same tree over mathematical sequences
// ---------------------------------------------------------------------------

/// View of a [`Binding`]: the identifier's text as a sequence of characters.
#[verifier::ext_equal]
pub enum BindingV<X> {
    Ident { name: Seq<char>, node: X },
    Pattern(X),
}

/// View of a [`Declarator`].
#[verifier::ext_equal]
pub struct DeclaratorV<X> {
    pub binding: BindingV<X>,
    pub init: Option<X>,
    pub meta: X,
}

/// View of a [`Decl`].
#[verifier::ext_equal]
pub enum DeclV<X> {
    Var { meta: X, declarators: Seq<DeclaratorV<X>> },
    Other(X),
}

/// View of an [`Item`].
#[verifier::ext_equal]
pub enum ItemV<X> {
    Exported { meta: X, decl: DeclV<X> },
    Plain(DeclV<X>),
    Opaque(X),
}

pub open spec fn binding_view<X>(b: Binding<X>) -> BindingV<X> {
    match b {
        Binding::Ident { name, node } => BindingV::Ident { name: name@, node },
        Binding::Pattern(x) => BindingV::Pattern(x),
    }
}

pub open spec fn declarator_view<X>(d: Declarator<X>) -> DeclaratorV<X> {
    DeclaratorV { binding: binding_view(d.binding), init: d.init, meta: d.meta }
}

pub open spec fn declarators_view<X>(ds: Seq<Declarator<X>>) -> Seq<DeclaratorV<X>> {
    ds.map_values(|d: Declarator<X>| declarator_view(d))
}

pub open spec fn decl_view<X>(d: Decl<X>) -> DeclV<X> {
    match d {
        Decl::Var { meta, declarators } => DeclV::Var {
            meta,
            declarators: declarators_view(declarators@),
        },
        Decl::Other(x) => DeclV::Other(x),
    }
}

pub open spec fn item_view<X>(it: Item<X>) -> ItemV<X> {
    match it {
        Item::Exported { meta, decl } => ItemV::Exported { meta, decl: decl_view(decl) },
        Item::Plain(d) => ItemV::Plain(decl_view(d)),
        Item::Opaque(x) => ItemV::Opaque(x),
    }
}

pub open spec fn items_view<X>(items: Seq<Item<X>>) -> Seq<ItemV<X>> {
    items.map_values(|it: Item<X>| item_view(it))
}

/// View of a [`Module`]: the sequence of its item views.
pub open spec fn module_view<X>(m: Module<X>) -> Seq<ItemV<X>> {
    items_view(m.items@)
}

// ---------------------------------------------------------------------------
// Configuration view
// ---------------------------------------------------------------------------

/// View of the transform's configuration: the denylist as character
/// sequences, and the policy choice of whether matching is restricted to
/// export-wrapped declarations.
#[verifier::ext_equal]
pub struct ConfigV {
    pub names: Seq<Seq<char>>,
    pub match_exported_only: bool,
}

// ---------------------------------------------------------------------------
// The transform, as spec functions over views
// ---------------------------------------------------------------------------

/// A declarator matches when its binding is the simple-identifier case and
/// the identifier's text equals (case-sensitively) one denylist entry. Every
/// other binding shape never matches.
pub open spec fn declarator_matches_spec<X>(d: DeclaratorV<X>, names: Seq<Seq<char>>) -> bool {
    match d.binding {
        BindingV::Ident { name, node: _ } => names.contains(name),
        BindingV::Pattern(_) => false,
    }
}

/// Declarator-list compaction: remove every matching declarator, preserving
/// the order of the rest.
pub open spec fn strip_declarators_spec<X>(
    ds: Seq<DeclaratorV<X>>,
    names: Seq<Seq<char>>,
) -> Seq<DeclaratorV<X>>
    decreases ds.len(),
{
    if ds.len() == 0 {
        Seq::empty()
    } else if declarator_matches_spec(ds.first(), names) {
        strip_declarators_spec(ds.drop_first(), names)
    } else {
        seq![ds.first()] + strip_declarators_spec(ds.drop_first(), names)
    }
}

/// Transform one declaration: compact a variable declaration's declarator
/// list; leave every other declaration kind untouched.
pub open spec fn strip_decl_spec<X>(d: DeclV<X>, names: Seq<Seq<char>>) -> DeclV<X> {
    match d {
        DeclV::Var { meta, declarators } => DeclV::Var {
            meta,
            declarators: strip_declarators_spec(declarators, names),
        },
        DeclV::Other(x) => DeclV::Other(x),
    }
}

/// Transform one item. Matching always applies inside an export-wrapped
/// declaration; it applies inside a plain declaration only when the
/// configuration does not restrict matching to exported bindings. Opaque
/// items pass through unchanged.
pub open spec fn strip_item_spec<X>(it: ItemV<X>, cfg: ConfigV) -> ItemV<X> {
    match it {
        ItemV::Exported { meta, decl } => ItemV::Exported {
            meta,
            decl: strip_decl_spec(decl, cfg.names),
        },
        ItemV::Plain(d) => if cfg.match_exported_only {
            ItemV::Plain(d)
        } else {
            ItemV::Plain(strip_decl_spec(d, cfg.names))
        },
        ItemV::Opaque(x) => ItemV::Opaque(x),
    }
}

/// An item survives item-list compaction unless it is a variable declaration
/// (exported or plain) whose declarator list is empty. On input, the grammar
/// guarantees non-empty declarator lists, so this predicate doubles as the
/// well-formedness of a single item.
pub open spec fn item_survives_spec<X>(it: ItemV<X>) -> bool {
    match it {
        ItemV::Exported { meta: _, decl: DeclV::Var { meta: _, declarators } } => declarators.len()
            > 0,
        ItemV::Plain(DeclV::Var { meta: _, declarators }) => declarators.len() > 0,
        _ => true,
    }
}

/// A well-formed item list: no variable declaration with an empty declarator
/// list. Holds of every tree a parser produces, and of every tree the
/// transform returns.
pub open spec fn module_wf<X>(items: Seq<ItemV<X>>) -> bool {
    forall|i: int| 0 <= i < items.len() ==> item_survives_spec(#[trigger] items[i])
}

/// The whole transform over an item list: transform each item, then keep, in
/// order, exactly the items that survive compaction.
pub open spec fn strip_items_spec<X>(items: Seq<ItemV<X>>, cfg: ConfigV) -> Seq<ItemV<X>>
    decreases items.len(),
{
    if items.len() == 0 {
        Seq::empty()
    } else {
        let head = strip_item_spec(items.first(), cfg);
        let rest = strip_items_spec(items.drop_first(), cfg);
        if item_survives_spec(head) {
            seq![head] + rest
        } else {
            rest
        }
    }
}

} // verus!
