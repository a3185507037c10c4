//! The laws of the transform, stated and proved over the spec functions of
//! [`crate::model`].

use vstd::prelude::*;

use crate::model::BindingV;
use crate::model::ConfigV;
use crate::model::DeclV;
use crate::model::DeclaratorV;
use crate::model::ItemV;
use crate::model::declarator_matches_spec;
use crate::model::item_survives_spec;
use crate::model::module_wf;
use crate::model::strip_decl_spec;
use crate::model::strip_declarators_spec;
use crate::model::strip_item_spec;
use crate::model::strip_items_spec;

verus! {

// ---------------------------------------------------------------------------
// Predicates the laws speak of
// ---------------------------------------------------------------------------

/// No declarator of the sequence matches the denylist.
pub open spec fn no_declarator_matches<X>(ds: Seq<DeclaratorV<X>>, names: Seq<Seq<char>>) -> bool {
    forall|k: int| 0 <= k < ds.len() ==> !declarator_matches_spec(#[trigger] ds[k], names)
}

/// Every declarator of the sequence matches the denylist.
pub open spec fn all_declarators_match<X>(ds: Seq<DeclaratorV<X>>, names: Seq<Seq<char>>) -> bool {
    forall|k: int| 0 <= k < ds.len() ==> declarator_matches_spec(#[trigger] ds[k], names)
}

/// Under the configuration, the matcher finds nothing to remove in this item:
/// its declarators use no denylisted name, or matching does not apply to it.
pub open spec fn item_has_no_match<X>(it: ItemV<X>, cfg: ConfigV) -> bool {
    match it {
        ItemV::Exported { meta: _, decl: DeclV::Var { meta: _, declarators } } => {
            no_declarator_matches(declarators, cfg.names)
        },
        ItemV::Plain(DeclV::Var { meta: _, declarators }) => {
            cfg.match_exported_only || no_declarator_matches(declarators, cfg.names)
        },
        _ => true,
    }
}

/// The shape `export const <name> = <expr>;` with `<name>` in the denylist,
/// and generally any export-wrapped variable declaration every declarator of
/// which matches: the transform removes such an item whole.
pub open spec fn export_fully_matched<X>(it: ItemV<X>, names: Seq<Seq<char>>) -> bool {
    match it {
        ItemV::Exported { meta: _, decl: DeclV::Var { meta: _, declarators } } => {
            declarators.len() > 0 && all_declarators_match(declarators, names)
        },
        _ => false,
    }
}

// ---------------------------------------------------------------------------
// Declarator-level lemmas
// ---------------------------------------------------------------------------

/// A declarator whose binding is not a simple identifier never matches,
/// whatever the denylist holds.
pub proof fn lemma_pattern_never_matches<X>(d: DeclaratorV<X>, names: Seq<Seq<char>>)
    requires
        d.binding is Pattern,
    ensures
        !declarator_matches_spec(d, names),
{
}

/// Declarator-list compaction leaves a list with no matching declarator
/// exactly as it was: non-matching declarators are never removed or altered,
/// and removing one declarator never removes its non-matching siblings.
pub proof fn lemma_strip_declarators_no_match<X>(ds: Seq<DeclaratorV<X>>, names: Seq<Seq<char>>)
    requires
        no_declarator_matches(ds, names),
    ensures
        strip_declarators_spec(ds, names) == ds,
    decreases ds.len(),
{
    if ds.len() == 0 {
        assert(strip_declarators_spec(ds, names) =~= ds);
    } else {
        assert(ds.first() == ds[0]);
        assert(!declarator_matches_spec(ds.first(), names));
        assert forall|k: int| 0 <= k < ds.drop_first().len() implies !declarator_matches_spec(
            #[trigger] ds.drop_first()[k],
            names,
        ) by {
            assert(ds.drop_first()[k] == ds[k + 1]);
        }
        lemma_strip_declarators_no_match(ds.drop_first(), names);
        assert(seq![ds.first()] + ds.drop_first() =~= ds);
    }
}

/// A list bound entirely by non-identifier patterns is left untouched.
pub proof fn lemma_pattern_declarators_untouched<X>(
    ds: Seq<DeclaratorV<X>>,
    names: Seq<Seq<char>>,
)
    requires
        forall|k: int| 0 <= k < ds.len() ==> (#[trigger] ds[k]).binding is Pattern,
    ensures
        strip_declarators_spec(ds, names) == ds,
{
    assert forall|k: int| 0 <= k < ds.len() implies !declarator_matches_spec(
        #[trigger] ds[k],
        names,
    ) by {
        lemma_pattern_never_matches(ds[k], names);
    }
    lemma_strip_declarators_no_match(ds, names);
}

/// Compacting a list every declarator of which matches empties it.
pub proof fn lemma_strip_declarators_all_match<X>(ds: Seq<DeclaratorV<X>>, names: Seq<Seq<char>>)
    requires
        all_declarators_match(ds, names),
    ensures
        strip_declarators_spec(ds, names) == Seq::<DeclaratorV<X>>::empty(),
    decreases ds.len(),
{
    if ds.len() == 0 {
        assert(strip_declarators_spec(ds, names) =~= Seq::<DeclaratorV<X>>::empty());
    } else {
        assert(ds.first() == ds[0]);
        assert forall|k: int| 0 <= k < ds.drop_first().len() implies declarator_matches_spec(
            #[trigger] ds.drop_first()[k],
            names,
        ) by {
            assert(ds.drop_first()[k] == ds[k + 1]);
        }
        lemma_strip_declarators_all_match(ds.drop_first(), names);
    }
}

/// Removing a declarator never removes its siblings: every non-matching
/// declarator of the input list appears in the compacted list.
pub proof fn lemma_nonmatching_declarator_survives<X>(
    ds: Seq<DeclaratorV<X>>,
    names: Seq<Seq<char>>,
    i: int,
)
    requires
        0 <= i < ds.len(),
        !declarator_matches_spec(ds[i], names),
    ensures
        exists|k: int|
            0 <= k < strip_declarators_spec(ds, names).len() && strip_declarators_spec(ds, names)[k]
                == ds[i],
    decreases ds.len(),
{
    let out = strip_declarators_spec(ds, names);
    let rest = strip_declarators_spec(ds.drop_first(), names);
    if i == 0 {
        assert(ds.first() == ds[0]);
        assert(out[0] == ds[0]);
    } else {
        assert(ds.drop_first()[i - 1] == ds[i]);
        lemma_nonmatching_declarator_survives(ds.drop_first(), names, i - 1);
        let k = choose|k: int| 0 <= k < rest.len() && rest[k] == ds.drop_first()[i - 1];
        if declarator_matches_spec(ds.first(), names) {
            assert(out[k] == rest[k]);
        } else {
            assert(out[k + 1] == rest[k]);
        }
    }
}

/// No declarator of a compacted list still matches.
pub proof fn lemma_strip_declarators_result_no_match<X>(
    ds: Seq<DeclaratorV<X>>,
    names: Seq<Seq<char>>,
)
    ensures
        no_declarator_matches(strip_declarators_spec(ds, names), names),
    decreases ds.len(),
{
    if ds.len() == 0 {
    } else {
        lemma_strip_declarators_result_no_match(ds.drop_first(), names);
        if !declarator_matches_spec(ds.first(), names) {
            let rest = strip_declarators_spec(ds.drop_first(), names);
            let res = seq![ds.first()] + rest;
            assert forall|k: int| 0 <= k < res.len() implies !declarator_matches_spec(
                #[trigger] res[k],
                names,
            ) by {
                if k > 0 {
                    assert(res[k] == rest[k - 1]);
                }
            }
        }
    }
}

// ---------------------------------------------------------------------------
// Item-level lemmas
// ---------------------------------------------------------------------------

/// An item in which the matcher finds nothing is returned exactly as it was.
pub proof fn lemma_strip_item_no_match<X>(it: ItemV<X>, cfg: ConfigV)
    requires
        item_has_no_match(it, cfg),
    ensures
        strip_item_spec(it, cfg) == it,
{
    match it {
        ItemV::Exported { meta: _, decl } => {
            match decl {
                DeclV::Var { meta: _, declarators } => {
                    lemma_strip_declarators_no_match(declarators, cfg.names);
                },
                DeclV::Other(_) => {},
            }
        },
        ItemV::Plain(d) => {
            if !cfg.match_exported_only {
                match d {
                    DeclV::Var { meta: _, declarators } => {
                        lemma_strip_declarators_no_match(declarators, cfg.names);
                    },
                    DeclV::Other(_) => {},
                }
            }
        },
        ItemV::Opaque(_) => {},
    }
}

/// Transforming an item twice is the same as transforming it once.
pub proof fn lemma_strip_item_idempotent<X>(it: ItemV<X>, cfg: ConfigV)
    ensures
        strip_item_spec(strip_item_spec(it, cfg), cfg) == strip_item_spec(it, cfg),
{
    match it {
        ItemV::Exported { meta: _, decl } => {
            match decl {
                DeclV::Var { meta: _, declarators } => {
                    lemma_strip_declarators_result_no_match(declarators, cfg.names);
                    lemma_strip_declarators_no_match(
                        strip_declarators_spec(declarators, cfg.names),
                        cfg.names,
                    );
                },
                DeclV::Other(_) => {},
            }
        },
        ItemV::Plain(d) => {
            if !cfg.match_exported_only {
                match d {
                    DeclV::Var { meta: _, declarators } => {
                        lemma_strip_declarators_result_no_match(declarators, cfg.names);
                        lemma_strip_declarators_no_match(
                            strip_declarators_spec(declarators, cfg.names),
                            cfg.names,
                        );
                    },
                    DeclV::Other(_) => {},
                }
            }
        },
        ItemV::Opaque(_) => {},
    }
}

// ---------------------------------------------------------------------------
// Item-list lemmas
// ---------------------------------------------------------------------------

/// Every item of a transformed item list survives compaction: no variable
/// declaration with an empty declarator list remains in any output, whatever
/// the input.
pub proof fn lemma_strip_items_wf<X>(items: Seq<ItemV<X>>, cfg: ConfigV)
    ensures
        module_wf(strip_items_spec(items, cfg)),
    decreases items.len(),
{
    if items.len() == 0 {
    } else {
        lemma_strip_items_wf(items.drop_first(), cfg);
        let head = strip_item_spec(items.first(), cfg);
        let rest = strip_items_spec(items.drop_first(), cfg);
        if item_survives_spec(head) {
            let res = seq![head] + rest;
            assert forall|i: int| 0 <= i < res.len() implies item_survives_spec(
                #[trigger] res[i],
            ) by {
                if i > 0 {
                    assert(res[i] == rest[i - 1]);
                }
            }
        }
    }
}

/// The transform distributes over concatenation of item lists: each item's
/// fate depends on that item alone.
pub proof fn lemma_strip_items_concat<X>(a: Seq<ItemV<X>>, b: Seq<ItemV<X>>, cfg: ConfigV)
    ensures
        strip_items_spec(a + b, cfg) == strip_items_spec(a, cfg) + strip_items_spec(b, cfg),
    decreases a.len(),
{
    if a.len() == 0 {
        assert(a + b =~= b);
        assert(strip_items_spec(a, cfg) + strip_items_spec(b, cfg) =~= strip_items_spec(b, cfg));
    } else {
        lemma_strip_items_concat(a.drop_first(), b, cfg);
        assert((a + b).first() == a.first());
        assert((a + b).drop_first() =~= a.drop_first() + b);
        let head = strip_item_spec(a.first(), cfg);
        let ra = strip_items_spec(a.drop_first(), cfg);
        let rb = strip_items_spec(b, cfg);
        assert(strip_items_spec((a + b).drop_first(), cfg) == ra + rb);
        if item_survives_spec(head) {
            assert(strip_items_spec(a + b, cfg) == seq![head] + (ra + rb));
            assert(seq![head] + (ra + rb) =~= (seq![head] + ra) + rb);
        }
    }
}

/// The transform of a one-item list: the transformed item alone if it
/// survives compaction, nothing otherwise.
pub proof fn lemma_strip_items_singleton<X>(it: ItemV<X>, cfg: ConfigV)
    ensures
        strip_items_spec(seq![it], cfg) == (if item_survives_spec(strip_item_spec(it, cfg)) {
            seq![strip_item_spec(it, cfg)]
        } else {
            Seq::<ItemV<X>>::empty()
        }),
{
    let s = seq![it];
    assert(s.first() == it);
    assert(s.drop_first() =~= Seq::<ItemV<X>>::empty());
    assert(strip_items_spec(s.drop_first(), cfg) =~= Seq::<ItemV<X>>::empty());
    if item_survives_spec(strip_item_spec(it, cfg)) {
        assert(strip_items_spec(s, cfg) =~= seq![strip_item_spec(it, cfg)]);
    }
}

// ---------------------------------------------------------------------------
// The laws
// ---------------------------------------------------------------------------

/// Non-match preservation: a well-formed module in which the matcher finds
/// nothing to remove is returned exactly as it was.
pub proof fn lemma_non_match_preservation<X>(items: Seq<ItemV<X>>, cfg: ConfigV)
    requires
        module_wf(items),
        forall|i: int| 0 <= i < items.len() ==> item_has_no_match(#[trigger] items[i], cfg),
    ensures
        strip_items_spec(items, cfg) == items,
    decreases items.len(),
{
    if items.len() == 0 {
        assert(strip_items_spec(items, cfg) =~= items);
    } else {
        assert(items.first() == items[0]);
        lemma_strip_item_no_match(items.first(), cfg);
        assert(item_survives_spec(strip_item_spec(items.first(), cfg)));
        assert forall|k: int| 0 <= k < items.drop_first().len() implies item_has_no_match(
            #[trigger] items.drop_first()[k],
            cfg,
        ) && item_survives_spec(items.drop_first()[k]) by {
            assert(items.drop_first()[k] == items[k + 1]);
        }
        lemma_non_match_preservation(items.drop_first(), cfg);
        assert(seq![items.first()] + items.drop_first() =~= items);
    }
}

/// Empty-denylist identity: with no names to match, the transform is the
/// identity on every well-formed module.
pub proof fn lemma_empty_denylist_identity<X>(items: Seq<ItemV<X>>, cfg: ConfigV)
    requires
        module_wf(items),
        cfg.names.len() == 0,
    ensures
        strip_items_spec(items, cfg) == items,
{
    assert forall|i: int| 0 <= i < items.len() implies item_has_no_match(
        #[trigger] items[i],
        cfg,
    ) by {
        match items[i] {
            ItemV::Exported { meta: _, decl: DeclV::Var { meta: _, declarators } } => {
                assert forall|k: int| 0 <= k < declarators.len()
                    implies !declarator_matches_spec(#[trigger] declarators[k], cfg.names) by {
                    match declarators[k].binding {
                        BindingV::Ident { name, node: _ } => {
                            assert(!cfg.names.contains(name));
                        },
                        BindingV::Pattern(_) => {},
                    }
                }
            },
            ItemV::Plain(DeclV::Var { meta: _, declarators }) => {
                assert forall|k: int| 0 <= k < declarators.len()
                    implies !declarator_matches_spec(#[trigger] declarators[k], cfg.names) by {
                    match declarators[k].binding {
                        BindingV::Ident { name, node: _ } => {
                            assert(!cfg.names.contains(name));
                        },
                        BindingV::Pattern(_) => {},
                    }
                }
            },
            _ => {},
        }
    }
    lemma_non_match_preservation(items, cfg);
}

/// Idempotence: applying the transform to its own output changes nothing
/// further.
pub proof fn lemma_idempotent<X>(items: Seq<ItemV<X>>, cfg: ConfigV)
    ensures
        strip_items_spec(strip_items_spec(items, cfg), cfg) == strip_items_spec(items, cfg),
    decreases items.len(),
{
    if items.len() == 0 {
    } else {
        lemma_idempotent(items.drop_first(), cfg);
        let head = strip_item_spec(items.first(), cfg);
        let rest = strip_items_spec(items.drop_first(), cfg);
        if item_survives_spec(head) {
            lemma_strip_items_concat(seq![head], rest, cfg);
            lemma_strip_item_idempotent(items.first(), cfg);
            lemma_strip_items_singleton(head, cfg);
            assert(strip_items_spec(seq![head], cfg) =~= seq![head]);
            assert(strip_items_spec(items, cfg) == seq![head] + rest);
        }
    }
}

/// Targeted removal: in a well-formed module whose other items the matcher
/// leaves alone, an export-wrapped variable declaration every declarator of
/// which matches (such as `export const <name> = <expr>;` with `<name>`
/// denylisted) is removed whole, and the output is the input with exactly
/// that one item deleted.
pub proof fn lemma_targeted_removal<X>(items: Seq<ItemV<X>>, i: int, cfg: ConfigV)
    requires
        module_wf(items),
        0 <= i < items.len(),
        export_fully_matched(items[i], cfg.names),
        forall|j: int| 0 <= j < items.len() && j != i ==> item_has_no_match(
            #[trigger] items[j],
            cfg,
        ),
    ensures
        strip_items_spec(items, cfg) == items.remove(i),
{
    let a = items.subrange(0, i);
    let b = items.subrange(i + 1, items.len() as int);
    let x = seq![items[i]];
    assert(items =~= (a + x) + b);
    lemma_strip_items_concat(a + x, b, cfg);
    lemma_strip_items_concat(a, x, cfg);
    assert forall|k: int| 0 <= k < a.len() implies item_has_no_match(#[trigger] a[k], cfg)
        && item_survives_spec(a[k]) by {
        assert(a[k] == items[k]);
    }
    assert forall|k: int| 0 <= k < b.len() implies item_has_no_match(#[trigger] b[k], cfg)
        && item_survives_spec(b[k]) by {
        assert(b[k] == items[k + i + 1]);
    }
    lemma_non_match_preservation(a, cfg);
    lemma_non_match_preservation(b, cfg);
    lemma_strip_items_singleton(items[i], cfg);
    match items[i] {
        ItemV::Exported { meta: _, decl: DeclV::Var { meta: _, declarators } } => {
            lemma_strip_declarators_all_match(declarators, cfg.names);
        },
        _ => {},
    }
    assert(strip_items_spec(x, cfg) =~= Seq::<ItemV<X>>::empty());
    assert(strip_items_spec(items, cfg) =~= a + b);
    assert(items.remove(i) =~= a + b);
}

/// Multi-match independence: two fully matched export-wrapped declarations
/// are both removed, and the items between and around them survive in their
/// original relative order.
pub proof fn lemma_multi_match_independence<X>(items: Seq<ItemV<X>>, i: int, j: int, cfg: ConfigV)
    requires
        module_wf(items),
        0 <= i < j < items.len(),
        export_fully_matched(items[i], cfg.names),
        export_fully_matched(items[j], cfg.names),
        forall|k: int| 0 <= k < items.len() && k != i && k != j ==> item_has_no_match(
            #[trigger] items[k],
            cfg,
        ),
    ensures
        strip_items_spec(items, cfg) == items.subrange(0, i) + items.subrange(i + 1, j)
            + items.subrange(j + 1, items.len() as int),
{
    let a = items.subrange(0, i);
    let b = items.subrange(i + 1, j);
    let c = items.subrange(j + 1, items.len() as int);
    let x = seq![items[i]];
    let y = seq![items[j]];
    assert(items =~= (((a + x) + b) + y) + c);
    lemma_strip_items_concat(((a + x) + b) + y, c, cfg);
    lemma_strip_items_concat((a + x) + b, y, cfg);
    lemma_strip_items_concat(a + x, b, cfg);
    lemma_strip_items_concat(a, x, cfg);
    assert forall|k: int| 0 <= k < a.len() implies item_has_no_match(#[trigger] a[k], cfg)
        && item_survives_spec(a[k]) by {
        assert(a[k] == items[k]);
    }
    assert forall|k: int| 0 <= k < b.len() implies item_has_no_match(#[trigger] b[k], cfg)
        && item_survives_spec(b[k]) by {
        assert(b[k] == items[k + i + 1]);
    }
    assert forall|k: int| 0 <= k < c.len() implies item_has_no_match(#[trigger] c[k], cfg)
        && item_survives_spec(c[k]) by {
        assert(c[k] == items[k + j + 1]);
    }
    lemma_non_match_preservation(a, cfg);
    lemma_non_match_preservation(b, cfg);
    lemma_non_match_preservation(c, cfg);
    lemma_strip_items_singleton(items[i], cfg);
    lemma_strip_items_singleton(items[j], cfg);
    match items[i] {
        ItemV::Exported { meta: _, decl: DeclV::Var { meta: _, declarators } } => {
            lemma_strip_declarators_all_match(declarators, cfg.names);
        },
        _ => {},
    }
    match items[j] {
        ItemV::Exported { meta: _, decl: DeclV::Var { meta: _, declarators } } => {
            lemma_strip_declarators_all_match(declarators, cfg.names);
        },
        _ => {},
    }
    assert(strip_items_spec(x, cfg) =~= Seq::<ItemV<X>>::empty());
    assert(strip_items_spec(y, cfg) =~= Seq::<ItemV<X>>::empty());
    assert(strip_items_spec(items, cfg) =~= a + b + c);
}

/// Every surviving item appears in the output.
pub proof fn lemma_surviving_item_in_output<X>(items: Seq<ItemV<X>>, cfg: ConfigV, i: int)
    requires
        0 <= i < items.len(),
        item_survives_spec(strip_item_spec(items[i], cfg)),
    ensures
        exists|k: int|
            0 <= k < strip_items_spec(items, cfg).len() && strip_items_spec(items, cfg)[k]
                == strip_item_spec(items[i], cfg),
    decreases items.len(),
{
    let out = strip_items_spec(items, cfg);
    let head = strip_item_spec(items.first(), cfg);
    let rest = strip_items_spec(items.drop_first(), cfg);
    if i == 0 {
        assert(items.first() == items[0]);
        assert(out[0] == strip_item_spec(items[0], cfg));
    } else {
        assert(items.drop_first()[i - 1] == items[i]);
        lemma_surviving_item_in_output(items.drop_first(), cfg, i - 1);
        let k = choose|k: int|
            0 <= k < rest.len() && rest[k] == strip_item_spec(items.drop_first()[i - 1], cfg);
        if item_survives_spec(head) {
            assert(out[k + 1] == rest[k]);
        } else {
            assert(out[k] == rest[k]);
        }
    }
}

/// Order preservation: any two surviving items stand in the output in the
/// same relative order as in the input.
pub proof fn lemma_order_preservation<X>(items: Seq<ItemV<X>>, cfg: ConfigV, i: int, j: int)
    requires
        0 <= i < j < items.len(),
        item_survives_spec(strip_item_spec(items[i], cfg)),
        item_survives_spec(strip_item_spec(items[j], cfg)),
    ensures
        exists|k: int, l: int|
            0 <= k < l < strip_items_spec(items, cfg).len() && strip_items_spec(items, cfg)[k]
                == strip_item_spec(items[i], cfg) && strip_items_spec(items, cfg)[l]
                == strip_item_spec(items[j], cfg),
    decreases items.len(),
{
    let out = strip_items_spec(items, cfg);
    let head = strip_item_spec(items.first(), cfg);
    let rest = strip_items_spec(items.drop_first(), cfg);
    if i == 0 {
        assert(items.first() == items[0]);
        assert(out[0] == strip_item_spec(items[0], cfg));
        assert(items.drop_first()[j - 1] == items[j]);
        lemma_surviving_item_in_output(items.drop_first(), cfg, j - 1);
        let l = choose|l: int|
            0 <= l < rest.len() && rest[l] == strip_item_spec(items.drop_first()[j - 1], cfg);
        assert(out[l + 1] == rest[l]);
        assert(0 <= 0 < l + 1 < out.len() && out[0] == strip_item_spec(items[i], cfg) && out[l + 1]
            == strip_item_spec(items[j], cfg));
    } else {
        assert(items.drop_first()[i - 1] == items[i]);
        assert(items.drop_first()[j - 1] == items[j]);
        lemma_order_preservation(items.drop_first(), cfg, i - 1, j - 1);
        let (k, l) = choose|k: int, l: int|
            0 <= k < l < rest.len() && rest[k] == strip_item_spec(items.drop_first()[i - 1], cfg)
                && rest[l] == strip_item_spec(items.drop_first()[j - 1], cfg);
        if item_survives_spec(head) {
            assert(out[k + 1] == rest[k]);
            assert(out[l + 1] == rest[l]);
            assert(0 <= k + 1 < l + 1 < out.len() && out[k + 1] == strip_item_spec(items[i], cfg)
                && out[l + 1] == strip_item_spec(items[j], cfg));
        } else {
            assert(out[k] == rest[k]);
            assert(out[l] == rest[l]);
        }
    }
}

} // verus!
