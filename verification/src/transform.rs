//! The executable transform, proved equal to the spec functions of
//! [`crate::model`].

use vstd::prelude::*;

use crate::laws::lemma_strip_items_wf;
use crate::model::Binding;
use crate::model::ConfigV;
use crate::model::Decl;
use crate::model::Declarator;
use crate::model::Item;
use crate::model::Module;
use crate::model::declarator_matches_spec;
use crate::model::declarator_view;
use crate::model::declarators_view;
use crate::model::decl_view;
use crate::model::item_survives_spec;
use crate::model::item_view;
use crate::model::items_view;
use crate::model::module_view;
use crate::model::module_wf;
use crate::model::strip_decl_spec;
use crate::model::strip_declarators_spec;
use crate::model::strip_item_spec;
use crate::model::strip_items_spec;

verus! {

/// The configured transform: a denylist of binding names, and the policy
/// choice of whether matching is restricted to export-wrapped declarations.
pub struct TransformVisitor {
    /// The denylist: binding names targeted for removal.
    pub names: Vec<String>,
    /// When true, only declarators inside an export-wrapped declaration are
    /// matched; plain declarations pass through untouched.
    pub match_exported_only: bool,
}

/// View of a [`TransformVisitor`]'s configuration.
pub open spec fn config_view(t: TransformVisitor) -> ConfigV {
    ConfigV {
        names: t.names@.map_values(|s: String| s@),
        match_exported_only: t.match_exported_only,
    }
}

/// The four recognized data-fetching export names, in configuration order.
pub fn default_denylist() -> (r: Vec<String>)
    ensures
        r@.len() == 4,
        r@[0]@ == "getInitialProps"@,
        r@[1]@ == "getServerSideProps"@,
        r@[2]@ == "getStaticProps"@,
        r@[3]@ == "getStaticConfig"@,
{
    let mut v: Vec<String> = Vec::new();
    v.push(String::from_str("getInitialProps"));
    v.push(String::from_str("getServerSideProps"));
    v.push(String::from_str("getStaticProps"));
    v.push(String::from_str("getStaticConfig"));
    v
}

impl TransformVisitor {
    /// A transform over the given denylist and export-scoping policy.
    pub fn new(names: Vec<String>, match_exported_only: bool) -> (r: TransformVisitor)
        ensures
            config_view(r) == (ConfigV {
                names: names@.map_values(|s: String| s@),
                match_exported_only,
            }),
    {
        TransformVisitor { names, match_exported_only }
    }

    /// Membership test against the denylist: exact, case-sensitive equality.
    pub fn name_in_denylist(&self, name: &String) -> (r: bool)
        ensures
            r == config_view(*self).names.contains(name@),
    {
        let ghost ns = config_view(*self).names;
        let mut i: usize = 0;
        while i < self.names.len()
            invariant
                0 <= i <= self.names@.len(),
                ns == config_view(*self).names,
                forall|j: int| 0 <= j < i ==> (#[trigger] self.names@[j])@ != name@,
            decreases self.names@.len() - i,
        {
            if *name == self.names[i] {
                proof {
                    assert(ns[i as int] == name@);
                }
                return true;
            }
            i += 1;
        }
        proof {
            assert forall|k: int| 0 <= k < ns.len() implies ns[k] != name@ by {
                assert(ns[k] == self.names@[k]@);
            }
        }
        false
    }

    /// The declarator matcher: true iff the binding is the simple-identifier
    /// case and the identifier's text stands in the denylist. Every other
    /// binding shape yields false, never an error.
    pub fn declarator_matches<X>(&self, d: &Declarator<X>) -> (r: bool)
        ensures
            r == declarator_matches_spec(declarator_view(*d), config_view(*self).names),
    {
        match &d.binding {
            Binding::Ident { name, node: _ } => self.name_in_denylist(name),
            Binding::Pattern(_) => false,
        }
    }

    /// Declarator-list compaction: remove every matching declarator,
    /// preserving the order of the rest.
    pub fn strip_declarators<X>(&self, ds: Vec<Declarator<X>>) -> (r: Vec<Declarator<X>>)
        ensures
            declarators_view(r@) == strip_declarators_spec(
                declarators_view(ds@),
                config_view(*self).names,
            ),
    {
        let ghost names = config_view(*self).names;
        let ghost orig = declarators_view(ds@);
        let mut rest = ds;
        let mut out: Vec<Declarator<X>> = Vec::new();
        while rest.len() > 0
            invariant
                names == config_view(*self).names,
                strip_declarators_spec(orig, names) == declarators_view(out@)
                    + strip_declarators_spec(declarators_view(rest@), names),
            decreases rest.len(),
        {
            let ghost r0 = rest@;
            let d = rest.remove(0);
            proof {
                assert(rest@ =~= r0.drop_first());
                assert(declarators_view(r0).first() == declarator_view(d));
                assert(declarators_view(rest@) =~= declarators_view(r0).drop_first());
            }
            if self.declarator_matches(&d) {
                proof {
                    assert(strip_declarators_spec(declarators_view(r0), names)
                        == strip_declarators_spec(declarators_view(rest@), names));
                }
            } else {
                let ghost ov = declarators_view(out@);
                let ghost dv = declarator_view(d);
                out.push(d);
                proof {
                    assert(declarators_view(out@) =~= ov + seq![dv]);
                    assert(strip_declarators_spec(declarators_view(r0), names)
                        == seq![dv] + strip_declarators_spec(declarators_view(rest@), names));
                    assert(declarators_view(out@)
                        + strip_declarators_spec(declarators_view(rest@), names)
                        =~= strip_declarators_spec(orig, names));
                }
            }
        }
        proof {
            assert(declarators_view(rest@).len() == 0);
            assert(declarators_view(out@) + strip_declarators_spec(declarators_view(rest@), names)
                =~= declarators_view(out@));
        }
        out
    }

    /// Transform one declaration: compact a variable declaration's declarator
    /// list; leave every other declaration kind untouched.
    pub fn strip_decl<X>(&self, d: Decl<X>) -> (r: Decl<X>)
        ensures
            decl_view(r) == strip_decl_spec(decl_view(d), config_view(*self).names),
    {
        match d {
            Decl::Var { meta, declarators } => Decl::Var {
                meta,
                declarators: self.strip_declarators(declarators),
            },
            Decl::Other(x) => Decl::Other(x),
        }
    }

    /// Transform one item: matching always applies inside an export-wrapped
    /// declaration, inside a plain declaration only when the configuration
    /// does not restrict matching to exported bindings. Opaque items pass
    /// through unchanged.
    pub fn strip_item<X>(&self, it: Item<X>) -> (r: Item<X>)
        ensures
            item_view(r) == strip_item_spec(item_view(it), config_view(*self)),
    {
        match it {
            Item::Exported { meta, decl } => Item::Exported {
                meta,
                decl: self.strip_decl(decl),
            },
            Item::Plain(d) => {
                if self.match_exported_only {
                    Item::Plain(d)
                } else {
                    Item::Plain(self.strip_decl(d))
                }
            },
            Item::Opaque(x) => Item::Opaque(x),
        }
    }

    /// Does this item survive item-list compaction? Exactly the items that
    /// are not a variable declaration with an empty declarator list do.
    pub fn item_survives<X>(it: &Item<X>) -> (r: bool)
        ensures
            r == item_survives_spec(item_view(*it)),
    {
        match it {
            Item::Exported { meta: _, decl: Decl::Var { meta: _, declarators } } => {
                declarators.len() > 0
            },
            Item::Plain(Decl::Var { meta: _, declarators }) => declarators.len() > 0,
            _ => true,
        }
    }

    /// Transform one module: strip every matching declarator, then compact
    /// every container bottom-up, preserving the order of survivors. The
    /// result is exactly [`strip_items_spec`] of the input, and is well
    /// formed: no variable declaration with an empty declarator list remains,
    /// and no invalidated placeholder is observable, whatever the input.
    pub fn transform_module<X>(&self, m: Module<X>) -> (r: Module<X>)
        ensures
            module_view(r) == strip_items_spec(module_view(m), config_view(*self)),
            module_wf(module_view(r)),
    {
        let ghost cfg = config_view(*self);
        let ghost orig = module_view(m);
        let mut rest = m.items;
        let mut out: Vec<Item<X>> = Vec::new();
        while rest.len() > 0
            invariant
                cfg == config_view(*self),
                strip_items_spec(orig, cfg) == items_view(out@)
                    + strip_items_spec(items_view(rest@), cfg),
            decreases rest.len(),
        {
            let ghost r0 = rest@;
            let it = rest.remove(0);
            proof {
                assert(rest@ =~= r0.drop_first());
                assert(items_view(r0).first() == item_view(it));
                assert(items_view(rest@) =~= items_view(r0).drop_first());
            }
            let it2 = self.strip_item(it);
            if Self::item_survives(&it2) {
                let ghost ov = items_view(out@);
                let ghost iv = item_view(it2);
                out.push(it2);
                proof {
                    assert(items_view(out@) =~= ov + seq![iv]);
                    assert(strip_items_spec(items_view(r0), cfg)
                        == seq![iv] + strip_items_spec(items_view(rest@), cfg));
                    assert(items_view(out@) + strip_items_spec(items_view(rest@), cfg)
                        =~= strip_items_spec(orig, cfg));
                }
            } else {
                proof {
                    assert(strip_items_spec(items_view(r0), cfg)
                        == strip_items_spec(items_view(rest@), cfg));
                }
            }
        }
        proof {
            assert(items_view(rest@).len() == 0);
            assert(items_view(out@) + strip_items_spec(items_view(rest@), cfg)
                =~= items_view(out@));
            lemma_strip_items_wf(orig, cfg);
        }
        Module { items: out }
    }
}

} // verus!
