use strip_exports::model::{Binding, Decl, Declarator, Item, Module};
use strip_exports::transform::{default_denylist, TransformVisitor};

// The opaque payload type plays no role in the transform; a small integer
// stands in for the host's subtrees and lets tests check pass-through.
type M = Module<u32>;

fn ident_declarator(name: &str, node: u32, init: Option<u32>, meta: u32) -> Declarator<u32> {
    Declarator { binding: Binding::Ident { name: name.to_string(), node }, init, meta }
}

fn pattern_declarator(node: u32, init: Option<u32>, meta: u32) -> Declarator<u32> {
    Declarator { binding: Binding::Pattern(node), init, meta }
}

fn export_var(declarators: Vec<Declarator<u32>>) -> Item<u32> {
    Item::Exported { meta: 0, decl: Decl::Var { meta: 0, declarators } }
}

fn plain_var(declarators: Vec<Declarator<u32>>) -> Item<u32> {
    Item::Plain(Decl::Var { meta: 0, declarators })
}

fn default_visitor() -> TransformVisitor {
    TransformVisitor::new(default_denylist(), true)
}

/// `export const getServerSideProps = ...; const Home = ...; export default Home;`
/// keeps everything but the denylisted export.
#[test]
fn delete_export_getserversideprops() {
    let v = default_visitor();
    let input = Module {
        items: vec![
            export_var(vec![ident_declarator("getServerSideProps", 1, Some(2), 3)]),
            plain_var(vec![ident_declarator("Home", 4, Some(5), 6)]),
            Item::Opaque(7),
        ],
    };
    let expected = Module {
        items: vec![plain_var(vec![ident_declarator("Home", 4, Some(5), 6)]), Item::Opaque(7)],
    };
    assert_eq!(v.transform_module(input), expected);
}

/// A plain (non-exported) `const getServerSideProps = ...` is untouched when
/// matching is restricted to exported declarations.
#[test]
fn not_delete_non_export_getserversideprops() {
    let v = default_visitor();
    let input = Module {
        items: vec![
            plain_var(vec![ident_declarator("getServerSideProps", 1, Some(2), 3)]),
            plain_var(vec![ident_declarator("Home", 4, Some(5), 6)]),
            Item::Opaque(7),
        ],
    };
    let expected = input.clone();
    assert_eq!(v.transform_module(input), expected);
}

#[test]
fn delete_export_getinitialprops() {
    let v = default_visitor();
    let input = Module {
        items: vec![
            export_var(vec![ident_declarator("getInitialProps", 1, Some(2), 3)]),
            plain_var(vec![ident_declarator("Home", 4, Some(5), 6)]),
            Item::Opaque(7),
        ],
    };
    let expected = Module {
        items: vec![plain_var(vec![ident_declarator("Home", 4, Some(5), 6)]), Item::Opaque(7)],
    };
    assert_eq!(v.transform_module(input), expected);
}

#[test]
fn delete_export_getstaticprops() {
    let v = default_visitor();
    let input = Module {
        items: vec![
            export_var(vec![ident_declarator("getStaticProps", 1, Some(2), 3)]),
            plain_var(vec![ident_declarator("Home", 4, Some(5), 6)]),
            Item::Opaque(7),
        ],
    };
    let expected = Module {
        items: vec![plain_var(vec![ident_declarator("Home", 4, Some(5), 6)]), Item::Opaque(7)],
    };
    assert_eq!(v.transform_module(input), expected);
}

#[test]
fn delete_export_getstaticconfig() {
    let v = default_visitor();
    let input = Module {
        items: vec![
            export_var(vec![ident_declarator("getStaticConfig", 1, Some(2), 3)]),
            plain_var(vec![ident_declarator("Home", 4, Some(5), 6)]),
            Item::Opaque(7),
        ],
    };
    let expected = Module {
        items: vec![plain_var(vec![ident_declarator("Home", 4, Some(5), 6)]), Item::Opaque(7)],
    };
    assert_eq!(v.transform_module(input), expected);
}

/// Two denylisted exports are both removed and the interleaved non-matching
/// items survive in their original relative order.
#[test]
fn multi_match_independence() {
    let v = default_visitor();
    let input = Module {
        items: vec![
            export_var(vec![ident_declarator("getServerSideProps", 1, Some(2), 3)]),
            plain_var(vec![ident_declarator("Home", 4, Some(5), 6)]),
            export_var(vec![ident_declarator("getStaticProps", 7, Some(8), 9)]),
            Item::Opaque(10),
        ],
    };
    let expected = Module {
        items: vec![plain_var(vec![ident_declarator("Home", 4, Some(5), 6)]), Item::Opaque(10)],
    };
    assert_eq!(v.transform_module(input), expected);
}

/// A denylisted name bound via a destructuring pattern
/// (`export const { getServerSideProps } = mod;`) is left untouched.
#[test]
fn destructuring_pattern_untouched() {
    let v = default_visitor();
    let input = Module { items: vec![export_var(vec![pattern_declarator(1, Some(2), 3)])] };
    let expected = input.clone();
    assert_eq!(v.transform_module(input), expected);
}

/// Removing a matching declarator keeps its non-matching siblings, in order,
/// inside the same declaration.
#[test]
fn sibling_declarators_survive() {
    let v = default_visitor();
    let input = Module {
        items: vec![export_var(vec![
            ident_declarator("first", 1, Some(2), 3),
            ident_declarator("getServerSideProps", 4, Some(5), 6),
            ident_declarator("second", 7, None, 8),
        ])],
    };
    let expected = Module {
        items: vec![export_var(vec![
            ident_declarator("first", 1, Some(2), 3),
            ident_declarator("second", 7, None, 8),
        ])],
    };
    assert_eq!(v.transform_module(input), expected);
}

/// A declaration whose declarators all match is removed whole: no empty
/// declaration survives.
#[test]
fn emptied_declaration_removed() {
    let v = default_visitor();
    let input = Module {
        items: vec![
            Item::Opaque(1),
            export_var(vec![
                ident_declarator("getStaticProps", 2, Some(3), 4),
                ident_declarator("getServerSideProps", 5, Some(6), 7),
            ]),
            Item::Opaque(8),
        ],
    };
    let expected = Module { items: vec![Item::Opaque(1), Item::Opaque(8)] };
    assert_eq!(v.transform_module(input), expected);
}

/// Without the exported-only restriction, a plain declaration binding a
/// denylisted name is removed as well.
#[test]
fn plain_declaration_matched_when_unrestricted() {
    let v = TransformVisitor::new(default_denylist(), false);
    let input = Module {
        items: vec![
            plain_var(vec![ident_declarator("getServerSideProps", 1, Some(2), 3)]),
            plain_var(vec![ident_declarator("Home", 4, Some(5), 6)]),
        ],
    };
    let expected = Module { items: vec![plain_var(vec![ident_declarator("Home", 4, Some(5), 6)])] };
    assert_eq!(v.transform_module(input), expected);
}

/// With an empty denylist the transform is the identity.
#[test]
fn empty_denylist_identity() {
    let v = TransformVisitor::new(Vec::new(), true);
    let input = Module {
        items: vec![
            export_var(vec![ident_declarator("getServerSideProps", 1, Some(2), 3)]),
            plain_var(vec![ident_declarator("Home", 4, Some(5), 6)]),
            Item::Opaque(7),
        ],
    };
    let expected = input.clone();
    assert_eq!(v.transform_module(input), expected);
}

/// Applying the transform to its own output yields the same output.
#[test]
fn idempotence() {
    let v = default_visitor();
    let input = Module {
        items: vec![
            export_var(vec![ident_declarator("getStaticConfig", 1, Some(2), 3)]),
            export_var(vec![
                ident_declarator("kept", 4, Some(5), 6),
                ident_declarator("getInitialProps", 7, Some(8), 9),
            ]),
            Item::Opaque(10),
        ],
    };
    let once = v.transform_module(input);
    let twice = v.transform_module(once.clone());
    assert_eq!(twice, once);
}

/// Matching is exact and case-sensitive: near misses survive.
#[test]
fn near_miss_names_survive() {
    let v = default_visitor();
    let input = Module {
        items: vec![
            export_var(vec![ident_declarator("getserversideprops", 1, Some(2), 3)]),
            export_var(vec![ident_declarator("getServerSidePropsX", 4, Some(5), 6)]),
            export_var(vec![ident_declarator("getStaticProp", 7, Some(8), 9)]),
        ],
    };
    let expected = input.clone();
    assert_eq!(v.transform_module(input), expected);
}

/// Of many items, exactly the matching ones are removed and the survivors
/// keep their relative order.
#[test]
fn order_preserved_across_removals() {
    let v = default_visitor();
    let input = Module {
        items: vec![
            Item::Opaque(1),
            export_var(vec![ident_declarator("getInitialProps", 2, Some(3), 4)]),
            Item::Opaque(5),
            export_var(vec![ident_declarator("getStaticProps", 6, Some(7), 8)]),
            Item::Exported { meta: 9, decl: Decl::Other(10) },
            export_var(vec![ident_declarator("getStaticConfig", 11, None, 12)]),
            Item::Opaque(13),
        ],
    };
    let expected = Module {
        items: vec![
            Item::Opaque(1),
            Item::Opaque(5),
            Item::Exported { meta: 9, decl: Decl::Other(10) },
            Item::Opaque(13),
        ],
    };
    assert_eq!(v.transform_module(input), expected);
}

/// An empty module passes through unchanged.
#[test]
fn empty_module() {
    let v = default_visitor();
    let input: M = Module { items: Vec::new() };
    let out = v.transform_module(input);
    assert!(out.items.is_empty());
}

/// The default denylist holds exactly the four recognized data-fetching
/// export names, in configuration order.
#[test]
fn default_denylist_contents() {
    let names = default_denylist();
    assert_eq!(
        names,
        vec![
            "getInitialProps".to_string(),
            "getServerSideProps".to_string(),
            "getStaticProps".to_string(),
            "getStaticConfig".to_string(),
        ]
    );
}

/// The membership test reads the configured denylist, not a built-in one.
#[test]
fn custom_denylist_is_honored() {
    let v = TransformVisitor::new(vec!["loader".to_string()], true);
    let input = Module {
        items: vec![
            export_var(vec![ident_declarator("loader", 1, Some(2), 3)]),
            export_var(vec![ident_declarator("getServerSideProps", 4, Some(5), 6)]),
        ],
    };
    let expected = Module {
        items: vec![export_var(vec![ident_declarator("getServerSideProps", 4, Some(5), 6)])],
    };
    assert_eq!(v.transform_module(input), expected);
}
