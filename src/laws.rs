use vstd::prelude::*;
use crate::tree::{NodeKind, SyntaxNode};
use crate::types::{is_bracketed, is_primitive, map_type_spec, sanitize_spec};
use crate::emit::{
    InterfaceView, component_interface, component_name, is_exported_component, struct_interface,
    struct_name, walk,
};

verus! {

/// The primitive types map to fixed TypeScript types, whatever names are
/// declared.
pub proof fn lemma_primitive_types(declared: Set<Seq<char>>)
    ensures
        map_type_spec("int"@, declared) == "number"@,
        map_type_spec("bool"@, declared) == "boolean"@,
        map_type_spec("string"@, declared) == "string"@,
{
    reveal_strlit("int");
    reveal_strlit("bool");
    reveal_strlit("string");
    assert("bool"@.len() == 4 && "int"@.len() == 3 && "string"@.len() == 6);
    assert("bool"@ != "int"@);
    assert("string"@ != "int"@ && "string"@ != "bool"@);
}

/// The array type whose elements have type `t`.
pub open spec fn array_of(t: Seq<char>) -> Seq<char> {
    seq!['\u{5b}'] + t + seq!['\u{5d}']
}

/// An array type `[T]` maps to the mapping of `T` followed by `[]`.
pub proof fn lemma_array_type(t: Seq<char>, declared: Set<Seq<char>>)
    ensures
        map_type_spec(array_of(t), declared) == map_type_spec(t, declared) + "[]"@,
{
    reveal_strlit("int");
    reveal_strlit("bool");
    reveal_strlit("string");
    let a = array_of(t);
    assert(a.subrange(1, a.len() - 1) =~= t);
    assert(a != "int"@ && a != "bool"@ && a != "string"@) by {
        assert("int"@[0] != a[0]);
        assert("bool"@[0] != a[0]);
        assert("string"@[0] != a[0]);
    }
}

/// A type that is neither primitive, nor an array, nor a declared name maps
/// to `any`.
pub proof fn lemma_unknown_type(t: Seq<char>, declared: Set<Seq<char>>)
    requires
        !is_primitive(t),
        !is_bracketed(t),
        !declared.contains(t),
    ensures
        map_type_spec(t, declared) == "any"@,
{
}

/// A declared name that is neither primitive nor an array maps to itself.
pub proof fn lemma_declared_type(t: Seq<char>, declared: Set<Seq<char>>)
    requires
        !is_primitive(t),
        !is_bracketed(t),
        declared.contains(t),
    ensures
        map_type_spec(t, declared) == t,
{
}

/// The positions of `s` that hold a hyphen.
pub open spec fn hyphen_positions(s: Seq<char>) -> Set<int> {
    Set::new(|i: int| 0 <= i < s.len() && s[i] == '-')
}

/// The positions at which `r` differs from `s`.
pub open spec fn changed_positions(s: Seq<char>, r: Seq<char>) -> Set<int> {
    Set::new(|i: int| 0 <= i < s.len() && s[i] != r[i])
}

/// Sanitizing keeps the length, leaves no hyphen, changes exactly the
/// hyphens (each into an underscore), is idempotent, and leaves an input
/// without hyphens as it is.
pub proof fn lemma_sanitize(s: Seq<char>)
    ensures
        sanitize_spec(s).len() == s.len(),
        forall|i: int| 0 <= i < s.len() ==> sanitize_spec(s)[i] != '-',
        changed_positions(s, sanitize_spec(s)) == hyphen_positions(s),
        forall|i: int| #[trigger] changed_positions(s, sanitize_spec(s)).contains(i) ==> sanitize_spec(s)[i] == '_',
        sanitize_spec(sanitize_spec(s)) == sanitize_spec(s),
        (forall|i: int| 0 <= i < s.len() ==> s[i] != '-') ==> sanitize_spec(s) == s,
{
    let r = sanitize_spec(s);
    assert(changed_positions(s, r) =~= hyphen_positions(s));
    assert(sanitize_spec(r) =~= r);
    if forall|i: int| 0 <= i < s.len() ==> s[i] != '-' {
        assert(r =~= s);
    }
}

/// The nodes that declare an interface, in the order of a pre-order walk over
/// `nodes[i..]` and their subtrees: each struct definition, and each component
/// definition that directly follows an export marker.
pub open spec fn declaration_sites(nodes: Seq<SyntaxNode>, i: int) -> Seq<SyntaxNode>
    decreases nodes, nodes.len() - i,
{
    if i < 0 || i >= nodes.len() {
        Seq::empty()
    } else if nodes[i].kind == NodeKind::StructDefinition {
        seq![nodes[i]] + declaration_sites(nodes[i].children@, 0) + declaration_sites(nodes, i + 1)
    } else if is_exported_component(nodes, i) {
        seq![nodes[i + 1]] + declaration_sites(nodes[i + 1].children@, 0) + declaration_sites(
            nodes,
            i + 2,
        )
    } else {
        declaration_sites(nodes[i].children@, 0) + declaration_sites(nodes, i + 1)
    }
}

/// The interface name that a declaration site gives.
pub open spec fn site_name(n: SyntaxNode) -> Seq<char> {
    if n.kind == NodeKind::ComponentDefinition {
        component_name(n)
    } else {
        struct_name(n)
    }
}

/// `ds` holds one interface per site of `sites`, in the same order, each
/// named after its site and of its site's kind.
pub open spec fn one_per_site(ds: Seq<InterfaceView>, sites: Seq<SyntaxNode>) -> bool {
    &&& ds.len() == sites.len()
    &&& forall|k: int|
        0 <= k < ds.len() ==> (#[trigger] ds[k]).name == site_name(sites[k]) && ds[k].is_component
            == (sites[k].kind == NodeKind::ComponentDefinition)
}

proof fn lemma_one_per_site_join(
    a: Seq<InterfaceView>,
    b: Seq<InterfaceView>,
    sa: Seq<SyntaxNode>,
    sb: Seq<SyntaxNode>,
)
    requires
        one_per_site(a, sa),
        one_per_site(b, sb),
    ensures
        one_per_site(a + b, sa + sb),
{
    assert forall|k: int| 0 <= k < (a + b).len() implies (#[trigger] (a + b)[k]).name == site_name(
        (sa + sb)[k],
    ) && (a + b)[k].is_component == ((sa + sb)[k].kind == NodeKind::ComponentDefinition) by {
        if k < a.len() {
            assert((a + b)[k] == a[k]);
            assert((sa + sb)[k] == sa[k]);
        } else {
            assert((a + b)[k] == b[k - a.len()]);
            assert((sa + sb)[k] == sb[k - sa.len()]);
        }
    }
}

/// A successful walk emits exactly one interface per declaration site, in
/// document order: none is skipped and none comes twice.
pub proof fn lemma_walk_order(nodes: Seq<SyntaxNode>, i: int, names: Set<Seq<char>>)
    requires
        walk(nodes, i, names) is Ok,
    ensures
        one_per_site(walk(nodes, i, names)->Ok_0.0, declaration_sites(nodes, i)),
    decreases nodes, nodes.len() - i,
{
    if i < 0 || i >= nodes.len() {
    } else if nodes[i].kind == NodeKind::StructDefinition {
        let names1 = names.insert(struct_name(nodes[i]));
        lemma_walk_order(nodes[i].children@, 0, names1);
        let inner = walk(nodes[i].children@, 0, names1)->Ok_0;
        lemma_walk_order(nodes, i + 1, inner.1);
        let d = struct_interface(nodes[i], names)->Ok_0;
        lemma_one_per_site_join(seq![d], inner.0, seq![nodes[i]], declaration_sites(nodes[i].children@, 0));
        lemma_one_per_site_join(
            seq![d] + inner.0,
            walk(nodes, i + 1, inner.1)->Ok_0.0,
            seq![nodes[i]] + declaration_sites(nodes[i].children@, 0),
            declaration_sites(nodes, i + 1),
        );
    } else if is_exported_component(nodes, i) {
        lemma_walk_order(nodes[i + 1].children@, 0, names);
        let inner = walk(nodes[i + 1].children@, 0, names)->Ok_0;
        lemma_walk_order(nodes, i + 2, inner.1);
        let d = component_interface(nodes[i + 1], names)->Ok_0;
        lemma_one_per_site_join(seq![d], inner.0, seq![nodes[i + 1]], declaration_sites(nodes[i + 1].children@, 0));
        lemma_one_per_site_join(
            seq![d] + inner.0,
            walk(nodes, i + 2, inner.1)->Ok_0.0,
            seq![nodes[i + 1]] + declaration_sites(nodes[i + 1].children@, 0),
            declaration_sites(nodes, i + 2),
        );
    } else {
        lemma_walk_order(nodes[i].children@, 0, names);
        let inner = walk(nodes[i].children@, 0, names)->Ok_0;
        lemma_walk_order(nodes, i + 1, inner.1);
        lemma_one_per_site_join(
            inner.0,
            walk(nodes, i + 1, inner.1)->Ok_0.0,
            declaration_sites(nodes[i].children@, 0),
            declaration_sites(nodes, i + 1),
        );
    }
}

} // verus!
