use vstd::prelude::*;
use crate::tree::{NodeKind, SyntaxNode, first_of_kind_from, find_child_by_kind};
use crate::types::{DeclaredNames, map_type, map_name, map_type_spec, sanitize_spec};
use crate::extract::{
    Callback, CallbackView, Member, TranslateError, callback_views, component_items,
    extract_component_properties, extract_struct_fields, member_views, struct_members,
};

verus! {

/// One declaration ready to print, as plain sequences.
pub struct InterfaceView {
    pub name: Seq<char>,
    pub members: Seq<(Seq<char>, Seq<char>)>,
    pub callbacks: Seq<CallbackView>,
    pub is_component: bool,
}

/// One TypeScript interface: member names already sanitized and all types
/// already mapped. A component's interface also gets a `run` method.
pub struct Interface {
    pub name: String,
    pub members: Vec<Member>,
    pub callbacks: Vec<Callback>,
    pub is_component: bool,
}

impl View for Interface {
    type V = InterfaceView;

    open spec fn view(&self) -> InterfaceView {
        InterfaceView {
            name: self.name@,
            members: member_views(self.members@),
            callbacks: callback_views(self.callbacks@),
            is_component: self.is_component,
        }
    }
}

pub open spec fn interface_views(v: Seq<Interface>) -> Seq<InterfaceView> {
    v.map_values(|d: Interface| d@)
}

/// A member with its name sanitized and its type mapped.
pub open spec fn map_member(m: (Seq<char>, Seq<char>), names: Set<Seq<char>>) -> (
    Seq<char>,
    Seq<char>,
) {
    (sanitize_spec(m.0), map_type_spec(m.1, names))
}

pub open spec fn map_opt_type(t: Option<Seq<char>>, names: Set<Seq<char>>) -> Option<Seq<char>> {
    match t {
        Some(s) => Some(map_type_spec(s, names)),
        None => None,
    }
}

/// A callback with its name sanitized and its argument and return types mapped.
pub open spec fn map_callback(c: CallbackView, names: Set<Seq<char>>) -> CallbackView {
    CallbackView {
        name: sanitize_spec(c.name),
        args: c.args.map_values(|a: Seq<char>| map_type_spec(a, names)),
        return_type: map_opt_type(c.return_type, names),
    }
}

/// The name of a struct definition, or a placeholder where it has none.
pub open spec fn struct_name(node: SyntaxNode) -> Seq<char> {
    match first_of_kind_from(node.children@, NodeKind::UserTypeIdentifier, 0) {
        Some(n) => n,
        None => "UnnamedStruct"@,
    }
}

/// The name of a component definition, or a placeholder where it has none.
pub open spec fn component_name(node: SyntaxNode) -> Seq<char> {
    match first_of_kind_from(node.children@, NodeKind::UserTypeIdentifier, 0) {
        Some(n) => n,
        None => "UnnamedComponent"@,
    }
}

/// The interface for a struct definition. The struct's own name counts as
/// declared when its fields are mapped.
pub open spec fn struct_interface(node: SyntaxNode, names: Set<Seq<char>>) -> Result<
    InterfaceView,
    TranslateError,
> {
    let declared = names.insert(struct_name(node));
    match struct_members(node) {
        Err(e) => Err(e),
        Ok(ms) => Ok(
            InterfaceView {
                name: struct_name(node),
                members: ms.map_values(|m: (Seq<char>, Seq<char>)| map_member(m, declared)),
                callbacks: Seq::empty(),
                is_component: false,
            },
        ),
    }
}

/// The interface for a component definition.
pub open spec fn component_interface(node: SyntaxNode, names: Set<Seq<char>>) -> Result<
    InterfaceView,
    TranslateError,
> {
    match component_items(node) {
        Err(e) => Err(e),
        Ok(items) => Ok(
            InterfaceView {
                name: component_name(node),
                members: items.0.map_values(|m: (Seq<char>, Seq<char>)| map_member(m, names)),
                callbacks: items.1.map_values(|c: CallbackView| map_callback(c, names)),
                is_component: true,
            },
        ),
    }
}

/// `nodes[i]` is an export marker directly followed by a component definition.
pub open spec fn is_exported_component(nodes: Seq<SyntaxNode>, i: int) -> bool {
    0 <= i && i + 1 < nodes.len() && nodes[i].kind == NodeKind::Export && nodes[i + 1].kind
        == NodeKind::ComponentDefinition
}

/// The interfaces, in document order, produced by a pre-order walk over the
/// siblings `nodes[i..]` and their subtrees, with the set of declared names
/// after the walk. A struct definition gives an interface and then its
/// subtree is walked; an export marker followed by a component definition
/// gives the component's interface, then the component's subtree is walked
/// and the walk goes on after the component; any other node only has its
/// subtree walked.
pub open spec fn walk(nodes: Seq<SyntaxNode>, i: int, names: Set<Seq<char>>) -> Result<
    (Seq<InterfaceView>, Set<Seq<char>>),
    TranslateError,
>
    decreases nodes, nodes.len() - i,
{
    if i < 0 || i >= nodes.len() {
        Ok((Seq::empty(), names))
    } else if nodes[i].kind == NodeKind::StructDefinition {
        match struct_interface(nodes[i], names) {
            Err(e) => Err(e),
            Ok(d) => match walk(nodes[i].children@, 0, names.insert(struct_name(nodes[i]))) {
                Err(e) => Err(e),
                Ok(inner) => match walk(nodes, i + 1, inner.1) {
                    Err(e) => Err(e),
                    Ok(rest) => Ok((seq![d] + inner.0 + rest.0, rest.1)),
                },
            },
        }
    } else if is_exported_component(nodes, i) {
        match component_interface(nodes[i + 1], names) {
            Err(e) => Err(e),
            Ok(d) => match walk(nodes[i + 1].children@, 0, names) {
                Err(e) => Err(e),
                Ok(inner) => match walk(nodes, i + 2, inner.1) {
                    Err(e) => Err(e),
                    Ok(rest) => Ok((seq![d] + inner.0 + rest.0, rest.1)),
                },
            },
        }
    } else {
        match walk(nodes[i].children@, 0, names) {
            Err(e) => Err(e),
            Ok(inner) => match walk(nodes, i + 1, inner.1) {
                Err(e) => Err(e),
                Ok(rest) => Ok((inner.0 + rest.0, rest.1)),
            },
        }
    }
}

/// Sanitizes the names and maps the types of `members` against `seen`.
fn map_members(members: &Vec<Member>, seen: &DeclaredNames) -> (r: Vec<Member>)
    ensures
        member_views(r@) == member_views(members@).map_values(
            |m: (Seq<char>, Seq<char>)| map_member(m, seen@),
        ),
{
    let mut out: Vec<Member> = Vec::new();
    let mut i: usize = 0;
    while i < members.len()
        invariant
            0 <= i <= members@.len(),
            out@.len() == i,
            forall|k: int| 0 <= k < i ==> #[trigger] out@[k]@ == map_member(members@[k]@, seen@),
        decreases members@.len() - i,
    {
        let m = &members[i];
        out.push(
            Member { name: map_name(m.name.clone()), type_expr: map_type(m.type_expr.clone(), seen) },
        );
        i = i + 1;
    }
    assert(member_views(out@) =~= member_views(members@).map_values(
        |m: (Seq<char>, Seq<char>)| map_member(m, seen@),
    ));
    out
}

/// Sanitizes the name and maps the argument and return types of a callback.
fn map_callback_types(c: &Callback, seen: &DeclaredNames) -> (r: Callback)
    ensures
        r@ == map_callback(c@, seen@),
{
    let mut args: Vec<String> = Vec::new();
    let mut i: usize = 0;
    while i < c.args.len()
        invariant
            0 <= i <= c.args@.len(),
            args@.len() == i,
            forall|k: int| 0 <= k < i ==> #[trigger] args@[k]@ == map_type_spec(c.args@[k]@, seen@),
        decreases c.args@.len() - i,
    {
        args.push(map_type(c.args[i].clone(), seen));
        i = i + 1;
    }
    let return_type = match &c.return_type {
        Some(t) => Some(map_type(t.clone(), seen)),
        None => None,
    };
    let r = Callback { name: map_name(c.name.clone()), args, return_type };
    assert(r@.args =~= map_callback(c@, seen@).args);
    r
}

/// Reads a struct definition into its interface and records the struct's
/// name as declared before its fields are mapped.
pub fn process_struct(node: &SyntaxNode, seen_types: &mut DeclaredNames) -> (r: Result<
    Interface,
    TranslateError,
>)
    ensures
        final(seen_types)@ == old(seen_types)@.insert(struct_name(*node)),
        match struct_interface(*node, old(seen_types)@) {
            Ok(d) => r matches Ok(i) && i@ == d,
            Err(e) => r == Err::<Interface, TranslateError>(e),
        },
{
    let struct_name = match find_child_by_kind(node, NodeKind::UserTypeIdentifier) {
        Some(n) => n,
        None => String::from_str("UnnamedStruct"),
    };
    seen_types.insert(struct_name.clone());
    let fields = extract_struct_fields(node)?;
    let members = map_members(&fields, seen_types);
    let r = Interface { name: struct_name, members, callbacks: Vec::new(), is_component: false };
    assert(r@.callbacks =~= Seq::empty());
    Ok(r)
}

/// Reads a component definition into its interface.
pub fn process_component(node: &SyntaxNode, seen_types: &DeclaredNames) -> (r: Result<
    Interface,
    TranslateError,
>)
    ensures
        match component_interface(*node, seen_types@) {
            Ok(d) => r matches Ok(i) && i@ == d,
            Err(e) => r == Err::<Interface, TranslateError>(e),
        },
{
    let component_name = match find_child_by_kind(node, NodeKind::UserTypeIdentifier) {
        Some(n) => n,
        None => String::from_str("UnnamedComponent"),
    };
    let (properties, callbacks) = extract_component_properties(node)?;
    let members = map_members(&properties, seen_types);
    let mut mapped: Vec<Callback> = Vec::new();
    let mut i: usize = 0;
    while i < callbacks.len()
        invariant
            0 <= i <= callbacks@.len(),
            mapped@.len() == i,
            forall|k: int| 0 <= k < i ==> #[trigger] mapped@[k]@ == map_callback(callbacks@[k]@, seen_types@),
        decreases callbacks@.len() - i,
    {
        mapped.push(map_callback_types(&callbacks[i], seen_types));
        i = i + 1;
    }
    let r = Interface { name: component_name, members, callbacks: mapped, is_component: true };
    assert(r@.callbacks =~= callback_views(callbacks@).map_values(
        |c: CallbackView| map_callback(c, seen_types@),
    ));
    Ok(r)
}

/// Walks the siblings `nodes[i..]` and their subtrees in document order,
/// appending to `out` one interface for each struct definition and for each
/// component definition that directly follows an export marker.
pub fn process_node(
    nodes: &Vec<SyntaxNode>,
    i: usize,
    seen_types: &mut DeclaredNames,
    out: &mut Vec<Interface>,
) -> (r: Result<(), TranslateError>)
    requires
        i <= nodes@.len(),
    ensures
        match walk(nodes@, i as int, old(seen_types)@) {
            Ok(w) => r is Ok && interface_views(final(out)@) == interface_views(old(out)@) + w.0
                && final(seen_types)@ == w.1,
            Err(e) => r == Err::<(), TranslateError>(e),
        },
    decreases nodes@, nodes@.len() - i,
{
    if i >= nodes.len() {
        assert(interface_views(out@) =~= interface_views(old(out)@) + Seq::empty());
        return Ok(());
    }
    let node = &nodes[i];
    let next: usize;
    let children: &Vec<SyntaxNode>;
    if node.kind == NodeKind::StructDefinition {
        let d = process_struct(node, seen_types)?;
        out.push(d);
        children = &node.children;
        next = i + 1;
    } else if i + 1 < nodes.len() && node.kind == NodeKind::Export && nodes[i + 1].kind
        == NodeKind::ComponentDefinition {
        let d = process_component(&nodes[i + 1], seen_types)?;
        out.push(d);
        children = &nodes[i + 1].children;
        next = i + 2;
    } else {
        children = &node.children;
        next = i + 1;
    }
    process_node(children, 0, seen_types, out)?;
    process_node(nodes, next, seen_types, out)?;
    proof {
        assert(interface_views(out@) =~= interface_views(old(out)@) + walk(nodes@, i as int, old(seen_types)@)->Ok_0.0);
    }
    Ok(())
}

} // verus!
