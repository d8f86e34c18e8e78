use vstd::prelude::*;

verus! {

/// The kinds of Slint syntax node that the translation looks at; every other
/// kind is `Other`.
#[derive(Clone, Copy, Debug, PartialEq, Eq, Structural)]
pub enum NodeKind {
    StructDefinition,
    StructBlock,
    Export,
    ComponentDefinition,
    Block,
    Callback,
    Property,
    PropertyAssignment,
    UserTypeIdentifier,
    Other,
}

/// The field role that a node holds within its parent; a node without a role,
/// or with a role the translation does not read, is `Unnamed`.
#[derive(Clone, Copy, Debug, PartialEq, Eq, Structural)]
pub enum FieldRole {
    Name,
    Type,
    ReturnType,
    Arguments,
    Property,
    Value,
    Unnamed,
}

/// One node of a parsed Slint file: its kind, its role within its parent, the
/// source text it spans, and its children in document order.
pub struct SyntaxNode {
    pub kind: NodeKind,
    pub field: FieldRole,
    pub text: String,
    pub children: Vec<SyntaxNode>,
}

/// The text of the first node of `ch`, from index `i` on, whose kind is `k`.
pub open spec fn first_of_kind_from(ch: Seq<SyntaxNode>, k: NodeKind, i: int) -> Option<Seq<char>>
    decreases ch.len() - i,
{
    if i < 0 || i >= ch.len() {
        None
    } else if ch[i].kind == k {
        Some(ch[i].text@)
    } else {
        first_of_kind_from(ch, k, i + 1)
    }
}

/// The text of the first node of `ch`, from index `i` on, whose role is `f`.
pub open spec fn first_of_field_from(ch: Seq<SyntaxNode>, f: FieldRole, i: int) -> Option<Seq<char>>
    decreases ch.len() - i,
{
    if i < 0 || i >= ch.len() {
        None
    } else if ch[i].field == f {
        Some(ch[i].text@)
    } else {
        first_of_field_from(ch, f, i + 1)
    }
}

/// The texts, in order, of the nodes among the first `n` of `ch` whose role is `f`.
pub open spec fn field_texts(ch: Seq<SyntaxNode>, f: FieldRole, n: int) -> Seq<Seq<char>>
    decreases n,
{
    if n <= 0 {
        Seq::empty()
    } else if ch[n - 1].field == f {
        field_texts(ch, f, n - 1).push(ch[n - 1].text@)
    } else {
        field_texts(ch, f, n - 1)
    }
}

/// The views of a sequence of strings.
pub open spec fn texts(v: Seq<String>) -> Seq<Seq<char>> {
    v.map_values(|s: String| s@)
}

impl SyntaxNode {
    pub fn new(kind: NodeKind, field: FieldRole, text: &str, children: Vec<SyntaxNode>) -> (r:
        SyntaxNode)
        ensures
            r.kind == kind,
            r.field == field,
            r.text@ == text@,
            r.children@ == children@,
    {
        SyntaxNode { kind, field, text: String::from_str(text), children }
    }
}

/// The text of the first child of `node` whose kind is `kind`.
pub fn find_child_by_kind(node: &SyntaxNode, kind: NodeKind) -> (r: Option<String>)
    ensures
        r matches Some(s) ==> first_of_kind_from(node.children@, kind, 0) == Some(s@),
        r is None ==> first_of_kind_from(node.children@, kind, 0) is None,
{
    let mut i: usize = 0;
    while i < node.children.len()
        invariant
            0 <= i <= node.children@.len(),
            first_of_kind_from(node.children@, kind, 0) == first_of_kind_from(
                node.children@,
                kind,
                i as int,
            ),
        decreases node.children@.len() - i,
    {
        if node.children[i].kind == kind {
            return Some(node.children[i].text.clone());
        }
        i = i + 1;
    }
    None
}

/// The text of the first child of `node` whose role is `field`.
pub fn child_by_field(node: &SyntaxNode, field: FieldRole) -> (r: Option<String>)
    ensures
        r matches Some(s) ==> first_of_field_from(node.children@, field, 0) == Some(s@),
        r is None ==> first_of_field_from(node.children@, field, 0) is None,
{
    let mut i: usize = 0;
    while i < node.children.len()
        invariant
            0 <= i <= node.children@.len(),
            first_of_field_from(node.children@, field, 0) == first_of_field_from(
                node.children@,
                field,
                i as int,
            ),
        decreases node.children@.len() - i,
    {
        if node.children[i].field == field {
            return Some(node.children[i].text.clone());
        }
        i = i + 1;
    }
    None
}

/// The texts, in document order, of the children of `node` whose role is `field`.
pub fn children_by_field(node: &SyntaxNode, field: FieldRole) -> (r: Vec<String>)
    ensures
        texts(r@) == field_texts(node.children@, field, node.children@.len() as int),
{
    let mut out: Vec<String> = Vec::new();
    let mut i: usize = 0;
    while i < node.children.len()
        invariant
            0 <= i <= node.children@.len(),
            texts(out@) =~= field_texts(node.children@, field, i as int),
        decreases node.children@.len() - i,
    {
        if node.children[i].field == field {
            out.push(node.children[i].text.clone());
        }
        i = i + 1;
    }
    out
}

} // verus!
