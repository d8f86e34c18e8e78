use vstd::prelude::*;
use crate::tree::{
    FieldRole, NodeKind, SyntaxNode, field_texts, first_of_field_from, texts, child_by_field,
    children_by_field,
};

verus! {

/// Why a syntax tree could not be translated.
#[derive(Clone, Copy, Debug, PartialEq, Eq, Structural)]
pub enum TranslateError {
    /// A child that the node's kind requires is absent.
    MissingField(FieldRole),
    /// A struct body holds a different number of field names and field types.
    FieldCountMismatch { names: usize, types: usize },
}

/// A named member: a field, a property, or a property assignment, with its
/// type expression (for an assignment, the assigned value's text).
pub struct Member {
    pub name: String,
    pub type_expr: String,
}

impl View for Member {
    type V = (Seq<char>, Seq<char>);

    open spec fn view(&self) -> (Seq<char>, Seq<char>) {
        (self.name@, self.type_expr@)
    }
}

/// A callback signature as plain sequences.
pub struct CallbackView {
    pub name: Seq<char>,
    pub args: Seq<Seq<char>>,
    pub return_type: Option<Seq<char>>,
}

/// A callback signature: its name, its argument types in order, and its
/// return type if it has one.
pub struct Callback {
    pub name: String,
    pub args: Vec<String>,
    pub return_type: Option<String>,
}

pub open spec fn opt_text(o: Option<String>) -> Option<Seq<char>> {
    match o {
        Some(s) => Some(s@),
        None => None,
    }
}

impl View for Callback {
    type V = CallbackView;

    open spec fn view(&self) -> CallbackView {
        CallbackView { name: self.name@, args: texts(self.args@), return_type: opt_text(self.return_type) }
    }
}

pub open spec fn member_views(v: Seq<Member>) -> Seq<(Seq<char>, Seq<char>)> {
    v.map_values(|m: Member| m@)
}

pub open spec fn callback_views(v: Seq<Callback>) -> Seq<CallbackView> {
    v.map_values(|c: Callback| c@)
}

/// The members of a struct body: its names and its types paired by position.
pub open spec fn struct_block_members(b: SyntaxNode) -> Result<
    Seq<(Seq<char>, Seq<char>)>,
    TranslateError,
> {
    let names = field_texts(b.children@, FieldRole::Name, b.children@.len() as int);
    let types = field_texts(b.children@, FieldRole::Type, b.children@.len() as int);
    if names.len() != types.len() {
        Err(TranslateError::FieldCountMismatch { names: names.len() as usize, types: types.len() as usize })
    } else {
        Ok(Seq::new(names.len(), |i: int| (names[i], types[i])))
    }
}

/// The members read from the first `n` children of a struct definition: a
/// later struct body replaces what an earlier one gave.
pub open spec fn struct_members_upto(ch: Seq<SyntaxNode>, n: int) -> Result<
    Seq<(Seq<char>, Seq<char>)>,
    TranslateError,
>
    decreases n,
{
    if n <= 0 {
        Ok(Seq::empty())
    } else {
        let prev = struct_members_upto(ch, n - 1);
        if prev is Err {
            prev
        } else if ch[n - 1].kind == NodeKind::StructBlock {
            struct_block_members(ch[n - 1])
        } else {
            prev
        }
    }
}

/// The fields of a struct definition node, in declaration order.
pub open spec fn struct_members(node: SyntaxNode) -> Result<Seq<(Seq<char>, Seq<char>)>, TranslateError> {
    if node.kind == NodeKind::StructDefinition {
        struct_members_upto(node.children@, node.children@.len() as int)
    } else {
        Ok(Seq::empty())
    }
}

/// The argument texts among the first `n` children of a callback node: the
/// children in the arguments role, without the comma separators.
pub open spec fn arg_texts(ch: Seq<SyntaxNode>, n: int) -> Seq<Seq<char>>
    decreases n,
{
    if n <= 0 {
        Seq::empty()
    } else if ch[n - 1].field == FieldRole::Arguments && ch[n - 1].text@ != ","@ {
        arg_texts(ch, n - 1).push(ch[n - 1].text@)
    } else {
        arg_texts(ch, n - 1)
    }
}

/// The signature declared by a callback node.
pub open spec fn callback_of(c: SyntaxNode) -> Result<CallbackView, TranslateError> {
    match first_of_field_from(c.children@, FieldRole::Name, 0) {
        None => Err(TranslateError::MissingField(FieldRole::Name)),
        Some(name) => Ok(
            CallbackView {
                name,
                args: arg_texts(c.children@, c.children@.len() as int),
                return_type: first_of_field_from(c.children@, FieldRole::ReturnType, 0),
            },
        ),
    }
}

/// The member given by a typed property node.
pub open spec fn property_of(p: SyntaxNode) -> Result<(Seq<char>, Seq<char>), TranslateError> {
    match first_of_field_from(p.children@, FieldRole::Name, 0) {
        None => Err(TranslateError::MissingField(FieldRole::Name)),
        Some(name) => match first_of_field_from(p.children@, FieldRole::Type, 0) {
            None => Err(TranslateError::MissingField(FieldRole::Type)),
            Some(t) => Ok((name, t)),
        },
    }
}

/// The member given by a property assignment node: the property's name and
/// the assigned value's text.
pub open spec fn assignment_of(p: SyntaxNode) -> Result<(Seq<char>, Seq<char>), TranslateError> {
    match first_of_field_from(p.children@, FieldRole::Property, 0) {
        None => Err(TranslateError::MissingField(FieldRole::Property)),
        Some(name) => match first_of_field_from(p.children@, FieldRole::Value, 0) {
            None => Err(TranslateError::MissingField(FieldRole::Value)),
            Some(v) => Ok((name, v)),
        },
    }
}

/// Members and callbacks read from the first `n` children of a component's
/// block, appended to `acc`.
pub open spec fn block_items_upto(
    acc: (Seq<(Seq<char>, Seq<char>)>, Seq<CallbackView>),
    ch: Seq<SyntaxNode>,
    n: int,
) -> Result<(Seq<(Seq<char>, Seq<char>)>, Seq<CallbackView>), TranslateError>
    decreases n,
{
    if n <= 0 {
        Ok(acc)
    } else {
        match block_items_upto(acc, ch, n - 1) {
            Err(e) => Err(e),
            Ok(prev) => {
                let item = ch[n - 1];
                if item.kind == NodeKind::Callback {
                    match callback_of(item) {
                        Err(e) => Err(e),
                        Ok(c) => Ok((prev.0, prev.1.push(c))),
                    }
                } else if item.kind == NodeKind::Property {
                    match property_of(item) {
                        Err(e) => Err(e),
                        Ok(m) => Ok((prev.0.push(m), prev.1)),
                    }
                } else if item.kind == NodeKind::PropertyAssignment {
                    match assignment_of(item) {
                        Err(e) => Err(e),
                        Ok(m) => Ok((prev.0.push(m), prev.1)),
                    }
                } else {
                    Ok(prev)
                }
            },
        }
    }
}

/// Members and callbacks read from the blocks among the first `n` children
/// of a component definition.
pub open spec fn component_items_upto(ch: Seq<SyntaxNode>, n: int) -> Result<
    (Seq<(Seq<char>, Seq<char>)>, Seq<CallbackView>),
    TranslateError,
>
    decreases n,
{
    if n <= 0 {
        Ok((Seq::empty(), Seq::empty()))
    } else {
        match component_items_upto(ch, n - 1) {
            Err(e) => Err(e),
            Ok(prev) => if ch[n - 1].kind == NodeKind::Block {
                block_items_upto(prev, ch[n - 1].children@, ch[n - 1].children@.len() as int)
            } else {
                Ok(prev)
            },
        }
    }
}

/// The properties and callbacks of a component definition node, each in
/// document order.
pub open spec fn component_items(node: SyntaxNode) -> Result<
    (Seq<(Seq<char>, Seq<char>)>, Seq<CallbackView>),
    TranslateError,
> {
    if node.kind == NodeKind::ComponentDefinition {
        component_items_upto(node.children@, node.children@.len() as int)
    } else {
        Ok((Seq::empty(), Seq::empty()))
    }
}

proof fn lemma_struct_error_stays(ch: Seq<SyntaxNode>, n: int, m: int)
    requires
        0 <= n <= m,
        struct_members_upto(ch, n) is Err,
    ensures
        struct_members_upto(ch, m) == struct_members_upto(ch, n),
    decreases m - n,
{
    if m > n {
        lemma_struct_error_stays(ch, n, m - 1);
    }
}

proof fn lemma_block_error_stays(
    acc: (Seq<(Seq<char>, Seq<char>)>, Seq<CallbackView>),
    ch: Seq<SyntaxNode>,
    n: int,
    m: int,
)
    requires
        0 <= n <= m,
        block_items_upto(acc, ch, n) is Err,
    ensures
        block_items_upto(acc, ch, m) == block_items_upto(acc, ch, n),
    decreases m - n,
{
    if m > n {
        lemma_block_error_stays(acc, ch, n, m - 1);
    }
}

proof fn lemma_component_error_stays_from(ch: Seq<SyntaxNode>, n: int, m: int)
    requires
        0 <= n <= m,
        component_items_upto(ch, n) is Err,
    ensures
        component_items_upto(ch, m) == component_items_upto(ch, n),
    decreases m - n,
{
    if m > n {
        lemma_component_error_stays_from(ch, n, m - 1);
    }
}

/// An error at item `j` of the block that is child `i` of a component makes
/// the whole component fail with it.
proof fn lemma_component_error_stays(
    ch: Seq<SyntaxNode>,
    acc: (Seq<(Seq<char>, Seq<char>)>, Seq<CallbackView>),
    i: int,
    j: int,
)
    requires
        0 <= i < ch.len(),
        ch[i].kind == NodeKind::Block,
        0 <= j <= ch[i].children@.len(),
        component_items_upto(ch, i) == Ok::<(Seq<(Seq<char>, Seq<char>)>, Seq<CallbackView>), TranslateError>(acc),
        block_items_upto(acc, ch[i].children@, j) is Err,
    ensures
        component_items_upto(ch, ch.len() as int) == block_items_upto(acc, ch[i].children@, j),
{
    lemma_block_error_stays(acc, ch[i].children@, j, ch[i].children@.len() as int);
    lemma_component_error_stays_from(ch, i + 1, ch.len() as int);
}

/// Reads the fields of a struct definition: the names and types of its body,
/// paired by position.
pub fn extract_struct_fields(node: &SyntaxNode) -> (r: Result<Vec<Member>, TranslateError>)
    ensures
        match struct_members(*node) {
            Ok(ms) => r matches Ok(v) && member_views(v@) == ms,
            Err(e) => r == Err::<Vec<Member>, TranslateError>(e),
        },
{
    let mut fields: Vec<Member> = Vec::new();
    if node.kind != NodeKind::StructDefinition {
        assert(member_views(fields@) =~= Seq::empty());
        return Ok(fields);
    }
    let mut i: usize = 0;
    while i < node.children.len()
        invariant
            0 <= i <= node.children@.len(),
            node.kind == NodeKind::StructDefinition,
            struct_members_upto(node.children@, i as int) matches Ok(ms) && member_views(fields@)
                == ms,
        decreases node.children@.len() - i,
    {
        let child = &node.children[i];
        if child.kind == NodeKind::StructBlock {
            let names = children_by_field(child, FieldRole::Name);
            let types = children_by_field(child, FieldRole::Type);
            if names.len() != types.len() {
                proof {
                    lemma_struct_error_stays(node.children@, i + 1, node.children@.len() as int);
                }
                return Err(TranslateError::FieldCountMismatch { names: names.len(), types: types.len() });
            }
            let mut paired: Vec<Member> = Vec::new();
            let mut j: usize = 0;
            while j < names.len()
                invariant
                    0 <= j <= names@.len(),
                    names@.len() == types@.len(),
                    paired@.len() == j,
                    forall|k: int| 0 <= k < j ==> #[trigger] paired@[k]@ == (names@[k]@, types@[k]@),
                decreases names@.len() - j,
            {
                paired.push(Member { name: names[j].clone(), type_expr: types[j].clone() });
                j = j + 1;
            }
            fields = paired;
            assert(member_views(fields@) =~= struct_block_members(*child)->Ok_0);
        }
        i = i + 1;
    }
    Ok(fields)
}

/// Reads one callback node's signature.
fn extract_callback(c: &SyntaxNode) -> (r: Result<Callback, TranslateError>)
    ensures
        match callback_of(*c) {
            Ok(cv) => r matches Ok(cb) && cb@ == cv,
            Err(e) => r == Err::<Callback, TranslateError>(e),
        },
{
    let name = match child_by_field(c, FieldRole::Name) {
        Some(n) => n,
        None => {
            return Err(TranslateError::MissingField(FieldRole::Name));
        },
    };
    let return_type = child_by_field(c, FieldRole::ReturnType);
    let comma = String::from_str(",");
    let mut args: Vec<String> = Vec::new();
    let mut i: usize = 0;
    while i < c.children.len()
        invariant
            0 <= i <= c.children@.len(),
            comma@ == ","@,
            texts(args@) =~= arg_texts(c.children@, i as int),
        decreases c.children@.len() - i,
    {
        let child = &c.children[i];
        if child.field == FieldRole::Arguments && !(child.text == comma) {
            args.push(child.text.clone());
        }
        i = i + 1;
    }
    let cb = Callback { name, args, return_type };
    assert(cb@ == callback_of(*c)->Ok_0);
    Ok(cb)
}

/// Reads one member of a component's block from the children in the roles
/// `name_role` and `type_role`.
fn extract_member(p: &SyntaxNode, name_role: FieldRole, type_role: FieldRole) -> (r: Result<
    Member,
    TranslateError,
>)
    ensures
        match first_of_field_from(p.children@, name_role, 0) {
            None => r == Err::<Member, TranslateError>(TranslateError::MissingField(name_role)),
            Some(name) => match first_of_field_from(p.children@, type_role, 0) {
                None => r == Err::<Member, TranslateError>(TranslateError::MissingField(type_role)),
                Some(t) => r matches Ok(m) && m@ == (name, t),
            },
        },
{
    let name = match child_by_field(p, name_role) {
        Some(n) => n,
        None => {
            return Err(TranslateError::MissingField(name_role));
        },
    };
    let type_expr = match child_by_field(p, type_role) {
        Some(t) => t,
        None => {
            return Err(TranslateError::MissingField(type_role));
        },
    };
    Ok(Member { name, type_expr })
}

/// Reads the properties, property assignments and callbacks of a component
/// definition, each kind in document order.
pub fn extract_component_properties(node: &SyntaxNode) -> (r: Result<
    (Vec<Member>, Vec<Callback>),
    TranslateError,
>)
    ensures
        match component_items(*node) {
            Ok(items) => r matches Ok(v) && member_views(v.0@) == items.0 && callback_views(v.1@)
                == items.1,
            Err(e) => r == Err::<(Vec<Member>, Vec<Callback>), TranslateError>(e),
        },
{
    let mut properties: Vec<Member> = Vec::new();
    let mut callbacks: Vec<Callback> = Vec::new();
    if node.kind != NodeKind::ComponentDefinition {
        assert(member_views(properties@) =~= Seq::empty());
        assert(callback_views(callbacks@) =~= Seq::empty());
        return Ok((properties, callbacks));
    }
    let mut i: usize = 0;
    while i < node.children.len()
        invariant
            0 <= i <= node.children@.len(),
            node.kind == NodeKind::ComponentDefinition,
            component_items_upto(node.children@, i as int) matches Ok(items) && member_views(
                properties@,
            ) == items.0 && callback_views(callbacks@) == items.1,
        decreases node.children@.len() - i,
    {
        let block = &node.children[i];
        if block.kind == NodeKind::Block {
            let ghost acc = (member_views(properties@), callback_views(callbacks@));
            let mut j: usize = 0;
            while j < block.children.len()
                invariant
                    0 <= j <= block.children@.len(),
                    0 <= i < node.children@.len(),
                    node.kind == NodeKind::ComponentDefinition,
                    *block == node.children@[i as int],
                    block.kind == NodeKind::Block,
                    component_items_upto(node.children@, i as int) == Ok::<
                        (Seq<(Seq<char>, Seq<char>)>, Seq<CallbackView>),
                        TranslateError,
                    >(acc),
                    block_items_upto(acc, block.children@, j as int) matches Ok(items)
                        && member_views(properties@) == items.0 && callback_views(callbacks@)
                        == items.1,
                decreases block.children@.len() - j,
            {
                let item = &block.children[j];
                if item.kind == NodeKind::Callback {
                    let cb = match extract_callback(item) {
                        Ok(x) => x,
                        Err(e) => {
                            proof {
                                lemma_component_error_stays(node.children@, acc, i as int, j + 1);
                            }
                            return Err(e);
                        },
                    };
                    callbacks.push(cb);
                    assert(callback_views(callbacks@) =~= block_items_upto(
                        acc,
                        block.children@,
                        j + 1,
                    )->Ok_0.1);
                } else if item.kind == NodeKind::Property {
                    let m = match extract_member(item, FieldRole::Name, FieldRole::Type) {
                        Ok(x) => x,
                        Err(e) => {
                            proof {
                                lemma_component_error_stays(node.children@, acc, i as int, j + 1);
                            }
                            return Err(e);
                        },
                    };
                    properties.push(m);
                    assert(member_views(properties@) =~= block_items_upto(
                        acc,
                        block.children@,
                        j + 1,
                    )->Ok_0.0);
                } else if item.kind == NodeKind::PropertyAssignment {
                    let m = match extract_member(item, FieldRole::Property, FieldRole::Value) {
                        Ok(x) => x,
                        Err(e) => {
                            proof {
                                lemma_component_error_stays(node.children@, acc, i as int, j + 1);
                            }
                            return Err(e);
                        },
                    };
                    properties.push(m);
                    assert(member_views(properties@) =~= block_items_upto(
                        acc,
                        block.children@,
                        j + 1,
                    )->Ok_0.0);
                }
                j = j + 1;
            }
        }
        i = i + 1;
    }
    Ok((properties, callbacks))
}

} // verus!
