use vstd::prelude::*;
use crate::tree::SyntaxNode;
use crate::types::DeclaredNames;
use crate::extract::{Callback, CallbackView, Member, TranslateError};
use crate::emit::{Interface, InterfaceView, interface_views, process_node, walk};

verus! {

/// The decimal digit `d`.
pub open spec fn digit_char(d: nat) -> char {
    if d == 0 {
        '0'
    } else if d == 1 {
        '1'
    } else if d == 2 {
        '2'
    } else if d == 3 {
        '3'
    } else if d == 4 {
        '4'
    } else if d == 5 {
        '5'
    } else if d == 6 {
        '6'
    } else if d == 7 {
        '7'
    } else if d == 8 {
        '8'
    } else {
        '9'
    }
}

/// `n` written in decimal, without leading zeros.
pub open spec fn decimal(n: nat) -> Seq<char>
    decreases n,
{
    if n < 10 {
        seq![digit_char(n)]
    } else {
        decimal(n / 10).push(digit_char(n % 10))
    }
}

/// The line for one member.
pub open spec fn render_member(m: (Seq<char>, Seq<char>)) -> Seq<char> {
    "  "@ + m.0 + ": "@ + m.1 + ";\n"@
}

/// The lines for the first `n` members.
pub open spec fn render_members(ms: Seq<(Seq<char>, Seq<char>)>, n: int) -> Seq<char>
    decreases n,
{
    if n <= 0 {
        Seq::empty()
    } else {
        render_members(ms, n - 1) + render_member(ms[n - 1])
    }
}

/// The parameter for the argument at position `k`.
pub open spec fn render_arg(a: Seq<char>, k: nat) -> Seq<char> {
    "arg"@ + decimal(k) + ": "@ + a
}

/// The comma-separated parameters for the first `n` arguments.
pub open spec fn render_args(args: Seq<Seq<char>>, n: int) -> Seq<char>
    decreases n,
{
    if n <= 0 {
        Seq::empty()
    } else if n == 1 {
        render_arg(args[0], 0)
    } else {
        render_args(args, n - 1) + ", "@ + render_arg(args[n - 1], (n - 1) as nat)
    }
}

/// The line for one callback: a method type, with a return type only where
/// the callback has one.
pub open spec fn render_callback(c: CallbackView) -> Seq<char> {
    "  "@ + c.name + ": ("@ + render_args(c.args, c.args.len() as int) + ")"@ + match c.return_type {
        Some(t) => " => "@ + t + ";\n"@,
        None => ";\n"@,
    }
}

/// The lines for the first `n` callbacks.
pub open spec fn render_callbacks(cs: Seq<CallbackView>, n: int) -> Seq<char>
    decreases n,
{
    if n <= 0 {
        Seq::empty()
    } else {
        render_callbacks(cs, n - 1) + render_callback(cs[n - 1])
    }
}

/// The text of one interface: members first, then callbacks, then for a
/// component the `run` method.
pub open spec fn render_interface_spec(d: InterfaceView) -> Seq<char> {
    "export interface "@ + d.name + " {\n"@ + render_members(d.members, d.members.len() as int)
        + render_callbacks(d.callbacks, d.callbacks.len() as int) + (if d.is_component {
        "  run: () => Promise<void>;\n"@
    } else {
        Seq::empty()
    }) + "}\n"@
}

/// The text of the first `n` interfaces.
pub open spec fn render_all(ds: Seq<InterfaceView>, n: int) -> Seq<char>
    decreases n,
{
    if n <= 0 {
        Seq::empty()
    } else {
        render_all(ds, n - 1) + render_interface_spec(ds[n - 1])
    }
}

/// The whole output for a file: a line that lets linters accept `any`, then
/// every interface.
pub open spec fn render_file(ds: Seq<InterfaceView>) -> Seq<char> {
    "// deno-lint-ignore-file no-explicit-any\n"@ + render_all(ds, ds.len() as int)
}

/// The translation of the tree rooted at `root`.
pub open spec fn translation(root: SyntaxNode) -> Result<Seq<char>, TranslateError> {
    match walk(seq![root], 0, Set::empty()) {
        Ok(w) => Ok(render_file(w.0)),
        Err(e) => Err(e),
    }
}

fn digit_str(d: usize) -> (r: &'static str)
    requires
        d < 10,
    ensures
        r@ == seq![digit_char(d as nat)],
{
    proof {
        reveal_strlit("0");
        reveal_strlit("1");
        reveal_strlit("2");
        reveal_strlit("3");
        reveal_strlit("4");
        reveal_strlit("5");
        reveal_strlit("6");
        reveal_strlit("7");
        reveal_strlit("8");
        reveal_strlit("9");
    }
    if d == 0 {
        "0"
    } else if d == 1 {
        "1"
    } else if d == 2 {
        "2"
    } else if d == 3 {
        "3"
    } else if d == 4 {
        "4"
    } else if d == 5 {
        "5"
    } else if d == 6 {
        "6"
    } else if d == 7 {
        "7"
    } else if d == 8 {
        "8"
    } else {
        "9"
    }
}

/// Writes `n` in decimal.
pub fn decimal_string(n: usize) -> (r: String)
    ensures
        r@ == decimal(n as nat),
    decreases n,
{
    if n < 10 {
        String::from_str(digit_str(n))
    } else {
        let mut s = decimal_string(n / 10);
        s.append(digit_str(n % 10));
        s
    }
}

fn append_member(out: &mut String, m: &Member)
    ensures
        final(out)@ == old(out)@ + render_member(m@),
{
    out.append("  ");
    out.append(m.name.as_str());
    out.append(": ");
    out.append(m.type_expr.as_str());
    out.append(";\n");
    assert(out@ =~= old(out)@ + render_member(m@));
}

fn append_callback(out: &mut String, c: &Callback)
    ensures
        final(out)@ == old(out)@ + render_callback(c@),
{
    let ghost start = out@;
    out.append("  ");
    out.append(c.name.as_str());
    out.append(": (");
    let ghost before_args = out@;
    let mut i: usize = 0;
    while i < c.args.len()
        invariant
            0 <= i <= c.args@.len(),
            out@ == before_args + render_args(c@.args, i as int),
        decreases c.args@.len() - i,
    {
        if i > 0 {
            out.append(", ");
        }
        out.append("arg");
        let digits = decimal_string(i);
        out.append(digits.as_str());
        out.append(": ");
        out.append(c.args[i].as_str());
        assert(out@ =~= before_args + render_args(c@.args, i + 1));
        i = i + 1;
    }
    out.append(")");
    match &c.return_type {
        Some(t) => {
            out.append(" => ");
            out.append(t.as_str());
            out.append(";\n");
        },
        None => {
            out.append(";\n");
        },
    }
    assert(out@ =~= start + render_callback(c@));
}

/// Writes the text of one interface.
pub fn render_interface(d: &Interface) -> (r: String)
    ensures
        r@ == render_interface_spec(d@),
{
    let mut out = String::from_str("export interface ");
    out.append(d.name.as_str());
    out.append(" {\n");
    let ghost head = out@;
    let mut i: usize = 0;
    while i < d.members.len()
        invariant
            0 <= i <= d.members@.len(),
            out@ == head + render_members(d@.members, i as int),
        decreases d.members@.len() - i,
    {
        append_member(&mut out, &d.members[i]);
        assert(out@ =~= head + render_members(d@.members, i + 1));
        i = i + 1;
    }
    let ghost body = out@;
    let mut j: usize = 0;
    while j < d.callbacks.len()
        invariant
            0 <= j <= d.callbacks@.len(),
            out@ == body + render_callbacks(d@.callbacks, j as int),
        decreases d.callbacks@.len() - j,
    {
        append_callback(&mut out, &d.callbacks[j]);
        assert(out@ =~= body + render_callbacks(d@.callbacks, j + 1));
        j = j + 1;
    }
    let ghost tail = out@;
    if d.is_component {
        out.append("  run: () => Promise<void>;\n");
    } else {
        assert(out@ =~= tail + Seq::empty());
    }
    out.append("}\n");
    assert(out@ =~= render_interface_spec(d@));
    out
}

/// Translates the Slint file whose syntax tree is rooted at `root` into its
/// TypeScript declarations, or reports the first node that lacks a child its
/// kind requires.
pub fn translate(root: SyntaxNode) -> (r: Result<String, TranslateError>)
    ensures
        match translation(root) {
            Ok(text) => r matches Ok(s) && s@ == text,
            Err(e) => r == Err::<String, TranslateError>(e),
        },
{
    let ghost root_view = root;
    let nodes = vec![root];
    assert(nodes@ =~= seq![root_view]);
    let mut seen_types = DeclaredNames::new();
    let mut decls: Vec<Interface> = Vec::new();
    assert(interface_views(decls@) =~= Seq::empty());
    process_node(&nodes, 0, &mut seen_types, &mut decls)?;
    assert(interface_views(decls@) =~= walk(seq![root_view], 0, Set::empty())->Ok_0.0);
    let mut out = String::from_str("// deno-lint-ignore-file no-explicit-any\n");
    let ghost head = out@;
    let mut i: usize = 0;
    while i < decls.len()
        invariant
            0 <= i <= decls@.len(),
            out@ == head + render_all(interface_views(decls@), i as int),
        decreases decls@.len() - i,
    {
        let text = render_interface(&decls[i]);
        out.append(text.as_str());
        assert(out@ =~= head + render_all(interface_views(decls@), i + 1));
        i = i + 1;
    }
    Ok(out)
}

} // verus!
