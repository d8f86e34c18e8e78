use slint_ts::emit::{process_component, process_node, process_struct, Interface};
use slint_ts::extract::{extract_component_properties, extract_struct_fields, TranslateError};
use slint_ts::render::{render_interface, translate};
use slint_ts::tree::{find_child_by_kind, FieldRole, NodeKind, SyntaxNode};
use slint_ts::types::DeclaredNames;

const HEADER: &str = "// deno-lint-ignore-file no-explicit-any\n";

fn leaf(kind: NodeKind, field: FieldRole, text: &str) -> SyntaxNode {
    SyntaxNode::new(kind, field, text, Vec::new())
}

fn token(text: &str) -> SyntaxNode {
    leaf(NodeKind::Other, FieldRole::Unnamed, text)
}

fn struct_def(name: &str, fields: &[(&str, &str)]) -> SyntaxNode {
    let mut body = vec![token("{")];
    for (n, t) in fields {
        body.push(leaf(NodeKind::Other, FieldRole::Name, n));
        body.push(token(":"));
        body.push(leaf(NodeKind::Other, FieldRole::Type, t));
        body.push(token(","));
    }
    body.push(token("}"));
    SyntaxNode::new(
        NodeKind::StructDefinition,
        FieldRole::Unnamed,
        "struct ...",
        vec![
            token("struct"),
            leaf(NodeKind::UserTypeIdentifier, FieldRole::Name, name),
            SyntaxNode::new(NodeKind::StructBlock, FieldRole::Unnamed, "{...}", body),
        ],
    )
}

fn property(name: &str, ty: &str) -> SyntaxNode {
    SyntaxNode::new(
        NodeKind::Property,
        FieldRole::Unnamed,
        "property ...",
        vec![
            token("property"),
            token("<"),
            leaf(NodeKind::Other, FieldRole::Type, ty),
            token(">"),
            leaf(NodeKind::Other, FieldRole::Name, name),
            token(";"),
        ],
    )
}

fn assignment(name: &str, value: &str) -> SyntaxNode {
    SyntaxNode::new(
        NodeKind::PropertyAssignment,
        FieldRole::Unnamed,
        "assignment ...",
        vec![
            leaf(NodeKind::Other, FieldRole::Property, name),
            token(":"),
            leaf(NodeKind::Other, FieldRole::Value, value),
            leaf(NodeKind::Other, FieldRole::Value, ";"),
        ],
    )
}

fn callback(name: &str, args: &[&str], ret: Option<&str>) -> SyntaxNode {
    let mut ch = vec![token("callback"), leaf(NodeKind::Other, FieldRole::Name, name), token("(")];
    for (i, a) in args.iter().enumerate() {
        if i > 0 {
            ch.push(leaf(NodeKind::Other, FieldRole::Arguments, ","));
        }
        ch.push(leaf(NodeKind::Other, FieldRole::Arguments, a));
    }
    ch.push(token(")"));
    if let Some(r) = ret {
        ch.push(token("->"));
        ch.push(leaf(NodeKind::UserTypeIdentifier, FieldRole::ReturnType, r));
    }
    ch.push(token(";"));
    SyntaxNode::new(NodeKind::Callback, FieldRole::Unnamed, "callback ...", ch)
}

fn component_def(name: &str, items: Vec<SyntaxNode>) -> SyntaxNode {
    let mut body = vec![token("{")];
    body.extend(items);
    body.push(token("}"));
    SyntaxNode::new(
        NodeKind::ComponentDefinition,
        FieldRole::Unnamed,
        "component ...",
        vec![
            token("component"),
            leaf(NodeKind::UserTypeIdentifier, FieldRole::Name, name),
            token("inherits"),
            leaf(NodeKind::UserTypeIdentifier, FieldRole::Unnamed, "Window"),
            SyntaxNode::new(NodeKind::Block, FieldRole::Unnamed, "{...}", body),
        ],
    )
}

fn export() -> SyntaxNode {
    leaf(NodeKind::Export, FieldRole::Unnamed, "export")
}

fn file(items: Vec<SyntaxNode>) -> SyntaxNode {
    SyntaxNode::new(NodeKind::Other, FieldRole::Unnamed, "...", items)
}

fn names_of(out: &[Interface]) -> Vec<String> {
    out.iter().map(|d| d.name.clone()).collect()
}

#[test]
fn struct_with_two_fields() {
    let root = file(vec![struct_def("Pair", &[("x", "int"), ("y", "string")])]);
    let text = translate(root).unwrap();
    let expected = format!("{}export interface Pair {{\n  x: number;\n  y: string;\n}}\n", HEADER);
    assert_eq!(text, expected);
}

#[test]
fn component_with_property_and_callback() {
    let root = file(vec![
        export(),
        component_def("App", vec![property("value", "int"), callback("clicked", &[], None)]),
    ]);
    let text = translate(root).unwrap();
    let expected = format!(
        "{}export interface App {{\n  value: number;\n  clicked: ();\n  run: () => Promise<void>;\n}}\n",
        HEADER
    );
    assert_eq!(text, expected);
}

#[test]
fn struct_reference_resolves_after_declaration() {
    let root = file(vec![
        struct_def("Point", &[("x", "int"), ("y", "int")]),
        export(),
        component_def("App", vec![property("origin", "Point")]),
    ]);
    let text = translate(root).unwrap();
    assert!(text.contains("  origin: Point;\n"));
    assert!(!text.contains("origin: any"));
}

#[test]
fn forward_reference_degrades_to_any() {
    let root = file(vec![
        export(),
        component_def("App", vec![property("origin", "Point")]),
        struct_def("Point", &[("x", "int"), ("y", "int")]),
    ]);
    let text = translate(root).unwrap();
    assert!(text.contains("  origin: any;\n"));
}

#[test]
fn declarations_come_out_in_document_order() {
    let root = file(vec![
        struct_def("A", &[("a", "int")]),
        export(),
        component_def("B", vec![]),
        struct_def("C", &[]),
        token(";"),
        export(),
        component_def("D", vec![]),
    ]);
    let nodes = vec![root];
    let mut seen = DeclaredNames::new();
    let mut out = Vec::new();
    process_node(&nodes, 0, &mut seen, &mut out).unwrap();
    assert_eq!(names_of(&out), vec!["A", "B", "C", "D"]);
    assert_eq!(out.iter().map(|d| d.is_component).collect::<Vec<_>>(), vec![false, true, false, true]);
    assert!(seen.contains("A") && seen.contains("C"));
    assert!(!seen.contains("B"));
}

#[test]
fn component_without_export_is_skipped() {
    let root = file(vec![component_def("Hidden", vec![property("v", "int")])]);
    assert_eq!(translate(root).unwrap(), HEADER);
}

#[test]
fn empty_file_gives_header_only() {
    assert_eq!(translate(file(vec![])).unwrap(), HEADER);
}

#[test]
fn struct_refers_to_itself() {
    let root = file(vec![struct_def("Node", &[("next", "[Node]"), ("label-text", "string")])]);
    let text = translate(root).unwrap();
    let expected = format!(
        "{}export interface Node {{\n  next: Node[];\n  label_text: string;\n}}\n",
        HEADER
    );
    assert_eq!(text, expected);
}

#[test]
fn callback_with_arguments_and_return_type() {
    let root = file(vec![
        export(),
        component_def(
            "App",
            vec![
                callback("on-pick", &["int", "[string]", "Thing"], Some("bool")),
                assignment("title", "\"Hello\""),
            ],
        ),
    ]);
    let text = translate(root).unwrap();
    let expected = format!(
        "{}export interface App {{\n  title: any;\n  on_pick: (arg0: number, arg1: string[], arg2: any) => boolean;\n  run: () => Promise<void>;\n}}\n",
        HEADER
    );
    assert_eq!(text, expected);
}

#[test]
fn many_arguments_are_numbered_in_decimal() {
    let args = ["int"; 12];
    let c = component_def("App", vec![callback("f", &args, None)]);
    let d = process_component(&c, &DeclaredNames::new()).unwrap();
    let line = render_interface(&d);
    assert!(line.contains("arg9: number, arg10: number, arg11: number);\n"));
}

#[test]
fn unnamed_declarations_get_placeholders() {
    let s = SyntaxNode::new(NodeKind::StructDefinition, FieldRole::Unnamed, "struct", vec![]);
    let mut seen = DeclaredNames::new();
    let d = process_struct(&s, &mut seen).unwrap();
    assert_eq!(d.name, "UnnamedStruct");
    assert!(seen.contains("UnnamedStruct"));
    let c = SyntaxNode::new(NodeKind::ComponentDefinition, FieldRole::Unnamed, "component", vec![]);
    let d = process_component(&c, &seen).unwrap();
    assert_eq!(d.name, "UnnamedComponent");
    assert_eq!(render_interface(&d), "export interface UnnamedComponent {\n  run: () => Promise<void>;\n}\n");
}

#[test]
fn find_child_by_kind_takes_the_first() {
    let c = component_def("App", vec![]);
    assert_eq!(find_child_by_kind(&c, NodeKind::UserTypeIdentifier), Some("App".to_string()));
    assert_eq!(find_child_by_kind(&c, NodeKind::Callback), None);
}

#[test]
fn extract_struct_fields_pairs_by_position() {
    let s = struct_def("P", &[("a", "int"), ("b", "[bool]")]);
    let fields = extract_struct_fields(&s).unwrap();
    let pairs: Vec<(String, String)> = fields.into_iter().map(|m| (m.name, m.type_expr)).collect();
    assert_eq!(pairs, vec![("a".to_string(), "int".to_string()), ("b".to_string(), "[bool]".to_string())]);
}

#[test]
fn mismatched_field_counts_are_rejected() {
    let body = vec![
        leaf(NodeKind::Other, FieldRole::Name, "a"),
        leaf(NodeKind::Other, FieldRole::Name, "b"),
        leaf(NodeKind::Other, FieldRole::Type, "int"),
    ];
    let s = SyntaxNode::new(
        NodeKind::StructDefinition,
        FieldRole::Unnamed,
        "struct",
        vec![SyntaxNode::new(NodeKind::StructBlock, FieldRole::Unnamed, "{}", body)],
    );
    assert_eq!(
        extract_struct_fields(&s).err(),
        Some(TranslateError::FieldCountMismatch { names: 2, types: 1 })
    );
    assert_eq!(translate(file(vec![s])).err(), Some(TranslateError::FieldCountMismatch { names: 2, types: 1 }));
}

#[test]
fn callback_without_name_is_rejected() {
    let bad = SyntaxNode::new(NodeKind::Callback, FieldRole::Unnamed, "callback", vec![token("callback")]);
    let c = component_def("App", vec![bad]);
    assert_eq!(extract_component_properties(&c).err(), Some(TranslateError::MissingField(FieldRole::Name)));
    let root = file(vec![export(), c]);
    assert_eq!(translate(root).err(), Some(TranslateError::MissingField(FieldRole::Name)));
}

#[test]
fn property_without_type_is_rejected() {
    let bad = SyntaxNode::new(
        NodeKind::Property,
        FieldRole::Unnamed,
        "property",
        vec![leaf(NodeKind::Other, FieldRole::Name, "v")],
    );
    let c = component_def("App", vec![bad]);
    assert_eq!(extract_component_properties(&c).err(), Some(TranslateError::MissingField(FieldRole::Type)));
}

#[test]
fn assignment_without_value_is_rejected() {
    let bad = SyntaxNode::new(
        NodeKind::PropertyAssignment,
        FieldRole::Unnamed,
        "assignment",
        vec![leaf(NodeKind::Other, FieldRole::Property, "v")],
    );
    let c = component_def("App", vec![bad]);
    assert_eq!(extract_component_properties(&c).err(), Some(TranslateError::MissingField(FieldRole::Value)));
}

#[test]
fn component_members_keep_document_order() {
    let c = component_def(
        "App",
        vec![property("a", "int"), callback("x", &[], None), assignment("b", "5"), callback("y", &["bool"], Some("int"))],
    );
    let (props, cbs) = extract_component_properties(&c).unwrap();
    assert_eq!(props.iter().map(|m| m.name.clone()).collect::<Vec<_>>(), vec!["a", "b"]);
    assert_eq!(props[1].type_expr, "5");
    assert_eq!(cbs.iter().map(|c| c.name.clone()).collect::<Vec<_>>(), vec!["x", "y"]);
    assert_eq!(cbs[1].args, vec!["bool".to_string()]);
    assert_eq!(cbs[1].return_type, Some("int".to_string()));
    assert_eq!(cbs[0].return_type, None);
}
