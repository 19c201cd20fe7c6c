use frincoe::errors::ResolutionError;
use frincoe::helpers::{extract_signature, is_self, normalize};
use frincoe::locate::{find_trait_from_file, ScopeTree, TraitCode, TraitDef, TraitSpec};
use frincoe::model::{
    InterfaceItem, OperationSignature, Param, PathSeg, Qualifiers, RawArg, RawOperation,
    ReceiverKind, ReturnShape,
};
use frincoe::render::render_item;

fn seg(s: &str) -> PathSeg {
    PathSeg {
        ident: s.to_string(),
        args: String::new(),
    }
}

fn op(name: &str, receiver: ReceiverKind, params: Vec<(&str, &str)>, ret: Option<&str>) -> InterfaceItem {
    InterfaceItem::Operation(OperationSignature {
        qualifiers: Qualifiers {
            is_const: false,
            is_async: false,
            is_unsafe: false,
            abi: None,
        },
        receiver,
        name: name.to_string(),
        generics: String::new(),
        params: params
            .into_iter()
            .map(|(n, t)| Param {
                name: n.to_string(),
                ty: t.to_string(),
            })
            .collect(),
        ret: match ret {
            Some(t) => ReturnShape::Typed(t.to_string()),
            None => ReturnShape::Void,
        },
    })
}

fn def(name: &str, items: Vec<InterfaceItem>) -> TraitDef {
    TraitDef {
        name: name.to_string(),
        items,
    }
}

#[test]
fn check_self() {
    assert!(is_self(&RawArg::Receiver(ReceiverKind::ByValue)));
    assert!(is_self(&RawArg::Receiver(ReceiverKind::ByRef)));
    assert!(is_self(&RawArg::Receiver(ReceiverKind::ByMutRef)));
    assert!(is_self(&RawArg::Binding {
        name: "self".to_string(),
        ty: "&'a mut Pin < Box < Self > >".to_string(),
    }));
}

#[test]
fn read_trait_several() {
    let mut tree = ScopeTree::new();
    tree.add_trait(0, def("R", vec![op("Rf", ReceiverKind::Absent, vec![], None)]));
    tree.add_trait(0, def("T", vec![op("Tf", ReceiverKind::ByValue, vec![], None)]));
    let items = find_trait_from_file(tree, &vec![seg("T")]).unwrap();
    assert_eq!(items.len(), 1);
    assert_eq!(render_item(&items[0]), "fn Tf(self);");

    let mut tree = ScopeTree::new();
    tree.add_trait(0, def("T", vec![op("Tf", ReceiverKind::Absent, vec![], None)]));
    let orz = tree.add_scope(0, "Orz".to_string());
    let qwq = tree.add_scope(orz, "QWQ".to_string());
    tree.add_trait(qwq, def("T", vec![op("Tf", ReceiverKind::ByRef, vec![], None)]));
    let qaq = tree.add_scope(orz, "QAQ".to_string());
    tree.add_trait(qaq, def("T", vec![op("Tf", ReceiverKind::ByValue, vec![], None)]));
    let items = find_trait_from_file(tree, &vec![seg("Orz"), seg("QAQ"), seg("T")]).unwrap();
    assert_eq!(items.len(), 1);
    assert_eq!(render_item(&items[0]), "fn Tf(self);");
}

#[test]
fn not_exist() {
    let mut tree = ScopeTree::new();
    let orz = tree.add_scope(0, "Orz".to_string());
    tree.add_trait(orz, def("R", vec![op("Tf", ReceiverKind::ByValue, vec![], None)]));
    let r = find_trait_from_file(tree, &vec![seg("Orz"), seg("T")]);
    assert_eq!(r.unwrap_err(), ResolutionError::InterfaceNotFound);
}

#[test]
fn locate_more_fns() {
    // A file holding two top-level interfaces and a nested scope: locating
    // `pathing::MoreFns` finds the three operations declared inside it, in
    // declaration order, and a sibling name that does not exist fails.
    let mut tree = ScopeTree::new();
    tree.add_trait(0, def("Empty", vec![]));
    tree.add_trait(
        0,
        def(
            "SayHello",
            vec![op(
                "hello",
                ReceiverKind::ByRef,
                vec![("name", "& str")],
                Some("std :: io :: Result < () >"),
            )],
        ),
    );
    let pathing = tree.add_scope(0, "pathing".to_string());
    tree.add_trait(
        pathing,
        def(
            "MoreFns",
            vec![
                op("f1", ReceiverKind::ByValue, vec![("x", "i32")], Some("u32")),
                op("f2", ReceiverKind::ByRef, vec![("x", "u32")], Some("i32")),
                op("f3", ReceiverKind::ByMutRef, vec![("x", "f32"), ("y", "f32")], Some("(f32, f32)")),
            ],
        ),
    );
    let items = find_trait_from_file(tree, &vec![seg("pathing"), seg("MoreFns")]).unwrap();
    assert_eq!(items.len(), 3);
    assert_eq!(render_item(&items[0]), "fn f1(self, x: i32) -> u32;");
    assert_eq!(render_item(&items[1]), "fn f2(&self, x: u32) -> i32;");
    assert_eq!(render_item(&items[2]), "fn f3(&mut self, x: f32, y: f32) -> (f32, f32);");

    let mut tree = ScopeTree::new();
    let pathing = tree.add_scope(0, "pathing".to_string());
    tree.add_trait(pathing, def("MoreFns", vec![]));
    let r = find_trait_from_file(tree, &vec![seg("pathing"), seg("OtherFns")]);
    assert_eq!(r.unwrap_err(), ResolutionError::InterfaceNotFound);
}

#[test]
fn resolution_failures() {
    let tree = ScopeTree::new();
    let r = find_trait_from_file(tree, &vec![]);
    assert_eq!(r.unwrap_err(), ResolutionError::EmptyPath);

    let tree = ScopeTree::new();
    let r = find_trait_from_file(tree, &vec![seg("nope"), seg("T")]);
    assert_eq!(r.unwrap_err(), ResolutionError::ScopeNotFound);

    let spec = TraitSpec {
        source: TraitCode::File {
            name: "missing.rs".to_string(),
            location: vec![seg("T")],
        },
        alias: None,
    };
    let r = spec.get_trait(None);
    assert_eq!(r.unwrap_err(), ResolutionError::DefinitionSourceUnreadable);
}

#[test]
fn normalizes_receivers() {
    let raw = RawOperation {
        is_const: true,
        is_async: false,
        is_unsafe: true,
        abi: Some("C".to_string()),
        name: "f".to_string(),
        generics: String::new(),
        inputs: vec![
            RawArg::Binding {
                name: "self".to_string(),
                ty: "Pin < Box < Self > >".to_string(),
            },
            RawArg::Binding {
                name: "x".to_string(),
                ty: "i32".to_string(),
            },
        ],
        output: ReturnShape::Typed("i32".to_string()),
    };
    let sig = normalize(raw);
    assert!(matches!(sig.receiver, ReceiverKind::ByValue));
    assert!(sig.qualifiers.is_const && sig.qualifiers.is_unsafe && !sig.qualifiers.is_async);
    assert_eq!(sig.params.len(), 1);
    assert_eq!(sig.params[0].name, "x");
    assert_eq!(sig.params[0].ty, "i32");

    let raw = RawOperation {
        is_const: false,
        is_async: false,
        is_unsafe: false,
        abi: None,
        name: "g".to_string(),
        generics: String::new(),
        inputs: vec![RawArg::Binding {
            name: "a".to_string(),
            ty: "u8".to_string(),
        }],
        output: ReturnShape::Void,
    };
    let extracted = extract_signature(raw);
    assert_eq!(extracted.ident, "g");
    assert_eq!(extracted.inputs.len(), 1);
}
