use frincoe::errors::StructuralError;
use frincoe::make_dispatcher::{compile_dispatch, make_dispatcher_impl, CallStyle};
use frincoe::model::{
    InterfaceItem, OperationSignature, Param, Qualifiers, ReceiverKind, ReturnShape,
};
use frincoe::tokens::{Delim, Tok};

fn id(s: &str) -> Tok {
    Tok::Ident(s.to_string())
}

fn pn(c: char) -> Tok {
    Tok::Punct(c)
}

fn paren(v: Vec<Tok>) -> Tok {
    Tok::Group(Delim::Paren, v)
}

fn brace(v: Vec<Tok>) -> Tok {
    Tok::Group(Delim::Brace, v)
}

fn op(name: &str, receiver: ReceiverKind, params: Vec<(&str, &str)>, ret: Option<&str>) -> InterfaceItem {
    InterfaceItem::Operation(OperationSignature {
        qualifiers: Qualifiers {
            is_const: false,
            is_async: false,
            is_unsafe: false,
            abi: None,
        },
        receiver,
        name: name.to_string(),
        generics: String::new(),
        params: params
            .into_iter()
            .map(|(n, t)| Param {
                name: n.to_string(),
                ty: t.to_string(),
            })
            .collect(),
        ret: match ret {
            Some(t) => ReturnShape::Typed(t.to_string()),
            None => ReturnShape::Void,
        },
    })
}

#[test]
fn make_dispatcher_several() {
    // impl { trait T { const T: i32; fn f1(&mut self, a: i32, b: i64) -> Vec<i32>;
    // fn f2(mut self: Pin<Box<Self>>, u: i32); fn f3_snake() -> Box<i32>; } }
    // for pathed::Struct
    let toks = vec![
        id("impl"),
        brace(vec![
            id("trait"),
            id("T"),
            brace(vec![
                id("const"),
                id("T"),
                pn(':'),
                id("i32"),
                pn(';'),
                id("fn"),
                id("f1"),
                paren(vec![
                    pn('&'),
                    id("mut"),
                    id("self"),
                    pn(','),
                    id("a"),
                    pn(':'),
                    id("i32"),
                    pn(','),
                    id("b"),
                    pn(':'),
                    id("i64"),
                ]),
                Tok::Arrow,
                id("Vec"),
                pn('<'),
                id("i32"),
                pn('>'),
                pn(';'),
                id("fn"),
                id("f2"),
                paren(vec![
                    id("mut"),
                    id("self"),
                    pn(':'),
                    id("Pin"),
                    pn('<'),
                    id("Box"),
                    pn('<'),
                    id("Self"),
                    pn('>'),
                    pn('>'),
                    pn(','),
                    id("u"),
                    pn(':'),
                    id("i32"),
                ]),
                pn(';'),
                id("fn"),
                id("f3_snake"),
                paren(vec![]),
                Tok::Arrow,
                id("Box"),
                pn('<'),
                id("i32"),
                pn('>'),
                pn(';'),
            ]),
        ]),
        id("for"),
        id("pathed"),
        Tok::PathSep,
        id("Struct"),
    ];
    assert_eq!(
        make_dispatcher_impl(&toks, None).unwrap(),
        "enum StructTRequest { F1(i32, i64), F2(i32), F3Snake(), } \
         enum StructTResponse { F1(Vec < i32 >), F2(), F3Snake(Box < i32 >), } \
         impl frincoe_rpc::Dispatcher for pathed :: Struct \
         { type Request = StructTRequest; type Response = StructTResponse; \
         fn dispatch(&mut self, request: Self::Request) -> Self::Response { match request \
         { StructTRequest::F1(a, b) => StructTResponse::F1(self.f1(a, b)), \
         StructTRequest::F2(u) => { self.f2(u); StructTResponse::F2() }, \
         StructTRequest::F3Snake() => StructTResponse::F3Snake(Self::f3_snake()), } } }"
    );
}

#[test]
fn protocol_scenario() {
    // f1(a: Int32, b: Int64) -> SeqInt32; f2(selfByMutRef, u: Int32) -> Void;
    // f3() -> BoxInt32 (static), compiled against a provider: request
    // variants F1(i32, i64), F2(i32), F3(); response variants F1(Vec<i32>),
    // F2(), F3(Box<i32>); dispatch routes F2 instance-style and F3
    // static-style.
    let items = vec![
        op(
            "f1",
            ReceiverKind::Absent,
            vec![("a", "i32"), ("b", "i64")],
            Some("Vec < i32 >"),
        ),
        op("f2", ReceiverKind::ByMutRef, vec![("u", "i32")], None),
        op("f3", ReceiverKind::Absent, vec![], Some("Box < i32 >")),
    ];
    let plan = compile_dispatch(
        items,
        "StructRequest".to_string(),
        "StructResponse".to_string(),
    )
    .unwrap();
    assert_eq!(plan.request, "StructRequest");
    assert_eq!(plan.response, "StructResponse");
    assert_eq!(plan.request_variants.len(), 3);
    assert_eq!(plan.response_variants.len(), 3);
    assert_eq!(plan.arms.len(), 3);
    assert_eq!(plan.request_variants[0].name, "F1");
    assert_eq!(plan.request_variants[0].payload, vec!["i32", "i64"]);
    assert_eq!(plan.request_variants[1].name, "F2");
    assert_eq!(plan.request_variants[1].payload, vec!["i32"]);
    assert_eq!(plan.request_variants[2].name, "F3");
    assert!(plan.request_variants[2].payload.is_empty());
    assert_eq!(plan.response_variants[0].payload, vec!["Vec < i32 >"]);
    assert!(plan.response_variants[1].payload.is_empty());
    assert_eq!(plan.response_variants[2].payload, vec!["Box < i32 >"]);
    assert_eq!(plan.arms[0].style, CallStyle::Static);
    assert_eq!(plan.arms[1].style, CallStyle::Instance);
    assert_eq!(plan.arms[2].style, CallStyle::Static);
    assert_eq!(plan.arms[0].operation, "f1");
    assert_eq!(plan.arms[1].operation, "f2");
    assert_eq!(plan.arms[1].args, vec!["u"]);
    assert_eq!(plan.arms[2].operation, "f3");
    // Each arm wraps its result in the matching response variant.
    assert_eq!(plan.arms[0].response, "F1");
    assert!(plan.arms[0].has_result);
    assert_eq!(plan.arms[1].response, "F2");
    assert!(!plan.arms[1].has_result);
    assert_eq!(plan.arms[2].response, "F3");
    assert!(plan.arms[2].has_result);
}

#[test]
fn variant_name_collision() {
    // `foo_bar` and `fooBar` canonicalize to the same variant name:
    // compilation is refused, with no disambiguation attempted.
    let items = vec![
        op("foo_bar", ReceiverKind::ByRef, vec![], None),
        op("fooBar", ReceiverKind::ByRef, vec![], None),
    ];
    let err = compile_dispatch(items, "R".to_string(), "S".to_string()).unwrap_err();
    assert_eq!(err, StructuralError::VariantNameCollision);
    assert_eq!(
        err.message(),
        "two operation names canonicalize to the same variant name"
    );
}

#[test]
fn explicit_protocol_names() {
    // impl { trait T { fn f(&self); } } for S as Req -> Res
    let toks = vec![
        id("impl"),
        brace(vec![
            id("trait"),
            id("T"),
            brace(vec![
                id("fn"),
                id("f"),
                paren(vec![pn('&'), id("self")]),
                pn(';'),
            ]),
        ]),
        id("for"),
        id("S"),
        id("as"),
        id("Req"),
        Tok::Arrow,
        id("Res"),
    ];
    assert_eq!(
        make_dispatcher_impl(&toks, None).unwrap(),
        "enum Req { F(), } enum Res { F(), } \
         impl frincoe_rpc::Dispatcher for S \
         { type Request = Req; type Response = Res; \
         fn dispatch(&mut self, request: Self::Request) -> Self::Response { match request \
         { Req::F() => { self.f(); Res::F() }, } } }"
    );
}
