use frincoe::dispatch_cable::DispatchCable;
use frincoe::forward_sub::MemberForward;
use frincoe::inject_implement::{inject, inject_implement_impl, ClientArgs};
use frincoe::render::render_decl;
use frincoe::locate::{ScopeTree, TraitDef};
use frincoe::make_client::{make_client_impl, ClientArgs as MakeClientArgs};
use frincoe::model::{
    InterfaceItem, OperationSignature, Param, Qualifiers, ReceiverKind, ReturnShape,
};
use frincoe::tokens::{Delim, Tok};

fn id(s: &str) -> Tok {
    Tok::Ident(s.to_string())
}

fn pn(c: char) -> Tok {
    Tok::Punct(c)
}

fn lits(s: &str) -> Tok {
    Tok::LitStr(s.to_string())
}

fn lt(s: &str) -> Tok {
    Tok::Lifetime(s.to_string())
}

fn paren(v: Vec<Tok>) -> Tok {
    Tok::Group(Delim::Paren, v)
}

fn brace(v: Vec<Tok>) -> Tok {
    Tok::Group(Delim::Brace, v)
}

fn op(name: &str, receiver: ReceiverKind, params: Vec<(&str, &str)>, ret: Option<&str>) -> InterfaceItem {
    InterfaceItem::Operation(OperationSignature {
        qualifiers: Qualifiers {
            is_const: false,
            is_async: false,
            is_unsafe: false,
            abi: None,
        },
        receiver,
        name: name.to_string(),
        generics: String::new(),
        params: params
            .into_iter()
            .map(|(n, t)| Param {
                name: n.to_string(),
                ty: t.to_string(),
            })
            .collect(),
        ret: match ret {
            Some(t) => ReturnShape::Typed(t.to_string()),
            None => ReturnShape::Void,
        },
    })
}

#[test]
fn inject_implement_parsing() {
    // impl "fname"::path::T as U::V for A::B<R<I = J>> in func(d)
    let toks = vec![
        id("impl"),
        lits("fname"),
        Tok::PathSep,
        id("path"),
        Tok::PathSep,
        id("T"),
        id("as"),
        id("U"),
        Tok::PathSep,
        id("V"),
        id("for"),
        id("A"),
        Tok::PathSep,
        id("B"),
        pn('<'),
        id("R"),
        pn('<'),
        id("I"),
        pn('='),
        id("J"),
        pn('>'),
        pn('>'),
        id("in"),
        id("func"),
        paren(vec![id("d")]),
    ];
    let args = ClientArgs::parse(&toks).unwrap();
    assert_eq!(args.adapter, "func");
    assert_eq!(args.extargs.unwrap(), "d");
    assert_eq!(args.target, "A :: B < R < I = J > >");
    // trailing junk is refused
    let toks = vec![
        id("impl"),
        lits("T"),
        Tok::PathSep,
        id("T"),
        id("for"),
        id("T"),
        id("in"),
        id("qwq"),
        id("trailing"),
    ];
    let err = ClientArgs::parse(&toks).unwrap_err();
    assert_eq!(err.message, "unexpected token");
}

#[test]
fn inject_implement_several() {
    // impl<'a, T: 'a + Orz> { trait TestTrait { fn f1(self, a1: i32) -> i64;
    // fn f2(&mut self); } } as Pathed::TestTrait
    // for Pathed::TestStruct<U, R> in empty
    let toks = vec![
        id("impl"),
        pn('<'),
        lt("a"),
        pn(','),
        id("T"),
        pn(':'),
        lt("a"),
        pn('+'),
        id("Orz"),
        pn('>'),
        brace(vec![
            id("trait"),
            id("TestTrait"),
            brace(vec![
                id("fn"),
                id("f1"),
                paren(vec![
                    id("self"),
                    pn(','),
                    id("a1"),
                    pn(':'),
                    id("i32"),
                ]),
                Tok::Arrow,
                id("i64"),
                pn(';'),
                id("fn"),
                id("f2"),
                paren(vec![pn('&'), id("mut"), id("self")]),
                pn(';'),
            ]),
        ]),
        id("as"),
        id("Pathed"),
        Tok::PathSep,
        id("TestTrait"),
        id("for"),
        id("Pathed"),
        Tok::PathSep,
        id("TestStruct"),
        pn('<'),
        id("U"),
        pn(','),
        id("R"),
        pn('>'),
        id("in"),
        id("empty"),
    ];
    assert_eq!(
        inject_implement_impl(&toks, None).unwrap(),
        "impl < 'a , T : 'a + Orz > Pathed::TestTrait for Pathed :: TestStruct < U , R > \
         { empty!(fn f1(self, a1: i32) -> i64;); empty!(fn f2(&mut self);); }"
    );
    // impl { trait T { fn f(); } } as UR<Orz, P = R> for T in pr(a impl b)
    // where T: QAQ
    let toks = vec![
        id("impl"),
        brace(vec![
            id("trait"),
            id("T"),
            brace(vec![id("fn"), id("f"), paren(vec![]), pn(';')]),
        ]),
        id("as"),
        id("UR"),
        pn('<'),
        id("Orz"),
        pn(','),
        id("P"),
        pn('='),
        id("R"),
        pn('>'),
        id("for"),
        id("T"),
        id("in"),
        id("pr"),
        paren(vec![id("a"), id("impl"), id("b")]),
        id("where"),
        id("T"),
        pn(':'),
        id("QAQ"),
    ];
    assert_eq!(
        inject_implement_impl(&toks, None).unwrap(),
        "impl UR< Orz , P = R > for T where T : QAQ { pr!(a impl b; fn f();); }"
    );
}

#[test]
fn invoked_actually() {
    let mut tree = ScopeTree::new();
    let pathed = tree.add_scope(0, "Pathed".to_string());
    tree.add_trait(
        pathed,
        TraitDef {
            name: "TestTrait".to_string(),
            items: vec![
                op("f1", ReceiverKind::ByValue, vec![("a1", "i32")], Some("i64")),
                op("f2", ReceiverKind::ByMutRef, vec![], None),
            ],
        },
    );
    let toks = vec![
        id("impl"),
        lits("emptied"),
        Tok::PathSep,
        id("Pathed"),
        Tok::PathSep,
        id("TestTrait"),
        id("for"),
        id("Pathed"),
        Tok::PathSep,
        id("TestStruct"),
        pn('<'),
        id("U"),
        pn(','),
        id("R"),
        pn('>'),
        id("in"),
        id("empty"),
    ];
    assert_eq!(
        make_client_impl(&toks, Some(tree)).unwrap(),
        "impl Pathed::TestTrait for Pathed :: TestStruct < U , R > \
         { empty!(fn f1(self, a1: i32) -> i64;); empty!(fn f2(&mut self);); }"
    );
}

#[test]
fn extra_args() {
    let mut tree = ScopeTree::new();
    tree.add_trait(
        0,
        TraitDef {
            name: "T".to_string(),
            items: vec![op("f", ReceiverKind::Absent, vec![], None)],
        },
    );
    let toks = vec![
        id("impl"),
        lits("T"),
        Tok::PathSep,
        id("T"),
        id("for"),
        id("T"),
        id("in"),
        id("pr"),
        paren(vec![id("a"), id("impl"), id("b")]),
    ];
    assert_eq!(
        make_client_impl(&toks, Some(tree)).unwrap(),
        "impl T for T { pr!(a impl b; fn f();); }"
    );
}

#[test]
fn trailing() {
    let toks = vec![
        id("impl"),
        lits("T"),
        Tok::PathSep,
        id("T"),
        id("for"),
        id("T"),
        id("in"),
        id("qwq"),
        id("trailing"),
    ];
    let err = MakeClientArgs::parse(&toks).unwrap_err();
    assert_eq!(err.message, "expected parentheses");
}

#[test]
fn injector_rejects_unsupported_items() {
    let toks = vec![
        id("impl"),
        brace(vec![
            id("trait"),
            id("T"),
            brace(vec![id("some_macro"), pn('!'), paren(vec![]), pn(';')]),
        ]),
        id("for"),
        id("T"),
        id("in"),
        id("empty"),
    ];
    let err = inject_implement_impl(&toks, None).unwrap_err();
    assert_eq!(
        err.message(),
        "macros in trait declaration are not currently supported"
    );
}


#[test]
fn strategies_emit_one_declaration_per_operation() {
    // The member-forward strategy emits exactly one delegating operation
    // per interface operation, in order, forwarding the non-receiver
    // parameters positionally and unmodified.
    let items = vec![
        op("f1", ReceiverKind::ByRef, vec![("a", "i32"), ("b", "i64")], Some("i32")),
        op("f2", ReceiverKind::ByMutRef, vec![], None),
        op("f3", ReceiverKind::Absent, vec![("u", "u8")], Some("u8")),
    ];
    let adapter = MemberForward {
        member: "data".to_string(),
        typename: Some("Peer".to_string()),
        fwd_type: false,
        fwd_const: false,
    };
    let decls = inject(&adapter, items).unwrap();
    assert_eq!(decls.len(), 3);
    assert_eq!(
        render_decl(&decls[0]),
        "fn f1(&self, a: i32, b: i64) -> i32 { self.data.f1(a, b) }"
    );
    assert_eq!(render_decl(&decls[1]), "fn f2(&mut self) { self.data.f2() }");
    assert_eq!(render_decl(&decls[2]), "fn f3(u: u8) -> u8 { Peer::f3(u) }");

    // The broadcast strategy does the same, with fold-or-iterate bodies.
    let items = vec![
        op("ping", ReceiverKind::ByMutRef, vec![], None),
        op("sum", ReceiverKind::ByRef, vec![("k", "u8")], Some("Acc")),
    ];
    let decls = inject(&DispatchCable {}, items).unwrap();
    assert_eq!(decls.len(), 2);
    assert_eq!(
        render_decl(&decls[0]),
        "fn ping(&mut self) { for it in self.iter() { it.ping(); } }"
    );
    assert_eq!(
        render_decl(&decls[1]),
        "fn sum(&self, k: u8) -> Acc where Acc: Extend<Acc> + Default \
         { let mut res: Acc = Default::default(); \
         for it in self.iter() { res.extend(it.sum(k)); } res }"
    );

    // A static operation with no peer type has no dispatch target.
    let items = vec![op("f", ReceiverKind::Absent, vec![], None)];
    let adapter = MemberForward {
        member: "data".to_string(),
        typename: None,
        fwd_type: false,
        fwd_const: false,
    };
    let err = inject(&adapter, items).unwrap_err();
    assert_eq!(
        err.message(),
        "Don't know how to call the method since neither self nor the typename is given"
    );
}

#[test]
fn inline_trait_details() {
    // Supertrait bounds are skipped, operation generics are kept, and a
    // default body is accepted and dropped from the item's surface form.
    let toks = vec![
        id("impl"),
        brace(vec![
            id("trait"),
            id("T"),
            pn(':'),
            id("Sized"),
            brace(vec![
                id("fn"),
                id("f"),
                pn('<'),
                id("R"),
                pn('>'),
                paren(vec![pn('&'), id("self"), pn(','), id("x"), pn(':'), id("R")]),
                pn(';'),
                id("fn"),
                id("g"),
                paren(vec![pn('&'), id("self")]),
                brace(vec![]),
            ]),
        ]),
        id("for"),
        id("X"),
        id("in"),
        id("fwd"),
    ];
    assert_eq!(
        inject_implement_impl(&toks, None).unwrap(),
        "impl T for X { fwd!(fn f< R >(&self, x: R);); fwd!(fn g(&self);); }"
    );
}
