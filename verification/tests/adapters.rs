use frincoe::dispatch_cable::dispatch_cable_impl;
use frincoe::forward_sub::{forward_sub_impl, ForwardSubArgs};
use frincoe::tokens::{Delim, Tok};

fn id(s: &str) -> Tok {
    Tok::Ident(s.to_string())
}

fn pn(c: char) -> Tok {
    Tok::Punct(c)
}

fn paren(v: Vec<Tok>) -> Tok {
    Tok::Group(Delim::Paren, v)
}

fn lt(s: &str) -> Tok {
    Tok::Lifetime(s.to_string())
}

fn lits(s: &str) -> Tok {
    Tok::LitStr(s.to_string())
}

#[test]
fn extend_applicable() {
    let mut i = 0;
    let mut provide = || {
        i += 1;
        vec![i]
    };
    // Code shape used by the generated broadcast bodies
    let mut res: Vec<i32> = Default::default();
    for _ in 0..5 {
        res.extend(provide());
    }
    assert_eq!(res, vec![1, 2, 3, 4, 5])
}

#[test]
fn different_decls() {
    // Modifiers, complex return type, many args, and complex form of self
    let toks = vec![
        id("const"),
        id("async"),
        id("unsafe"),
        id("extern"),
        lits("C"),
        id("fn"),
        id("f"),
        paren(vec![
            id("mut"),
            id("self"),
            pn(':'),
            id("Pin"),
            pn('<'),
            id("Self"),
            pn('>'),
            pn(','),
            id("x"),
            pn(':'),
            id("i32"),
            pn(','),
            id("y"),
            pn(':'),
            id("i32"),
            pn(','),
            id("z"),
            pn(':'),
            id("i32"),
        ]),
        Tok::Arrow,
        id("Vec"),
        pn('<'),
        id("i32"),
        pn('>'),
        pn(';'),
    ];
    assert_eq!(
        dispatch_cable_impl(&toks).unwrap(),
        "const async unsafe extern \"C\" fn f(self, x: i32, y: i32, z: i32) -> Vec < i32 > \
         where Vec < i32 >: Extend<Vec < i32 >> + Default \
         { let mut res: Vec < i32 > = Default::default(); \
         for it in self.iter() { res.extend(it.f(x, y, z)); } res }"
    );
    // Simplified form of self
    let toks = vec![
        id("fn"),
        id("f"),
        paren(vec![pn('&'), id("mut"), id("self")]),
        Tok::Arrow,
        id("T"),
        pn(';'),
    ];
    assert_eq!(
        dispatch_cable_impl(&toks).unwrap(),
        "fn f(&mut self) -> T where T: Extend<T> + Default \
         { let mut res: T = Default::default(); \
         for it in self.iter() { res.extend(it.f()); } res }"
    );
    // Void result
    let toks = vec![id("fn"), id("f"), paren(vec![id("self")]), pn(';')];
    assert_eq!(
        dispatch_cable_impl(&toks).unwrap(),
        "fn f(self) { for it in self.iter() { it.f(); } }"
    );
}

#[test]
fn errornous() {
    let toks = vec![
        id("fn"),
        id("f"),
        paren(vec![id("s"), pn(':'), id("i32")]),
        pn(';'),
    ];
    let err = dispatch_cable_impl(&toks).unwrap_err();
    assert_eq!(
        err.message(),
        "Cable methods must be object method to iterate over the clients"
    );
    let toks = vec![id("fn"), id("f"), paren(vec![]), pn(';')];
    let err = dispatch_cable_impl(&toks).unwrap_err();
    assert_eq!(
        err.message(),
        "Cable methods must be object method to iterate over the clients"
    );
}

#[test]
fn forward_sub_parsing() {
    let ok = |toks: Vec<Tok>| ForwardSubArgs::parse(&toks).expect("should be ok ><");
    ok(vec![id("name"), pn(';'), id("fn"), id("f"), paren(vec![]), pn(';')]);
    ok(vec![id("name"), pn(';'), id("type"), id("T"), pn(';')]);
    ok(vec![
        id("a"),
        pn(':'),
        id("T"),
        id("type"),
        pn(';'),
        id("const"),
        id("x"),
        pn(':'),
        id("u8"),
        pn(';'),
    ]);
    let x = ok(vec![
        id("name"),
        pn(':'),
        id("Vec"),
        pn('<'),
        id("i32"),
        pn('>'),
        pn(';'),
        id("fn"),
        id("f"),
        paren(vec![]),
        pn(';'),
    ]);
    assert!(!x.fwd_type && !x.fwd_const);
    let x = ok(vec![
        id("name"),
        pn(':'),
        id("i32"),
        id("type"),
        id("const"),
        pn(';'),
        id("fn"),
        id("f"),
        paren(vec![]),
        pn(';'),
    ]);
    assert!(x.fwd_type && x.fwd_const);
    let bad = vec![
        id("name"),
        pn(':'),
        id("fn"),
        id("f"),
        paren(vec![]),
        pn(';'),
    ];
    assert!(ForwardSubArgs::parse(&bad).is_err());
    let bad = vec![id("name"), pn(';')];
    assert!(ForwardSubArgs::parse(&bad).is_err());
}

#[test]
fn various() {
    // Types and constants
    let toks = vec![
        id("a"),
        pn(':'),
        id("T"),
        id("type"),
        pn(';'),
        id("const"),
        id("x"),
        pn(':'),
        id("u8"),
        pn(';'),
    ];
    assert_eq!(forward_sub_impl(&toks).unwrap(), "");
    let toks = vec![
        id("a"),
        pn(':'),
        id("T"),
        id("const"),
        pn(';'),
        id("const"),
        id("x"),
        pn(':'),
        id("u8"),
        pn(';'),
    ];
    assert_eq!(forward_sub_impl(&toks).unwrap(), "const x: u8 = T::x;");
    let toks = vec![
        id("a"),
        pn(':'),
        id("T"),
        id("const"),
        pn(';'),
        id("type"),
        id("U"),
        pn('<'),
        id("R"),
        pn('>'),
        pn(':'),
        id("Add"),
        pn('='),
        id("u8"),
        pn(';'),
    ];
    assert_eq!(forward_sub_impl(&toks).unwrap(), "");
    let toks = vec![
        id("a"),
        pn(':'),
        id("T"),
        id("type"),
        pn(';'),
        id("type"),
        id("U"),
        pn('<'),
        id("R"),
        pn('>'),
        pn(':'),
        id("Add"),
        pn('='),
        id("u8"),
        pn(';'),
    ];
    assert_eq!(forward_sub_impl(&toks).unwrap(), "type U< R > = T::U< R >;");
    let toks = vec![
        id("a"),
        id("type"),
        pn(';'),
        id("const"),
        id("x"),
        pn(':'),
        id("u8"),
        pn(';'),
    ];
    let err = forward_sub_impl(&toks).unwrap_err();
    assert_eq!(
        err.message(),
        "Can't forward types and constants without a type name"
    );
    // Functions
    let toks = vec![id("x"), pn(';'), id("fn"), id("f"), paren(vec![]), pn(';')];
    let err = forward_sub_impl(&toks).unwrap_err();
    assert_eq!(
        err.message(),
        "Don't know how to call the method since neither self nor the typename is given"
    );
    let toks = vec![
        id("x"),
        pn(';'),
        id("fn"),
        id("f"),
        paren(vec![
            pn('&'),
            id("mut"),
            id("self"),
            pn(','),
            id("a"),
            pn(':'),
            id("i32"),
            pn(','),
            id("b"),
            pn(':'),
            id("Vec"),
            pn('<'),
            id("i32"),
            pn('>'),
        ]),
        Tok::Arrow,
        id("Ret"),
        pn(';'),
    ];
    assert_eq!(
        forward_sub_impl(&toks).unwrap(),
        "fn f(&mut self, a: i32, b: Vec < i32 >) -> Ret { self.x.f(a, b) }"
    );
    let toks = vec![
        id("x"),
        pn(':'),
        id("T"),
        pn(';'),
        id("fn"),
        id("f"),
        paren(vec![id("a"), pn(':'), id("R")]),
        pn(';'),
    ];
    assert_eq!(forward_sub_impl(&toks).unwrap(), "fn f(a: R) { T::f(a) }");
}

#[test]
fn member_forward_bodies() {
    // A three-operation interface forwarded to the subordinate field `data`
    // produces delegating bodies of the exact shape `self.data.<op>(<args>)`.
    let op = |name: &str, args: Vec<Tok>, ret: Option<&str>| {
        let mut toks = vec![id("data"), pn(';'), id("fn"), id(name), paren(args)];
        if let Some(r) = ret {
            toks.push(Tok::Arrow);
            toks.push(id(r));
        }
        toks.push(pn(';'));
        forward_sub_impl(&toks).unwrap()
    };
    assert_eq!(
        op(
            "f1",
            vec![
                pn('&'),
                id("self"),
                pn(','),
                id("a"),
                pn(':'),
                id("i32"),
                pn(','),
                id("b"),
                pn(':'),
                id("i64")
            ],
            Some("i32")
        ),
        "fn f1(&self, a: i32, b: i64) -> i32 { self.data.f1(a, b) }"
    );
    assert_eq!(
        op("f2", vec![pn('&'), id("mut"), id("self")], None),
        "fn f2(&mut self) { self.data.f2() }"
    );
    assert_eq!(
        op(
            "f3",
            vec![id("self"), pn(','), id("u"), pn(':'), id("u8")],
            Some("u8")
        ),
        "fn f3(self, u: u8) -> u8 { self.data.f3(u) }"
    );
    // A lifetime in the receiver is still a receiver
    let toks = vec![
        id("data"),
        pn(';'),
        id("fn"),
        id("g"),
        paren(vec![pn('&'), lt("a"), id("self")]),
        pn(';'),
    ];
    assert_eq!(forward_sub_impl(&toks).unwrap(), "fn g(&self) { self.data.g() }");
}
