//! Canonical rendering of the generated code: signatures, interface items,
//! generated declarations and paths, each pinned to a specification-level
//! text function.

use vstd::prelude::*;

use crate::model::{
    CallTarget, Declaration, InterfaceItem, OperationSignature, Param, PathSeg, Qualifiers,
    ReceiverKind, ReturnShape,
};
use crate::parse::{item_view, param_view, sig_view, GItem, GParam, GRet, GSig};

verus! {

/// A list of texts joined by `", "`.
pub open spec fn comma_join(items: Seq<Seq<char>>) -> Seq<char>
    decreases items.len(),
{
    if items.len() == 0 {
        Seq::empty()
    } else if items.len() == 1 {
        items[0]
    } else {
        items[0] + ", "@ + comma_join(items.drop_first())
    }
}

fn join_comma_from(v: &Vec<String>, a: usize) -> (r: String)
    requires
        a <= v@.len(),
    ensures
        r@ == comma_join(v@.skip(a as int).map_values(|s: String| s@)),
    decreases v@.len() - a,
{
    let ghost items: Seq<Seq<char>> = v@.skip(a as int).map_values(|s: String| s@);
    if a >= v.len() {
        String::new()
    } else if a + 1 == v.len() {
        proof {
            assert(items[0] == v@[a as int]@);
        }
        v[a].clone()
    } else {
        let rest = join_comma_from(v, a + 1);
        proof {
            assert(items[0] == v@[a as int]@);
            assert(items.drop_first() =~= v@.skip(a + 1).map_values(|s: String| s@));
        }
        v[a].clone().concat(", ").concat(rest.as_str())
    }
}

/// Join rendered pieces with `", "`.
pub fn join_comma(v: &Vec<String>) -> (r: String)
    ensures
        r@ == comma_join(v@.map_values(|s: String| s@)),
{
    let r = join_comma_from(v, 0);
    proof {
        assert(v@.skip(0) =~= v@);
    }
    r
}

/// The canonical text of the qualifiers, each followed by one space:
/// `const`, `async`, `unsafe`, `extern "<abi>"`, in that fixed order.
pub open spec fn gquals_text(
    is_const: bool,
    is_async: bool,
    is_unsafe: bool,
    abi: Option<Seq<char>>,
) -> Seq<char> {
    (if is_const {
        "const "@
    } else {
        Seq::empty()
    }) + (if is_async {
        "async "@
    } else {
        Seq::empty()
    }) + (if is_unsafe {
        "unsafe "@
    } else {
        Seq::empty()
    }) + (match abi {
        Some(a) => "extern \""@ + a + "\" "@,
        None => Seq::empty(),
    })
}

/// The qualifier text of a declared operation.
pub open spec fn quals_text(q: Qualifiers) -> Seq<char> {
    gquals_text(
        q.is_const,
        q.is_async,
        q.is_unsafe,
        match q.abi {
            Some(a) => Some(a@),
            None => None,
        },
    )
}

/// Render the qualifiers.
pub fn render_quals(q: &Qualifiers) -> (r: String)
    ensures
        r@ == quals_text(*q),
{
    let mut out = String::new();
    if q.is_const {
        out.append("const ");
    }
    if q.is_async {
        out.append("async ");
    }
    if q.is_unsafe {
        out.append("unsafe ");
    }
    match &q.abi {
        Some(a) => {
            out.append("extern \"");
            out.append(a.as_str());
            out.append("\" ");
        },
        None => {},
    }
    out
}

/// The surface text of the receiver alone.
pub open spec fn receiver_text(k: ReceiverKind) -> Seq<char> {
    match k {
        ReceiverKind::Absent => Seq::empty(),
        ReceiverKind::ByValue => "self"@,
        ReceiverKind::ByRef => "&self"@,
        ReceiverKind::ByMutRef => "&mut self"@,
    }
}

/// The text of one parameter declaration: `name: Type`.
pub open spec fn gparam_decl_text(p: GParam) -> Seq<char> {
    p.name + ": "@ + p.ty
}

/// The declaration text of one parameter.
pub open spec fn param_decl_text(p: Param) -> Seq<char> {
    gparam_decl_text(param_view(p))
}

/// The full parameter-list text, receiver included.
pub open spec fn gall_params_text(sig: GSig) -> Seq<char> {
    if sig.receiver is Absent {
        comma_join(sig.params.map_values(|p: GParam| gparam_decl_text(p)))
    } else if sig.params.len() == 0 {
        receiver_text(sig.receiver)
    } else {
        receiver_text(sig.receiver) + ", "@ + comma_join(
            sig.params.map_values(|p: GParam| gparam_decl_text(p)),
        )
    }
}

/// The parameter-list text of a declared operation.
pub open spec fn all_params_text(sig: OperationSignature) -> Seq<char> {
    gall_params_text(sig_view(sig))
}

/// The text of the return shape, with its leading space.
pub open spec fn gret_text(r: GRet) -> Seq<char> {
    match r {
        GRet::Void => Seq::empty(),
        GRet::Typed(t) => " -> "@ + t,
    }
}

/// The return-shape text of a declared operation.
pub open spec fn ret_text(r: ReturnShape) -> Seq<char> {
    gret_text(crate::parse::ret_view(r))
}

/// The canonical header text of an operation:
/// `quals fn name generics(receiver, params) -> ret`.
pub open spec fn gsig_head_text(sig: GSig) -> Seq<char> {
    gquals_text(sig.is_const, sig.is_async, sig.is_unsafe, sig.abi) + "fn "@ + sig.name
        + sig.generics + "("@ + gall_params_text(sig) + ")"@
}

/// The canonical header text of an operation:
/// `quals fn name generics(receiver, params) -> ret`.
pub open spec fn gsig_text(sig: GSig) -> Seq<char> {
    gsig_head_text(sig) + gret_text(sig.ret)
}

/// The canonical header text of a declared operation.
pub open spec fn sig_text(sig: OperationSignature) -> Seq<char> {
    gsig_text(sig_view(sig))
}

fn render_param_decls(params: &Vec<Param>) -> (r: String)
    ensures
        r@ == comma_join(params@.map_values(|p: Param| param_decl_text(p))),
{
    let mut parts: Vec<String> = Vec::new();
    let mut i: usize = 0;
    while i < params.len()
        invariant
            i <= params@.len(),
            parts@.len() == i,
            forall|j: int|
                0 <= j < i ==> (#[trigger] parts@[j])@ == param_decl_text(params@[j]),
        decreases params.len() - i,
    {
        let p = &params[i];
        let piece = p.name.clone().concat(": ").concat(p.ty.as_str());
        parts.push(piece);
        i = i + 1;
    }
    proof {
        assert(parts@.map_values(|s: String| s@) =~= params@.map_values(
            |p: Param| param_decl_text(p),
        ));
    }
    join_comma(&parts)
}

/// Render everything of an operation's header up to the closing
/// parenthesis.
#[verifier::rlimit(60)]
#[verifier::spinoff_prover]
fn render_sig_head(sig: &OperationSignature) -> (r: String)
    ensures
        r@ == gsig_head_text(sig_view(*sig)),
{
    let mut out = render_quals(&sig.qualifiers);
    out.append("fn ");
    out.append(sig.name.as_str());
    out.append(sig.generics.as_str());
    out.append("(");
    match sig.receiver {
        ReceiverKind::Absent => {},
        ReceiverKind::ByValue => out.append("self"),
        ReceiverKind::ByRef => out.append("&self"),
        ReceiverKind::ByMutRef => out.append("&mut self"),
    }
    if !matches!(sig.receiver, ReceiverKind::Absent) && sig.params.len() > 0 {
        out.append(", ");
    }
    let params = render_param_decls(&sig.params);
    proof {
        assert(sig.params@.map_values(|p: Param| param_decl_text(p)) =~= sig_view(
            *sig,
        ).params.map_values(|p: GParam| gparam_decl_text(p)));
    }
    out.append(params.as_str());
    out.append(")");
    out
}

/// Render an operation's canonical header.
pub fn render_sig(sig: &OperationSignature) -> (r: String)
    ensures
        r@ == sig_text(*sig),
{
    let mut out = render_sig_head(sig);
    match &sig.ret {
        ReturnShape::Void => {},
        ReturnShape::Typed(t) => {
            out.append(" -> ");
            out.append(t.as_str());
        },
    }
    out
}

/// The names of the non-receiver parameters, joined by `", "`: the argument
/// list every delegating body passes on positionally, unmodified and in
/// order.
pub open spec fn gargs_text(sig: GSig) -> Seq<char> {
    comma_join(sig.params.map_values(|p: GParam| p.name))
}

/// The forwarded argument list of a declared operation.
pub open spec fn args_text(sig: OperationSignature) -> Seq<char> {
    gargs_text(sig_view(sig))
}

/// Render the forwarded argument list.
pub fn render_args(sig: &OperationSignature) -> (r: String)
    ensures
        r@ == args_text(*sig),
{
    let mut parts: Vec<String> = Vec::new();
    let mut i: usize = 0;
    while i < sig.params.len()
        invariant
            i <= sig.params@.len(),
            parts@.len() == i,
            forall|j: int| 0 <= j < i ==> (#[trigger] parts@[j])@ == sig.params@[j].name@,
        decreases sig.params.len() - i,
    {
        parts.push(sig.params[i].name.clone());
        i = i + 1;
    }
    proof {
        assert(parts@.map_values(|s: String| s@) =~= sig.params@.map_values(|p: Param| p.name@));
        assert(sig.params@.map_values(|p: Param| p.name@) =~= sig_view(*sig).params.map_values(
            |p: GParam| p.name,
        ));
    }
    join_comma(&parts)
}

/// The body text of a delegating operation: the call prefix, the operation
/// name, and the argument list.
pub open spec fn gforward_body_text(sig: GSig, target: GTarget) -> Seq<char> {
    (match target {
        GTarget::SubField(m) => "self."@ + m + "."@,
        GTarget::PeerType(t) => t + "::"@,
    }) + sig.name + "("@ + gargs_text(sig) + ")"@
}

/// A call target at specification level.
pub enum GTarget {
    SubField(Seq<char>),
    PeerType(Seq<char>),
}

/// The view of a call target.
pub open spec fn target_view(t: CallTarget) -> GTarget {
    match t {
        CallTarget::SubField(m) => GTarget::SubField(m@),
        CallTarget::PeerType(p) => GTarget::PeerType(p@),
    }
}

/// The delegating body of a declared operation.
pub open spec fn forward_body_text(sig: OperationSignature, target: CallTarget) -> Seq<char> {
    gforward_body_text(sig_view(sig), target_view(target))
}

/// The full text of a delegating operation.
pub open spec fn gmethod_text(sig: GSig, target: GTarget) -> Seq<char> {
    gsig_text(sig) + " { "@ + gforward_body_text(sig, target) + " }"@
}

/// The full text of a delegating operation.
pub open spec fn method_text(sig: OperationSignature, target: CallTarget) -> Seq<char> {
    gmethod_text(sig_view(sig), target_view(target))
}

/// Render a delegating operation.
pub fn render_method(sig: &OperationSignature, target: &CallTarget) -> (r: String)
    ensures
        r@ == method_text(*sig, *target),
{
    let mut out = render_sig(sig);
    out.append(" { ");
    match target {
        CallTarget::SubField(m) => {
            out.append("self.");
            out.append(m.as_str());
            out.append(".");
        },
        CallTarget::PeerType(t) => {
            out.append(t.as_str());
            out.append("::");
        },
    }
    out.append(sig.name.as_str());
    out.append("(");
    let args = render_args(sig);
    out.append(args.as_str());
    out.append(")");
    out.append(" }");
    out
}

/// The header text of a broadcast operation: as the canonical header, with
/// the aggregability bound appended to a non-void return type.
pub open spec fn gbroadcast_sig_text(sig: GSig) -> Seq<char> {
    gquals_text(sig.is_const, sig.is_async, sig.is_unsafe, sig.abi) + "fn "@ + sig.name
        + sig.generics + "("@ + gall_params_text(sig) + ")"@ + (match sig.ret {
        GRet::Void => Seq::empty(),
        GRet::Typed(t) => " -> "@ + t + " where "@ + t + ": Extend<"@ + t + "> + Default"@,
    })
}

/// The header text of a declared broadcast operation.
pub open spec fn broadcast_sig_text(sig: OperationSignature) -> Seq<char> {
    gbroadcast_sig_text(sig_view(sig))
}

/// The body text of a broadcast operation: invoke the operation on every
/// child in collection order; with a return type, fold the per-child
/// results into one accumulator starting from its neutral element.
pub open spec fn gbroadcast_body_text(sig: GSig) -> Seq<char> {
    match sig.ret {
        GRet::Void => "for it in self.iter() { it."@ + sig.name + "("@ + gargs_text(sig)
            + "); }"@,
        GRet::Typed(t) => "let mut res: "@ + t
            + " = Default::default(); for it in self.iter() { res.extend(it."@ + sig.name + "("@
            + gargs_text(sig) + ")); } res"@,
    }
}

/// The body text of a declared broadcast operation.
pub open spec fn broadcast_body_text(sig: OperationSignature) -> Seq<char> {
    gbroadcast_body_text(sig_view(sig))
}

/// The full text of a broadcast operation.
pub open spec fn gbroadcast_text(sig: GSig) -> Seq<char> {
    gbroadcast_sig_text(sig) + " { "@ + gbroadcast_body_text(sig) + " }"@
}

/// The full text of a declared broadcast operation.
pub open spec fn broadcast_text(sig: OperationSignature) -> Seq<char> {
    gbroadcast_text(sig_view(sig))
}

/// Render a broadcast operation's header.
fn render_broadcast_header(sig: &OperationSignature) -> (r: String)
    ensures
        r@ == broadcast_sig_text(*sig),
{
    let mut out = render_sig_head(sig);
    match &sig.ret {
        ReturnShape::Void => {},
        ReturnShape::Typed(t) => {
            out.append(" -> ");
            out.append(t.as_str());
            out.append(" where ");
            out.append(t.as_str());
            out.append(": Extend<");
            out.append(t.as_str());
            out.append("> + Default");
        },
    }
    out
}

/// Render a broadcast operation's body.
fn render_broadcast_body(sig: &OperationSignature) -> (r: String)
    ensures
        r@ == broadcast_body_text(*sig),
{
    let args = render_args(sig);
    let mut out = String::new();
    match &sig.ret {
        ReturnShape::Void => {
            out.append("for it in self.iter() { it.");
            out.append(sig.name.as_str());
            out.append("(");
            out.append(args.as_str());
            out.append("); }");
        },
        ReturnShape::Typed(t) => {
            out.append("let mut res: ");
            out.append(t.as_str());
            out.append(" = Default::default(); for it in self.iter() { res.extend(it.");
            out.append(sig.name.as_str());
            out.append("(");
            out.append(args.as_str());
            out.append(")); } res");
        },
    }
    out
}

/// Render a broadcast operation.
pub fn render_broadcast(sig: &OperationSignature) -> (r: String)
    ensures
        r@ == broadcast_text(*sig),
{
    let mut out = render_broadcast_header(sig);
    out.append(" { ");
    let body = render_broadcast_body(sig);
    out.append(body.as_str());
    out.append(" }");
    out
}

/// The text of a forwarded associated type.
pub open spec fn type_alias_text(name: Seq<char>, generics: Seq<char>, source: Seq<char>) -> Seq<
    char,
> {
    "type "@ + name + generics + " = "@ + source + "::"@ + name + generics + ";"@
}

/// The text of a forwarded associated constant.
pub open spec fn const_forward_text(name: Seq<char>, ty: Seq<char>, source: Seq<char>) -> Seq<
    char,
> {
    "const "@ + name + ": "@ + ty + " = "@ + source + "::"@ + name + ";"@
}

/// The text of one generated declaration.
pub open spec fn decl_text(d: Declaration) -> Seq<char> {
    match d {
        Declaration::Method { sig, target } => method_text(sig, target),
        Declaration::BroadcastMethod { sig } => broadcast_text(sig),
        Declaration::TypeAlias { name, generics, source } => type_alias_text(
            name@,
            generics@,
            source@,
        ),
        Declaration::ConstForward { name, ty, source } => const_forward_text(name@, ty@, source@),
    }
}

/// Render one generated declaration.
pub fn render_decl(d: &Declaration) -> (r: String)
    ensures
        r@ == decl_text(*d),
{
    match d {
        Declaration::Method { sig, target } => render_method(sig, target),
        Declaration::BroadcastMethod { sig } => render_broadcast(sig),
        Declaration::TypeAlias { name, generics, source } => {
            let mut out = "type ".to_owned();
            out.append(name.as_str());
            out.append(generics.as_str());
            out.append(" = ");
            out.append(source.as_str());
            out.append("::");
            out.append(name.as_str());
            out.append(generics.as_str());
            out.append(";");
            out
        },
        Declaration::ConstForward { name, ty, source } => {
            let mut out = "const ".to_owned();
            out.append(name.as_str());
            out.append(": ");
            out.append(ty.as_str());
            out.append(" = ");
            out.append(source.as_str());
            out.append("::");
            out.append(name.as_str());
            out.append(";");
            out
        },
    }
}

/// The declaration-surface text of one interface item, as handed to an
/// adapter.
pub open spec fn gitem_text(item: GItem) -> Seq<char> {
    match item {
        GItem::Operation(sig) => gsig_text(sig) + ";"@,
        GItem::AssociatedType { name, generics } => "type "@ + name + generics + ";"@,
        GItem::AssociatedConstant { name, ty } => "const "@ + name + ": "@ + ty + ";"@,
        GItem::Unsupported => Seq::empty(),
    }
}

/// The declaration-surface text of one declared interface item.
pub open spec fn item_text(item: InterfaceItem) -> Seq<char> {
    gitem_text(item_view(item))
}

/// Render one interface item in declaration surface form.
pub fn render_item(item: &InterfaceItem) -> (r: String)
    ensures
        r@ == item_text(*item),
{
    match item {
        InterfaceItem::Operation(sig) => {
            let mut out = render_sig(sig);
            out.append(";");
            out
        },
        InterfaceItem::AssociatedType { name, generics } => {
            let mut out = "type ".to_owned();
            out.append(name.as_str());
            out.append(generics.as_str());
            out.append(";");
            out
        },
        InterfaceItem::AssociatedConstant { name, ty } => {
            let mut out = "const ".to_owned();
            out.append(name.as_str());
            out.append(": ");
            out.append(ty.as_str());
            out.append(";");
            out
        },
        InterfaceItem::Unsupported => String::new(),
    }
}

/// The text of one path segment: its identifier and its argument text.
pub open spec fn seg_text(s: PathSeg) -> Seq<char> {
    s.ident@ + s.args@
}

/// The text of a dotted path: segments joined by `::`.
pub open spec fn path_text(p: Seq<PathSeg>) -> Seq<char>
    decreases p.len(),
{
    if p.len() == 0 {
        Seq::empty()
    } else if p.len() == 1 {
        seg_text(p[0])
    } else {
        seg_text(p[0]) + "::"@ + path_text(p.drop_first())
    }
}

fn render_path_from(p: &Vec<PathSeg>, a: usize) -> (r: String)
    requires
        a <= p@.len(),
    ensures
        r@ == path_text(p@.skip(a as int)),
    decreases p@.len() - a,
{
    let ghost items: Seq<PathSeg> = p@.skip(a as int);
    if a >= p.len() {
        String::new()
    } else if a + 1 == p.len() {
        proof {
            assert(items[0] == p@[a as int]);
        }
        p[a].ident.clone().concat(p[a].args.as_str())
    } else {
        let rest = render_path_from(p, a + 1);
        proof {
            assert(items[0] == p@[a as int]);
            assert(items.drop_first() =~= p@.skip(a + 1));
        }
        p[a].ident.clone().concat(p[a].args.as_str()).concat("::").concat(rest.as_str())
    }
}

/// Render a dotted path.
pub fn render_path(p: &Vec<PathSeg>) -> (r: String)
    ensures
        r@ == path_text(p@),
{
    let r = render_path_from(p, 0);
    proof {
        assert(p@.skip(0) =~= p@);
    }
    r
}

/// The text of one adapter invocation: the adapter name, its fixed
/// arguments when present, and the item in declaration surface form.
pub open spec fn ginvocation_text(adapter: Seq<char>, extargs: Option<Seq<char>>, item: GItem) -> Seq<
    char,
> {
    adapter + "!("@ + (match extargs {
        Some(a) => a + "; "@,
        None => Seq::empty(),
    }) + gitem_text(item) + ");"@
}

/// The adapter invocations for the items from `i` on, joined by single
/// spaces.
pub open spec fn ginvocations_from(
    adapter: Seq<char>,
    extargs: Option<Seq<char>>,
    items: Seq<GItem>,
    i: int,
) -> Seq<char>
    decreases items.len() - i,
{
    if i < 0 || i >= items.len() {
        Seq::empty()
    } else if i == items.len() - 1 {
        ginvocation_text(adapter, extargs, items[i])
    } else {
        ginvocation_text(adapter, extargs, items[i]) + " "@ + ginvocations_from(
            adapter,
            extargs,
            items,
            i + 1,
        )
    }
}

/// The text of an implementation block binding an interface to a target.
pub open spec fn gimpl_text(
    generics: Option<Seq<char>>,
    name: Seq<char>,
    target: Seq<char>,
    predicates: Option<Seq<char>>,
    body: Seq<char>,
) -> Seq<char> {
    "impl "@ + (match generics {
        Some(g) => g + " "@,
        None => Seq::empty(),
    }) + name + " for "@ + target + (match predicates {
        Some(p) => " "@ + p,
        None => Seq::empty(),
    }) + (if body.len() > 0 {
        " { "@ + body + " }"@
    } else {
        " { }"@
    })
}

/// The view of an optional rendered piece.
pub open spec fn opt_view(o: Option<String>) -> Option<Seq<char>> {
    match o {
        Some(s) => Some(s@),
        None => None,
    }
}

/// Render the adapter invocations for the items from `i` on.
fn render_invocations_from(
    adapter: &String,
    extargs: &Option<String>,
    items: &Vec<InterfaceItem>,
    i: usize,
) -> (r: String)
    requires
        i <= items@.len(),
    ensures
        r@ == ginvocations_from(
            adapter@,
            opt_view(*extargs),
            items@.map_values(|it: InterfaceItem| item_view(it)),
            i as int,
        ),
    decreases items@.len() - i,
{
    let ghost gitems: Seq<GItem> = items@.map_values(|it: InterfaceItem| item_view(it));
    if i >= items.len() {
        String::new()
    } else {
        let mut one = adapter.clone();
        one.append("!(");
        match extargs {
            Some(a) => {
                one.append(a.as_str());
                one.append("; ");
            },
            None => {},
        }
        let itext = render_item(&items[i]);
        one.append(itext.as_str());
        one.append(");");
        proof {
            assert(gitems[i as int] == item_view(items@[i as int]));
            assert(one@ == ginvocation_text(adapter@, opt_view(*extargs), gitems[i as int]));
        }
        if i + 1 == items.len() {
            one
        } else {
            let rest = render_invocations_from(adapter, extargs, items, i + 1);
            one.append(" ");
            one.append(rest.as_str());
            one
        }
    }
}

/// Render the whole body of adapter invocations.
pub fn render_invocations(
    adapter: &String,
    extargs: &Option<String>,
    items: &Vec<InterfaceItem>,
) -> (r: String)
    ensures
        r@ == ginvocations_from(
            adapter@,
            opt_view(*extargs),
            items@.map_values(|it: InterfaceItem| item_view(it)),
            0,
        ),
{
    render_invocations_from(adapter, extargs, items, 0)
}

/// Assemble an implementation block from its rendered pieces.
pub fn render_impl_block(
    generics: &Option<String>,
    name: &String,
    target: &String,
    predicates: &Option<String>,
    body: &String,
) -> (r: String)
    ensures
        r@ == gimpl_text(opt_view(*generics), name@, target@, opt_view(*predicates), body@),
{
    let mut out = "impl ".to_owned();
    match generics {
        Some(g) => {
            out.append(g.as_str());
            out.append(" ");
        },
        None => {},
    }
    out.append(name.as_str());
    out.append(" for ");
    out.append(target.as_str());
    match predicates {
        Some(p) => {
            out.append(" ");
            out.append(p.as_str());
        },
        None => {},
    }
    if !body.as_str().is_empty() {
        out.append(" { ");
        out.append(body.as_str());
        out.append(" }");
    } else {
        out.append(" { }");
    }
    out
}

} // verus!
