//! The protocol compiler: a normalized interface is compiled into a closed
//! message-passing protocol — a request tagged union, a response tagged
//! union, and a dispatch routine mapping each request variant to a call
//! against the provider and a response variant.

use vstd::prelude::*;

use crate::errors::{GenError, StructuralError, SyntaxError};
use crate::foreign::class_case_of;
use crate::locate::{ScopeTree, TraitSpec};
use crate::model::{InterfaceItem, OperationSignature, Param, PathSeg, ReturnShape};
use crate::parse::{
    arrow_stops, as_where_stops, gen_error_view, gpath_text, is_kw, is_punct, item_view,
    lemma_path_text_view, segs_view, sig_view, spec_parse_path, spec_parse_trait_spec,
    trait_spec_view, unexpected, where_stops, GErr, GFail, GItem, GParam, GRet, GSeg, GSig,
    GTraitCode, GTraitSpec,
};
use crate::render::{comma_join, join_comma, opt_view};
use crate::tokens::{toks_text, Tok};

verus! {

/// One variant of a tagged union: its name and its payload types, in
/// rendered source form.
#[derive(Debug)]
pub struct Variant {
    pub name: String,
    pub payload: Vec<String>,
}

/// Whether a dispatch arm calls the provider instance-style
/// (`target.op(...)`) or static-style (`Type::op(...)`).
#[derive(Clone, Copy, PartialEq, Eq, Structural, Debug)]
pub enum CallStyle {
    Instance,
    Static,
}

/// One arm of the dispatch routine: the request variant it matches, the
/// call style, the operation invoked, the payload bindings passed on
/// positionally, and the matching response variant the result is wrapped
/// in (with or without a payload, by the operation's return shape).
#[derive(Debug)]
pub struct DispatchArm {
    pub variant: String,
    pub style: CallStyle,
    pub operation: String,
    pub args: Vec<String>,
    pub response: String,
    pub has_result: bool,
}

/// A compiled protocol: the request and response union names, one variant
/// per operation in each union, in declaration order, and the dispatch
/// mapping.
#[derive(Debug)]
pub struct DispatchPlan {
    pub request: String,
    pub response: String,
    pub request_variants: Vec<Variant>,
    pub response_variants: Vec<Variant>,
    pub arms: Vec<DispatchArm>,
}

/// The operation items from index `i` on, in declaration order;
/// non-operation items are ignored by the protocol compiler.
pub open spec fn ops_from(items: Seq<InterfaceItem>, i: int) -> Seq<OperationSignature>
    decreases items.len() - i,
{
    if i < 0 || i >= items.len() {
        Seq::empty()
    } else {
        (match items[i] {
            InterfaceItem::Operation(s) => seq![s],
            _ => Seq::empty(),
        }) + ops_from(items, i + 1)
    }
}

/// The operation items of an interface, in declaration order.
pub open spec fn ops_of(items: Seq<InterfaceItem>) -> Seq<OperationSignature> {
    ops_from(items, 0)
}

/// The canonical variant name an operation produces: the word-boundary
/// casing of its name.
pub open spec fn variant_name(op: OperationSignature) -> Seq<char> {
    class_case_of(op.name@)
}

/// Two distinct operations canonicalize to the same variant name.
pub open spec fn has_collision(ops: Seq<OperationSignature>) -> bool {
    exists|i: int, j: int|
        0 <= i < j < ops.len() && variant_name(ops[i]) == variant_name(ops[j])
}

/// The payload of an operation's response variant: its return type, or
/// nothing when void.
pub open spec fn response_payload(op: OperationSignature) -> Seq<String> {
    match op.ret {
        ReturnShape::Typed(t) => seq![t],
        ReturnShape::Void => Seq::empty(),
    }
}

/// The dispatch style an operation's receiver determines.
pub open spec fn style_of(op: OperationSignature) -> CallStyle {
    if op.receiver is Absent {
        CallStyle::Static
    } else {
        CallStyle::Instance
    }
}

/// A compiled plan matches an operation list: one request variant, one
/// response variant and one dispatch arm per operation, in declaration
/// order; variant names are the operations' canonical names; request
/// payloads are the non-receiver parameter types in order; response
/// payloads are the return types; each arm routes its variant to the
/// operation that produced it, with the variant's payload bindings passed
/// positionally and the call style the receiver determines.
pub open spec fn plan_matches(plan: DispatchPlan, ops: Seq<OperationSignature>) -> bool {
    &&& plan.request_variants@.len() == ops.len()
    &&& plan.response_variants@.len() == ops.len()
    &&& plan.arms@.len() == ops.len()
    &&& forall|i: int|
        0 <= i < ops.len() ==> {
            let rv = #[trigger] plan.request_variants@[i];
            &&& rv.name@ == variant_name(ops[i])
            &&& rv.payload@ == ops[i].params@.map_values(|p: Param| p.ty)
        }
    &&& forall|i: int|
        0 <= i < ops.len() ==> {
            let sv = #[trigger] plan.response_variants@[i];
            &&& sv.name@ == variant_name(ops[i])
            &&& sv.payload@ == response_payload(ops[i])
        }
    &&& forall|i: int|
        0 <= i < ops.len() ==> {
            let arm = #[trigger] plan.arms@[i];
            &&& arm.variant@ == variant_name(ops[i])
            &&& arm.operation == ops[i].name
            &&& arm.style == style_of(ops[i])
            &&& arm.args@ == ops[i].params@.map_values(|p: Param| p.name)
            &&& arm.response@ == variant_name(ops[i])
            &&& arm.has_result == !(ops[i].ret is Void)
        }
}

/// Extract the operation items of an interface, in declaration order.
#[verifier::loop_isolation(false)]
pub fn extract_ops(items: Vec<InterfaceItem>) -> (r: Vec<OperationSignature>)
    ensures
        r@ == ops_of(items@),
{
    let n: usize = items.len();
    let ghost all: Seq<InterfaceItem> = items@;
    proof {
        assert(all.len() == n);
    }
    let mut items = items;
    let mut ops: Vec<OperationSignature> = Vec::new();
    let mut i: usize = 0;
    while items.len() > 0
        invariant
            all.len() <= usize::MAX,
            i + items@.len() == all.len(),
            items@ == all.skip(i as int),
            ops_of(all) == ops@ + ops_from(all, i as int),
        decreases items.len(),
    {
        let item = items.remove(0);
        proof {
            assert(item == all[i as int]);
            assert(items@ =~= all.skip(i + 1));
        }
        match item {
            InterfaceItem::Operation(s) => {
                let ghost old_ops: Seq<OperationSignature> = ops@;
                ops.push(s);
                proof {
                    assert(old_ops + (seq![s] + ops_from(all, i + 1)) =~= ops@ + ops_from(
                        all,
                        i + 1,
                    ));
                }
            },
            _ => {
                proof {
                    assert(ops@ + (Seq::<OperationSignature>::empty() + ops_from(all, i + 1))
                        =~= ops@ + ops_from(all, i + 1));
                }
            },
        }
        i = i + 1;
    }
    proof {
        assert(ops@ + Seq::<OperationSignature>::empty() =~= ops@);
    }
    ops
}

/// Whether two of the rendered variant names coincide.
fn names_collide(names: &Vec<String>) -> (r: bool)
    ensures
        r == exists|i: int, j: int| 0 <= i < j < names@.len() && names@[i]@ == names@[j]@,
{
    let n: usize = names.len();
    let mut a: usize = 0;
    while a < n
        invariant
            n == names@.len(),
            a <= n,
            forall|i: int, j: int| 0 <= i < a && i < j < n ==> names@[i]@ != names@[j]@,
        decreases n - a,
    {
        let mut b: usize = a + 1;
        while b < n
            invariant
                n == names@.len(),
                a < n,
                a + 1 <= b <= n,
                forall|i: int, j: int| 0 <= i < a && i < j < n ==> names@[i]@ != names@[j]@,
                forall|j: int| a < j < b ==> names@[a as int]@ != names@[j]@,
            decreases n - b,
        {
            if names[a].eq(&names[b]) {
                return true;
            }
            b = b + 1;
        }
        a = a + 1;
    }
    false
}

/// Compile a normalized interface against its provider: derive one request
/// variant, one response variant and one dispatch arm per operation, in
/// declaration order, under the given request and response union names.
/// Compilation fails exactly when two distinct operation names
/// canonicalize to the same variant name; no disambiguation is attempted.
pub fn compile_dispatch(items: Vec<InterfaceItem>, request: String, response: String) -> (r:
    Result<DispatchPlan, StructuralError>)
    ensures
        ({
            let ops = ops_of(items@);
            match r {
                Ok(plan) => !has_collision(ops) && plan_matches(plan, ops) && plan.request
                    == request && plan.response == response,
                Err(e) => e == StructuralError::VariantNameCollision && has_collision(ops),
            }
        }),
{
    let ops = extract_ops(items);
    let ghost ops_seq: Seq<OperationSignature> = ops@;
    let mut names: Vec<String> = Vec::new();
    let mut i: usize = 0;
    while i < ops.len()
        invariant
            ops@ == ops_seq,
            i <= ops@.len(),
            names@.len() == i,
            forall|j: int| 0 <= j < i ==> (#[trigger] names@[j])@ == variant_name(ops_seq[j]),
        decreases ops.len() - i,
    {
        let name = crate::foreign::class_case(ops[i].name.as_str());
        names.push(name);
        i = i + 1;
    }
    if names_collide(&names) {
        proof {
            assert(has_collision(ops_seq));
        }
        return Err(StructuralError::VariantNameCollision);
    }
    proof {
        assert(!has_collision(ops_seq)) by {
            if has_collision(ops_seq) {
                let (i, j): (int, int) = choose|i: int, j: int|
                    0 <= i < j < ops_seq.len() && variant_name(ops_seq[i]) == variant_name(
                        ops_seq[j],
                    );
                assert(names@[i]@ == names@[j]@);
            }
        }
    }
    let mut request_variants: Vec<Variant> = Vec::new();
    let mut response_variants: Vec<Variant> = Vec::new();
    let mut arms: Vec<DispatchArm> = Vec::new();
    let mut k: usize = 0;
    while k < ops.len()
        invariant
            ops@ == ops_seq,
            names@.len() == ops_seq.len(),
            forall|j: int| 0 <= j < ops_seq.len() ==> (#[trigger] names@[j])@ == variant_name(
                ops_seq[j],
            ),
            k <= ops@.len(),
            request_variants@.len() == k,
            response_variants@.len() == k,
            arms@.len() == k,
            forall|j: int|
                0 <= j < k ==> {
                    let rv = #[trigger] request_variants@[j];
                    &&& rv.name@ == variant_name(ops_seq[j])
                    &&& rv.payload@ == ops_seq[j].params@.map_values(|p: Param| p.ty)
                },
            forall|j: int|
                0 <= j < k ==> {
                    let sv = #[trigger] response_variants@[j];
                    &&& sv.name@ == variant_name(ops_seq[j])
                    &&& sv.payload@ == response_payload(ops_seq[j])
                },
            forall|j: int|
                0 <= j < k ==> {
                    let arm = #[trigger] arms@[j];
                    &&& arm.variant@ == variant_name(ops_seq[j])
                    &&& arm.operation == ops_seq[j].name
                    &&& arm.style == style_of(ops_seq[j])
                    &&& arm.args@ == ops_seq[j].params@.map_values(|p: Param| p.name)
                    &&& arm.response@ == variant_name(ops_seq[j])
                    &&& arm.has_result == !(ops_seq[j].ret is Void)
                },
        decreases ops.len() - k,
    {
        let op = &ops[k];
        let mut payload: Vec<String> = Vec::new();
        let mut arg_names: Vec<String> = Vec::new();
        let mut p: usize = 0;
        while p < op.params.len()
            invariant
                0 <= k < ops@.len(),
                ops@ == ops_seq,
                op == &ops_seq[k as int],
                p <= op.params@.len(),
                payload@ =~= op.params@.subrange(0, p as int).map_values(|q: Param| q.ty),
                arg_names@ =~= op.params@.subrange(0, p as int).map_values(|q: Param| q.name),
            decreases op.params.len() - p,
        {
            payload.push(op.params[p].ty.clone());
            arg_names.push(op.params[p].name.clone());
            proof {
                assert(op.params@.subrange(0, p + 1) =~= op.params@.subrange(0, p as int).push(
                    op.params@[p as int],
                ));
            }
            p = p + 1;
        }
        proof {
            assert(op.params@.subrange(0, op.params@.len() as int) =~= op.params@);
        }
        let vname = names[k].clone();
        let response_payload_vec: Vec<String> = match &op.ret {
            ReturnShape::Typed(t) => {
                let mut v: Vec<String> = Vec::new();
                v.push(t.clone());
                proof {
                    assert(v@ =~= response_payload(ops_seq[k as int]));
                }
                v
            },
            ReturnShape::Void => {
                let v: Vec<String> = Vec::new();
                proof {
                    assert(v@ =~= response_payload(ops_seq[k as int]));
                }
                v
            },
        };
        let style = if matches!(op.receiver, crate::model::ReceiverKind::Absent) {
            CallStyle::Static
        } else {
            CallStyle::Instance
        };
        let has_result = !matches!(op.ret, ReturnShape::Void);
        request_variants.push(Variant { name: vname.clone(), payload });
        response_variants.push(Variant { name: vname.clone(), payload: response_payload_vec });
        arms.push(
            DispatchArm {
                variant: vname.clone(),
                style,
                operation: op.name.clone(),
                args: arg_names,
                response: vname,
                has_result,
            },
        );
        k = k + 1;
    }
    Ok(DispatchPlan { request, response, request_variants, response_variants, arms })
}

/// For every interface, the compiled request and response unions each have
/// exactly one variant per operation item, in declaration order, named by
/// the operation's canonical variant name.
pub proof fn lemma_variant_counts(plan: DispatchPlan, items: Seq<InterfaceItem>)
    requires
        plan_matches(plan, ops_of(items)),
    ensures
        plan.request_variants@.len() == ops_of(items).len(),
        plan.response_variants@.len() == ops_of(items).len(),
        forall|i: int|
            0 <= i < ops_of(items).len() ==> (#[trigger] plan.request_variants@[i]).name@
                == variant_name(ops_of(items)[i]),
        forall|i: int|
            0 <= i < ops_of(items).len() ==> (#[trigger] plan.response_variants@[i]).name@
                == variant_name(ops_of(items)[i]),
{
}

/// Round trip: a synthesized request variant dispatches to exactly the
/// operation whose name produced it — no other arm matches the variant, the
/// arm invokes that operation once, it passes exactly the payload the
/// variant carries, positionally and in order, and it wraps the result in
/// the matching response variant.
pub proof fn lemma_dispatch_round_trip(
    plan: DispatchPlan,
    ops: Seq<OperationSignature>,
    i: int,
    j: int,
)
    requires
        plan_matches(plan, ops),
        !has_collision(ops),
        0 <= i < ops.len(),
        0 <= j < ops.len(),
        plan.arms@[j].variant@ == plan.request_variants@[i].name@,
    ensures
        j == i,
        plan.arms@[i].operation == ops[i].name,
        plan.arms@[i].style == style_of(ops[i]),
        plan.arms@[i].args@ == ops[i].params@.map_values(|p: Param| p.name),
        plan.arms@[i].response@ == plan.response_variants@[i].name@,
        plan.arms@[i].has_result == !(ops[i].ret is Void),
{
    if i != j {
        if i < j {
            assert(variant_name(ops[i]) == variant_name(ops[j]));
        } else {
            assert(variant_name(ops[j]) == variant_name(ops[i]));
        }
    }
}

/// The operation signatures, at specification level, from index `i` on.
pub open spec fn gops_from(items: Seq<GItem>, i: int) -> Seq<GSig>
    decreases items.len() - i,
{
    if i < 0 || i >= items.len() {
        Seq::empty()
    } else {
        (match items[i] {
            GItem::Operation(s) => seq![s],
            _ => Seq::empty(),
        }) + gops_from(items, i + 1)
    }
}

/// The operation signatures of an interface at specification level.
pub open spec fn gops_of(items: Seq<GItem>) -> Seq<GSig> {
    gops_from(items, 0)
}

/// Extracting operations commutes with taking views.
pub proof fn lemma_gops_bridge(items: Seq<InterfaceItem>, i: int)
    requires
        0 <= i <= items.len(),
    ensures
        gops_from(items.map_values(|it: InterfaceItem| item_view(it)), i) == ops_from(
            items,
            i,
        ).map_values(|s: OperationSignature| sig_view(s)),
    decreases items.len() - i,
{
    let gitems = items.map_values(|it: InterfaceItem| item_view(it));
    if i < items.len() {
        lemma_gops_bridge(items, i + 1);
        assert(gitems[i] == item_view(items[i]));
        match items[i] {
            InterfaceItem::Operation(s) => {
                assert((seq![s] + ops_from(items, i + 1)).map_values(
                    |x: OperationSignature| sig_view(x),
                ) =~= seq![sig_view(s)] + ops_from(items, i + 1).map_values(
                    |x: OperationSignature| sig_view(x),
                ));
            },
            _ => {
                assert((Seq::<OperationSignature>::empty() + ops_from(items, i + 1)).map_values(
                    |x: OperationSignature| sig_view(x),
                ) =~= ops_from(items, i + 1).map_values(|x: OperationSignature| sig_view(x)));
            },
        }
    } else {
        assert(gops_from(gitems, i) =~= ops_from(items, i).map_values(
            |s: OperationSignature| sig_view(s),
        ));
    }
}

/// The canonical variant name of an operation at specification level.
pub open spec fn gvariant_name(op: GSig) -> Seq<char> {
    class_case_of(op.name)
}

/// Two distinct operations canonicalize to the same variant name, at
/// specification level.
pub open spec fn ghas_collision(gops: Seq<GSig>) -> bool {
    exists|i: int, j: int| 0 <= i < j < gops.len() && gvariant_name(gops[i]) == gvariant_name(gops[j])
}

/// Collision detection agrees with its view-level statement.
pub proof fn lemma_collision_bridge(ops: Seq<OperationSignature>)
    ensures
        has_collision(ops) <==> ghas_collision(
            ops.map_values(|s: OperationSignature| sig_view(s)),
        ),
{
    let gops = ops.map_values(|s: OperationSignature| sig_view(s));
    if has_collision(ops) {
        let (i, j): (int, int) = choose|i: int, j: int|
            0 <= i < j < ops.len() && variant_name(ops[i]) == variant_name(ops[j]);
        assert(gvariant_name(gops[i]) == gvariant_name(gops[j]));
    }
    if ghas_collision(gops) {
        let (i, j): (int, int) = choose|i: int, j: int|
            0 <= i < j < gops.len() && gvariant_name(gops[i]) == gvariant_name(gops[j]);
        assert(variant_name(ops[i]) == variant_name(ops[j]));
    }
}

/// The parsed arguments of a protocol-compiler invocation at
/// specification level.
pub struct GDispatcherArgs {
    pub generics: Option<Seq<char>>,
    pub tspec: GTraitSpec,
    pub target: Seq<char>,
    pub target_path: Option<Seq<GSeg>>,
    pub target_pos: int,
    pub request: Option<Seq<char>>,
    pub response: Option<Seq<char>>,
    pub predicates: Option<Seq<char>>,
}

/// A protocol-compiler invocation: the implementation keyword, optional
/// generics, the interface specification, the provider type, an optional
/// explicit request/response naming clause, and an optional predicate
/// clause ending the stream.
pub open spec fn spec_parse_dispatcher_args(ts: Seq<Tok>) -> Result<GDispatcherArgs, GErr> {
    if !(0 < ts.len() && is_kw(ts[0], "impl"@)) {
        Err(unexpected(0))
    } else {
        let has_gen = 1 < ts.len() && is_punct(ts[1], '<');
        if has_gen && crate::parse::spec_scan_angles(ts, 1, 0) is None {
            Err(unexpected(1))
        } else {
            let generics: Option<Seq<char>> = if has_gen {
                Some(toks_text(ts.subrange(1, crate::parse::spec_scan_angles(ts, 1, 0)->0)))
            } else {
                None
            };
            let p1 = if has_gen {
                crate::parse::spec_scan_angles(ts, 1, 0)->0
            } else {
                1
            };
            match spec_parse_trait_spec(ts, p1) {
                Err(e) => Err(e),
                Ok((tsp, p2)) => if !(p2 < ts.len() && is_kw(ts[p2], "for"@)) {
                    Err(unexpected(p2))
                } else {
                    let e3 = crate::parse::spec_scan_region(ts, p2 + 1, 0, as_where_stops());
                    if e3 == p2 + 1 {
                        Err(unexpected(p2 + 1))
                    } else {
                        let target = toks_text(ts.subrange(p2 + 1, e3));
                        let target_path: Option<Seq<GSeg>> = match spec_parse_path(
                            ts,
                            p2 + 1,
                            Seq::empty(),
                        ) {
                            Some(pp) => if pp.1 == e3 {
                                Some(pp.0)
                            } else {
                                None
                            },
                            None => None,
                        };
                        let has_names = e3 < ts.len() && is_kw(ts[e3], "as"@);
                        if has_names {
                            let e4 = crate::parse::spec_scan_region(ts, e3 + 1, 0, arrow_stops());
                            if !(e4 < ts.len() && ts[e4] is Arrow) || e4 == e3 + 1 {
                                Err(unexpected(e3 + 1))
                            } else {
                                let e5 = crate::parse::spec_scan_region(
                                    ts,
                                    e4 + 1,
                                    0,
                                    where_stops(),
                                );
                                if e5 == e4 + 1 {
                                    Err(unexpected(e4 + 1))
                                } else {
                                    spec_parse_dispatcher_tail(
                                        ts,
                                        GDispatcherArgs {
                                            generics,
                                            tspec: tsp,
                                            target,
                                            target_path,
                                            target_pos: p2 + 1,
                                            request: Some(toks_text(ts.subrange(e3 + 1, e4))),
                                            response: Some(toks_text(ts.subrange(e4 + 1, e5))),
                                            predicates: None,
                                        },
                                        e5,
                                    )
                                }
                            }
                        } else {
                            spec_parse_dispatcher_tail(
                                ts,
                                GDispatcherArgs {
                                    generics,
                                    tspec: tsp,
                                    target,
                                    target_path,
                                    target_pos: p2 + 1,
                                    request: None,
                                    response: None,
                                    predicates: None,
                                },
                                e3,
                            )
                        }
                    }
                },
            }
        }
    }
}

/// The optional predicate clause ending a protocol-compiler invocation.
pub open spec fn spec_parse_dispatcher_tail(ts: Seq<Tok>, a: GDispatcherArgs, p: int) -> Result<
    GDispatcherArgs,
    GErr,
> {
    if p < ts.len() && is_kw(ts[p], "where"@) {
        Ok(
            GDispatcherArgs {
                predicates: Some(toks_text(ts.subrange(p, ts.len() as int))),
                ..a
            },
        )
    } else if p == ts.len() {
        Ok(a)
    } else {
        Err(unexpected(p))
    }
}

/// The parsed arguments of a protocol-compiler invocation.
#[derive(Debug)]
pub struct DispatcherArgs {
    pub generics: Option<String>,
    pub tspec: TraitSpec,
    pub target: String,
    pub target_path: Option<Vec<PathSeg>>,
    pub target_pos: usize,
    pub request: Option<String>,
    pub response: Option<String>,
    pub predicates: Option<String>,
}

impl DispatcherArgs {
    /// The view of the parsed arguments.
    pub open spec fn view_spec(self) -> GDispatcherArgs {
        GDispatcherArgs {
            generics: opt_view(self.generics),
            tspec: trait_spec_view(self.tspec),
            target: self.target@,
            target_path: match self.target_path {
                Some(p) => Some(segs_view(p@)),
                None => None,
            },
            target_pos: self.target_pos as int,
            request: opt_view(self.request),
            response: opt_view(self.response),
            predicates: opt_view(self.predicates),
        }
    }

    /// Parse a protocol-compiler invocation.
    pub fn parse(ts: &Vec<Tok>) -> (r: Result<DispatcherArgs, SyntaxError>)
        ensures
            match spec_parse_dispatcher_args(ts@) {
                Ok(ga) => r is Ok && (r->Ok_0).view_spec() == ga,
                Err(e) => r is Err && r->Err_0.message@ == e.msg && r->Err_0.position == e.pos,
            },
    {
        let len: usize = ts.len();
        if !(0 < len && crate::parse::tok_is_kw(&ts[0], "impl")) {
            return Err(SyntaxError { message: "unexpected token".to_owned(), position: 0 });
        }
        let generics: Option<String>;
        let p1: usize;
        if crate::parse::punct_at(ts, 1, '<') {
            match crate::parse::scan_angles(ts, 1) {
                Some(e) => {
                    generics = Some(crate::tokens::render_slice(ts, 1, e));
                    p1 = e;
                },
                None => {
                    return Err(
                        SyntaxError { message: "unexpected token".to_owned(), position: 1 },
                    );
                },
            }
        } else {
            generics = None;
            p1 = 1;
        }
        let (tspec, p2) = match TraitSpec::parse(ts, p1) {
            Ok(v) => v,
            Err(e) => {
                return Err(e);
            },
        };
        if !(p2 < len && crate::parse::tok_is_kw(&ts[p2], "for")) {
            return Err(SyntaxError { message: "unexpected token".to_owned(), position: p2 });
        }
        let stops = crate::parse::as_where_stops_x();
        let e3 = crate::parse::scan_region(ts, p2 + 1, &stops);
        if e3 == p2 + 1 {
            return Err(
                SyntaxError { message: "unexpected token".to_owned(), position: p2 + 1 },
            );
        }
        let target = crate::tokens::render_slice(ts, p2 + 1, e3);
        let target_path: Option<Vec<PathSeg>> = match crate::parse::parse_path(ts, p2 + 1) {
            Some((pp, e)) => if e == e3 {
                Some(pp)
            } else {
                None
            },
            None => None,
        };
        let target_pos: usize = p2 + 1;
        let request: Option<String>;
        let response: Option<String>;
        let p5: usize;
        if e3 < len && crate::parse::tok_is_kw(&ts[e3], "as") {
            let astops = crate::parse::arrow_stops_x();
            let e4 = crate::parse::scan_region(ts, e3 + 1, &astops);
            if !(e4 < len && matches!(&ts[e4], Tok::Arrow)) || e4 == e3 + 1 {
                return Err(
                    SyntaxError { message: "unexpected token".to_owned(), position: e3 + 1 },
                );
            }
            let wstops = crate::parse::where_stops_x();
            let e5 = crate::parse::scan_region(ts, e4 + 1, &wstops);
            if e5 == e4 + 1 {
                return Err(
                    SyntaxError { message: "unexpected token".to_owned(), position: e4 + 1 },
                );
            }
            request = Some(crate::tokens::render_slice(ts, e3 + 1, e4));
            response = Some(crate::tokens::render_slice(ts, e4 + 1, e5));
            p5 = e5;
        } else {
            request = None;
            response = None;
            p5 = e3;
        }
        if p5 < len && crate::parse::tok_is_kw(&ts[p5], "where") {
            let predicates = Some(crate::tokens::render_slice(ts, p5, len));
            Ok(
                DispatcherArgs {
                    generics,
                    tspec,
                    target,
                    target_path,
                    target_pos,
                    request,
                    response,
                    predicates,
                },
            )
        } else if p5 == len {
            Ok(
                DispatcherArgs {
                    generics,
                    tspec,
                    target,
                    target_path,
                    target_pos,
                    request,
                    response,
                    predicates: None,
                },
            )
        } else {
            Err(SyntaxError { message: "unexpected token".to_owned(), position: p5 })
        }
    }
}

/// The text of one tagged-union variant: its name, its payload types, and
/// the closing comma.
pub open spec fn gvariant_text(name: Seq<char>, payload: Seq<Seq<char>>) -> Seq<char> {
    name + "("@ + comma_join(payload) + "),"@
}

/// The request-union variant of one operation.
pub open spec fn grequest_entry(op: GSig) -> Seq<char> {
    gvariant_text(gvariant_name(op), op.params.map_values(|p: GParam| p.ty))
}

/// The response-union variant of one operation.
pub open spec fn gresponse_entry(op: GSig) -> Seq<char> {
    gvariant_text(
        gvariant_name(op),
        match op.ret {
            GRet::Typed(t) => seq![t],
            GRet::Void => Seq::empty(),
        },
    )
}

/// The variants of the operations from `i` on, joined by single spaces.
pub open spec fn gentries_text(gops: Seq<GSig>, i: int, response: bool) -> Seq<char>
    decreases gops.len() - i,
{
    if i < 0 || i >= gops.len() {
        Seq::empty()
    } else {
        let one = if response {
            gresponse_entry(gops[i])
        } else {
            grequest_entry(gops[i])
        };
        if i == gops.len() - 1 {
            one
        } else {
            one + " "@ + gentries_text(gops, i + 1, response)
        }
    }
}

/// The text of one tagged union.
pub open spec fn genum_text(generics: Option<Seq<char>>, name: Seq<char>, body: Seq<char>) -> Seq<
    char,
> {
    "enum "@ + (match generics {
        Some(g) => g + " "@,
        None => Seq::empty(),
    }) + name + (if body.len() > 0 {
        " { "@ + body + " }"@
    } else {
        " { }"@
    })
}

/// The call a dispatch arm makes: the operation, invoked in the style the
/// receiver determines, with the payload passed positionally.
pub open spec fn garm_call_text(op: GSig) -> Seq<char> {
    (if op.receiver is Absent {
        "Self::"@
    } else {
        "self."@
    }) + op.name + "("@ + comma_join(op.params.map_values(|p: GParam| p.name)) + ")"@
}

/// The text of one dispatch arm: match the request variant, unpack its
/// payload, invoke the operation with the payload passed positionally, and
/// wrap the result in the matching response variant (an empty one for a
/// void operation).
pub open spec fn garm_text(req: Seq<char>, resp: Seq<char>, op: GSig) -> Seq<char> {
    req + "::"@ + gvariant_name(op) + "("@ + comma_join(op.params.map_values(|p: GParam| p.name))
        + ") => "@ + (match op.ret {
        GRet::Void => "{ "@ + garm_call_text(op) + "; "@ + resp + "::"@ + gvariant_name(op)
            + "() },"@,
        GRet::Typed(_) => resp + "::"@ + gvariant_name(op) + "("@ + garm_call_text(op) + "),"@,
    })
}

/// The dispatch arms of the operations from `i` on, joined by single
/// spaces.
pub open spec fn garms_text(req: Seq<char>, resp: Seq<char>, gops: Seq<GSig>, i: int) -> Seq<
    char,
>
    decreases gops.len() - i,
{
    if i < 0 || i >= gops.len() {
        Seq::empty()
    } else if i == gops.len() - 1 {
        garm_text(req, resp, gops[i])
    } else {
        garm_text(req, resp, gops[i]) + " "@ + garms_text(req, resp, gops, i + 1)
    }
}

/// The whole compiled output: the request union, the response union, and
/// the dispatcher implementation with its dispatch routine.
pub open spec fn gdispatcher_text(
    generics: Option<Seq<char>>,
    req: Seq<char>,
    resp: Seq<char>,
    target: Seq<char>,
    predicates: Option<Seq<char>>,
    gops: Seq<GSig>,
) -> Seq<char> {
    genum_text(generics, req, gentries_text(gops, 0, false)) + " "@ + genum_text(
        generics,
        resp,
        gentries_text(gops, 0, true),
    ) + " impl "@ + (match generics {
        Some(g) => g + " "@,
        None => Seq::empty(),
    }) + "frincoe_rpc::Dispatcher for "@ + target + (match predicates {
        Some(p) => " "@ + p,
        None => Seq::empty(),
    }) + " { type Request = "@ + req + "; type Response = "@ + resp
        + "; fn dispatch(&mut self, request: Self::Request) -> Self::Response { match request {"@
        + (if gops.len() > 0 {
        " "@ + garms_text(req, resp, gops, 0) + " "@
    } else {
        " "@
    }) + "} } }"@
}

/// The canonical path an interface specification names: the alias when one
/// was written, else the declared location or name.
pub open spec fn resolved_path(g: GTraitSpec) -> Seq<GSeg> {
    match g.alias {
        Some(a) => a,
        None => match g.source {
            GTraitCode::File { name: _, location } => location,
            GTraitCode::Raw { name, items: _ } => seq![GSeg { ident: name, args: Seq::empty() }],
        },
    }
}

/// The default name of a protocol union: the interface's canonical path
/// with the last identifier replaced by the provider's name, the
/// interface's name and the suffix, run together.
pub open spec fn derived_name_text(tpath: Seq<GSeg>, iface: Seq<GSeg>, suffix: Seq<char>) -> Seq<
    char,
> {
    gpath_text(
        iface.update(
            iface.len() - 1,
            GSeg {
                ident: tpath.last().ident + iface.last().ident + suffix,
                args: iface.last().args,
            },
        ),
    )
}

/// Derive a default protocol union name.
fn derive_protocol_name(tpath: &Vec<PathSeg>, iface: &Vec<PathSeg>, suffix: &str) -> (r: String)
    requires
        tpath@.len() > 0,
        iface@.len() > 0,
    ensures
        r@ == derived_name_text(segs_view(tpath@), segs_view(iface@), suffix@),
{
    let mut segs: Vec<PathSeg> = Vec::new();
    let last: usize = iface.len() - 1;
    let mut i: usize = 0;
    while i < last
        invariant
            last < iface@.len(),
            i <= last,
            segs@.len() == i,
            forall|j: int| 0 <= j < i ==> #[trigger] segs@[j] == iface@[j],
        decreases last - i,
    {
        segs.push(
            PathSeg { ident: iface[i].ident.clone(), args: iface[i].args.clone() },
        );
        i = i + 1;
    }
    let mut ident = tpath[tpath.len() - 1].ident.clone();
    ident.append(iface[last].ident.as_str());
    ident.append(suffix);
    segs.push(PathSeg { ident, args: iface[last].args.clone() });
    proof {
        assert(segs_view(segs@) =~= segs_view(iface@).update(
            iface@.len() - 1,
            GSeg {
                ident: segs_view(tpath@).last().ident + segs_view(iface@).last().ident
                    + suffix@,
                args: segs_view(iface@).last().args,
            },
        ));
    }
    let r = crate::render::render_path(&segs);
    proof {
        lemma_path_text_view(segs@);
    }
    r
}

/// Render the request or response variants of a compiled plan from `i` on.
fn render_entries(
    vs: &Vec<Variant>,
    i: usize,
    response: bool,
    Ghost(gops): Ghost<Seq<GSig>>,
) -> (r: String)
    requires
        i <= vs@.len(),
        vs@.len() == gops.len(),
        forall|j: int|
            0 <= j < gops.len() ==> {
                let v = #[trigger] vs@[j];
                &&& v.name@ == gvariant_name(gops[j])
                &&& v.payload@.map_values(|s: String| s@) == (if response {
                    match gops[j].ret {
                        GRet::Typed(t) => seq![t],
                        GRet::Void => Seq::empty(),
                    }
                } else {
                    gops[j].params.map_values(|p: GParam| p.ty)
                })
            },
    ensures
        r@ == gentries_text(gops, i as int, response),
    decreases vs@.len() - i,
{
    if i >= vs.len() {
        String::new()
    } else {
        let v = &vs[i];
        let mut one = v.name.clone();
        one.append("(");
        let payload = join_comma(&v.payload);
        one.append(payload.as_str());
        one.append("),");
        if i + 1 == vs.len() {
            one
        } else {
            let rest = render_entries(vs, i + 1, response, Ghost(gops));
            one.append(" ");
            one.append(rest.as_str());
            one
        }
    }
}

/// Render one dispatch arm.
fn render_one_arm(a: &DispatchArm, req: &String, resp: &String, Ghost(gop): Ghost<GSig>) -> (r:
    String)
    requires
        a.variant@ == gvariant_name(gop),
        a.operation@ == gop.name,
        a.style is Static <==> gop.receiver is Absent,
        a.args@.map_values(|s: String| s@) == gop.params.map_values(|p: GParam| p.name),
        a.response@ == gvariant_name(gop),
        a.has_result == !(gop.ret is Void),
    ensures
        r@ == garm_text(req@, resp@, gop),
{
    let mut one = req.clone();
    one.append("::");
    one.append(a.variant.as_str());
    one.append("(");
    let args = join_comma(&a.args);
    one.append(args.as_str());
    one.append(") => ");
    let mut call = String::new();
    match a.style {
        CallStyle::Static => call.append("Self::"),
        CallStyle::Instance => call.append("self."),
    }
    call.append(a.operation.as_str());
    call.append("(");
    call.append(args.as_str());
    call.append(")");
    if a.has_result {
        one.append(resp.as_str());
        one.append("::");
        one.append(a.response.as_str());
        one.append("(");
        one.append(call.as_str());
        one.append("),");
    } else {
        one.append("{ ");
        one.append(call.as_str());
        one.append("; ");
        one.append(resp.as_str());
        one.append("::");
        one.append(a.response.as_str());
        one.append("() },");
    }
    one
}

/// Render the dispatch arms of a compiled plan from `i` on.
fn render_arms(
    arms: &Vec<DispatchArm>,
    req: &String,
    resp: &String,
    i: usize,
    Ghost(gops): Ghost<Seq<GSig>>,
) -> (r: String)
    requires
        i <= arms@.len(),
        arms@.len() == gops.len(),
        forall|j: int|
            0 <= j < gops.len() ==> {
                let a = #[trigger] arms@[j];
                &&& a.variant@ == gvariant_name(gops[j])
                &&& a.operation@ == gops[j].name
                &&& (a.style is Static <==> gops[j].receiver is Absent)
                &&& a.args@.map_values(|s: String| s@) == gops[j].params.map_values(
                    |p: GParam| p.name,
                )
                &&& a.response@ == gvariant_name(gops[j])
                &&& a.has_result == !(gops[j].ret is Void)
            },
    ensures
        r@ == garms_text(req@, resp@, gops, i as int),
    decreases arms@.len() - i,
{
    if i >= arms.len() {
        String::new()
    } else {
        let mut one = render_one_arm(&arms[i], req, resp, Ghost(gops[i as int]));
        if i + 1 == arms.len() {
            one
        } else {
            let rest = render_arms(arms, req, resp, i + 1, Ghost(gops));
            one.append(" ");
            one.append(rest.as_str());
            one
        }
    }
}

/// Assemble one tagged-union declaration.
fn render_enum(generics: &Option<String>, name: &String, body: &String) -> (r: String)
    ensures
        r@ == genum_text(opt_view(*generics), name@, body@),
{
    let mut out = "enum ".to_owned();
    match generics {
        Some(g) => {
            out.append(g.as_str());
            out.append(" ");
        },
        None => {},
    }
    out.append(name.as_str());
    if !body.as_str().is_empty() {
        out.append(" { ");
        out.append(body.as_str());
        out.append(" }");
    } else {
        out.append(" { }");
    }
    out
}

/// What a protocol-compiler invocation produces: the request union, the
/// response union and the dispatcher implementation, or the exact failure.
pub open spec fn spec_make_dispatcher(ts: Seq<Tok>, file: Option<ScopeTree>) -> Result<
    Seq<char>,
    GFail,
> {
    match spec_parse_dispatcher_args(ts) {
        Err(e) => Err(GFail::Syntax(e)),
        Ok(a) => match crate::parse::resolve_gtrait(a.tspec, file) {
            Err(re) => Err(GFail::Resolution(re)),
            Ok(pr) => {
                let gops = gops_of(pr.1);
                let iface = resolved_path(a.tspec);
                if a.request is None && (!(a.target_path is Some) || a.target_path->0.len() == 0
                    || iface.len() == 0) {
                    Err(
                        GFail::Syntax(
                            GErr {
                                msg: "this type is not supported currently"@,
                                pos: a.target_pos,
                            },
                        ),
                    )
                } else {
                    let req = match a.request {
                        Some(r) => r,
                        None => derived_name_text(a.target_path->0, iface, "Request"@),
                    };
                    let resp = match a.response {
                        Some(r) => r,
                        None => derived_name_text(a.target_path->0, iface, "Response"@),
                    };
                    if ghas_collision(gops) {
                        Err(GFail::Structure(StructuralError::VariantNameCollision))
                    } else {
                        Ok(
                            gdispatcher_text(
                                a.generics,
                                req,
                                resp,
                                a.target,
                                a.predicates,
                                gops,
                            ),
                        )
                    }
                }
            },
        },
    }
}

/// In a parsed protocol-compiler invocation, the explicit request and
/// response names are present together or absent together.
proof fn lemma_dispatcher_args_names(ts: Seq<Tok>)
    requires
        spec_parse_dispatcher_args(ts) is Ok,
    ensures
        (spec_parse_dispatcher_args(ts)->Ok_0.request is Some) <==> (spec_parse_dispatcher_args(
            ts,
        )->Ok_0.response is Some),
{
}

/// Render the whole compiled output of a protocol-compiler invocation.
#[verifier::rlimit(100)]
#[verifier::spinoff_prover]
fn render_dispatcher_output(
    generics: &Option<String>,
    target: &String,
    predicates: &Option<String>,
    plan: &DispatchPlan,
    Ghost(gops): Ghost<Seq<GSig>>,
) -> (r: String)
    requires
        plan.request_variants@.len() == gops.len(),
        plan.response_variants@.len() == gops.len(),
        plan.arms@.len() == gops.len(),
        forall|j: int|
            0 <= j < gops.len() ==> {
                let v = #[trigger] plan.request_variants@[j];
                &&& v.name@ == gvariant_name(gops[j])
                &&& v.payload@.map_values(|st: String| st@) == gops[j].params.map_values(
                    |p: GParam| p.ty,
                )
            },
        forall|j: int|
            0 <= j < gops.len() ==> {
                let v = #[trigger] plan.response_variants@[j];
                &&& v.name@ == gvariant_name(gops[j])
                &&& v.payload@.map_values(|st: String| st@) == (match gops[j].ret {
                    GRet::Typed(t) => seq![t],
                    GRet::Void => Seq::<Seq<char>>::empty(),
                })
            },
        forall|j: int|
            0 <= j < gops.len() ==> {
                let a = #[trigger] plan.arms@[j];
                &&& a.variant@ == gvariant_name(gops[j])
                &&& a.operation@ == gops[j].name
                &&& (a.style is Static <==> gops[j].receiver is Absent)
                &&& a.args@.map_values(|st: String| st@) == gops[j].params.map_values(
                    |p: GParam| p.name,
                )
                &&& a.response@ == gvariant_name(gops[j])
                &&& a.has_result == !(gops[j].ret is Void)
            },
    ensures
        r@ == gdispatcher_text(
            opt_view(*generics),
            plan.request@,
            plan.response@,
            target@,
            opt_view(*predicates),
            gops,
        ),
{
    let req_body = render_entries(&plan.request_variants, 0, false, Ghost(gops));
    let resp_body = render_entries(&plan.response_variants, 0, true, Ghost(gops));
    let arms_text = render_arms(&plan.arms, &plan.request, &plan.response, 0, Ghost(gops));
    let enum1 = render_enum(generics, &plan.request, &req_body);
    let enum2 = render_enum(generics, &plan.response, &resp_body);
    let mut out = enum1;
    out.append(" ");
    out.append(enum2.as_str());
    out.append(" impl ");
    match generics {
        Some(g) => {
            out.append(g.as_str());
            out.append(" ");
        },
        None => {},
    }
    out.append("frincoe_rpc::Dispatcher for ");
    out.append(target.as_str());
    match predicates {
        Some(p) => {
            out.append(" ");
            out.append(p.as_str());
        },
        None => {},
    }
    out.append(" { type Request = ");
    out.append(plan.request.as_str());
    out.append("; type Response = ");
    out.append(plan.response.as_str());
    out.append(
        "; fn dispatch(&mut self, request: Self::Request) -> Self::Response { match request {",
    );
    if plan.arms.len() > 0 {
        out.append(" ");
        out.append(arms_text.as_str());
        out.append(" ");
    } else {
        out.append(" ");
    }
    out.append("} } }");
    out
}

/// Expand one protocol-compiler invocation: parse its arguments, locate
/// the interface, derive the union names, compile the dispatch plan, and
/// render the request union, the response union and the dispatcher.
#[verifier::rlimit(100)]
#[verifier::spinoff_prover]
pub fn make_dispatcher_impl(ts: &Vec<Tok>, file: Option<ScopeTree>) -> (r: Result<
    String,
    GenError,
>)
    requires
        file is Some ==> file->0.wf(),
    ensures
        match spec_make_dispatcher(ts@, file) {
            Ok(text) => r is Ok && r->Ok_0@ == text,
            Err(f) => r is Err && gen_error_view(r->Err_0) == f,
        },
{
    let args = match DispatcherArgs::parse(ts) {
        Ok(a) => a,
        Err(e) => {
            return Err(GenError::Syntax(e));
        },
    };
    proof {
        lemma_dispatcher_args_names(ts@);
    }
    let DispatcherArgs {
        generics,
        tspec,
        target,
        target_path,
        target_pos,
        request,
        response,
        predicates,
    } = args;
    let ghost gtsp: GTraitSpec = trait_spec_view(tspec);
    proof {
        match &tspec.source {
            crate::locate::TraitCode::File { name: _, location } => {
                assert(crate::locate::path_view(location@)
                    =~= gtsp.source->File_location.map_values(|sg: GSeg| sg.ident));
            },
            _ => {},
        }
    }
    match tspec.get_trait(file) {
        Err(e) => Err(GenError::Resolution(e)),
        Ok(provider) => {
            let crate::locate::TraitProvider { items, name } = provider;
            let ghost pr = crate::parse::resolve_gtrait(gtsp, file)->Ok_0;
            let ghost gops = gops_of(pr.1);
            proof {
                assert(items@.map_values(|it: InterfaceItem| item_view(it)) == pr.1);
                assert(segs_view(name@) =~= resolved_path(gtsp));
                lemma_gops_bridge(items@, 0);
                assert(gops == ops_of(items@).map_values(|x: OperationSignature| sig_view(x)));
                lemma_collision_bridge(ops_of(items@));
            }
            let req: String;
            let resp: String;
            if matches!(request, None) {
                let ok_target: bool = match &target_path {
                    Some(tp) => tp.len() > 0 && name.len() > 0,
                    None => false,
                };
                if !ok_target {
                    return Err(
                        GenError::Syntax(
                            SyntaxError {
                                message: "this type is not supported currently".to_owned(),
                                position: target_pos,
                            },
                        ),
                    );
                }
                match &target_path {
                    Some(tp) => {
                        req = derive_protocol_name(tp, &name, "Request");
                        resp = derive_protocol_name(tp, &name, "Response");
                    },
                    None => {
                        req = String::new();
                        resp = String::new();
                        proof {
                            assert(false);
                        }
                    },
                }
            } else {
                req = match request {
                    Some(r1) => r1,
                    None => String::new(),
                };
                match response {
                    Some(r2) => {
                        resp = r2;
                    },
                    None => {
                        resp = String::new();
                        proof {
                            assert(false);
                        }
                    },
                }
            }
            let ghost n_items: Seq<InterfaceItem> = items@;
            match compile_dispatch(items, req, resp) {
                Err(e) => Err(GenError::Structure(e)),
                Ok(plan) => {
                    let ghost ops = ops_of(n_items);
                    proof {
                        assert(plan_matches(plan, ops));
                        assert(gops.len() == ops.len());
                        assert forall|j: int| 0 <= j < gops.len() implies {
                            let v = #[trigger] plan.request_variants@[j];
                            &&& v.name@ == gvariant_name(gops[j])
                            &&& v.payload@.map_values(|st: String| st@)
                                == gops[j].params.map_values(|p: GParam| p.ty)
                        } by {
                            assert(gops[j] == sig_view(ops[j]));
                            assert(plan.request_variants@[j].payload@.map_values(
                                |st: String| st@,
                            ) =~= gops[j].params.map_values(|p: GParam| p.ty));
                        }
                        assert forall|j: int| 0 <= j < gops.len() implies {
                            let v = #[trigger] plan.response_variants@[j];
                            &&& v.name@ == gvariant_name(gops[j])
                            &&& v.payload@.map_values(|st: String| st@) == (match gops[j].ret {
                                GRet::Typed(t) => seq![t],
                                GRet::Void => Seq::<Seq<char>>::empty(),
                            })
                        } by {
                            assert(gops[j] == sig_view(ops[j]));
                            assert(plan.response_variants@[j].payload@.map_values(
                                |st: String| st@,
                            ) =~= (match gops[j].ret {
                                GRet::Typed(t) => seq![t],
                                GRet::Void => Seq::<Seq<char>>::empty(),
                            }));
                        }
                        assert forall|j: int| 0 <= j < gops.len() implies {
                            let a = #[trigger] plan.arms@[j];
                            &&& a.variant@ == gvariant_name(gops[j])
                            &&& a.operation@ == gops[j].name
                            &&& (a.style is Static <==> gops[j].receiver is Absent)
                            &&& a.args@.map_values(|st: String| st@)
                                == gops[j].params.map_values(|p: GParam| p.name)
                            &&& a.response@ == gvariant_name(gops[j])
                            &&& a.has_result == !(gops[j].ret is Void)
                        } by {
                            assert(gops[j] == sig_view(ops[j]));
                            assert(plan.arms@[j].args@.map_values(|st: String| st@)
                                =~= gops[j].params.map_values(|p: GParam| p.name));
                        }
                    }
                    let out = render_dispatcher_output(
                        &generics,
                        &target,
                        &predicates,
                        &plan,
                        Ghost(gops),
                    );
                    Ok(out)
                },
            }
        },
    }
}

} // verus!
