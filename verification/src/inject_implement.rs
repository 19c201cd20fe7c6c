//! The injector: the strategy-agnostic composition point.  It binds an
//! interface to a target by asking a pluggable adapter to produce one
//! augmented declaration per interface item, and assembles what comes back.
//! The injector performs no semantic transformation of items itself.

use vstd::prelude::*;

use crate::errors::{GenError, StructuralError, SyntaxError};
use crate::locate::{ScopeTree, TraitProvider, TraitSpec};
use crate::model::{Declaration, InterfaceItem};
use crate::parse::{
    gen_error_view, in_stops, is_kw, is_punct, item_view, lemma_path_text_view, resolve_gtrait,
    spec_parse_trait_spec, trait_spec_view, unexpected, GErr, GFail, GItem, GTraitSpec,
};
use crate::render::{gimpl_text, ginvocations_from, opt_view};
use crate::tokens::{toks_text, Delim, Tok};

verus! {

/// A pluggable per-item generation strategy.  For each interface item an
/// adapter produces a declaration to include verbatim, nothing (the item
/// is omitted from the generated block), or a structural failure.
pub trait Adapter {
    /// What this adapter produces for one item.
    spec fn spec_generate(&self, item: InterfaceItem) -> Result<
        Option<Declaration>,
        StructuralError,
    >;

    /// Produce the declaration for one item.
    fn generate(&self, item: InterfaceItem) -> (r: Result<Option<Declaration>, StructuralError>)
        ensures
            r == self.spec_generate(item),
    ;
}

/// What injection produces for the items from index `i` on: the
/// declarations the adapter emits, in item order, or the first failure.
/// An item of unsupported kind is a failure of the injector itself, never
/// silently skipped.
pub open spec fn inject_from<A: Adapter>(a: A, items: Seq<InterfaceItem>, i: int) -> Result<
    Seq<Declaration>,
    StructuralError,
>
    decreases items.len() - i,
{
    if i < 0 || i >= items.len() {
        Ok(Seq::empty())
    } else if items[i] is Unsupported {
        Err(StructuralError::UnsupportedItemKind)
    } else {
        match a.spec_generate(items[i]) {
            Err(e) => Err(e),
            Ok(opt) => match inject_from(a, items, i + 1) {
                Err(e) => Err(e),
                Ok(rest) => Ok(
                    (match opt {
                        Some(d) => seq![d],
                        None => Seq::empty(),
                    }) + rest,
                ),
            },
        }
    }
}

/// What injection produces for an item list.
pub open spec fn spec_inject<A: Adapter>(a: A, items: Seq<InterfaceItem>) -> Result<
    Seq<Declaration>,
    StructuralError,
> {
    inject_from(a, items, 0)
}

/// Invoke the adapter once per interface item, in declaration order, and
/// collect the produced declarations.  The first failure aborts the whole
/// injection: no partial output is kept.
#[verifier::loop_isolation(false)]
pub fn inject<A: Adapter>(adapter: &A, items: Vec<InterfaceItem>) -> (r: Result<
    Vec<Declaration>,
    StructuralError,
>)
    ensures
        match spec_inject(*adapter, items@) {
            Ok(ds) => r is Ok && r->Ok_0@ == ds,
            Err(e) => r == Err::<Vec<Declaration>, StructuralError>(e),
        },
{
    let n: usize = items.len();
    let ghost all: Seq<InterfaceItem> = items@;
    proof {
        assert(all.len() == n);
    }
    let mut items = items;
    let mut decls: Vec<Declaration> = Vec::new();
    let mut i: usize = 0;
    while items.len() > 0
        invariant
            all.len() <= usize::MAX,
            i + items@.len() == all.len(),
            items@ == all.skip(i as int),
            spec_inject(*adapter, all) == (match inject_from(*adapter, all, i as int) {
                Ok(rest) => Ok::<Seq<Declaration>, StructuralError>(decls@ + rest),
                Err(e) => Err::<Seq<Declaration>, StructuralError>(e),
            }),
        decreases items.len(),
    {
        let item = items.remove(0);
        proof {
            assert(item == all[i as int]);
            assert(all.skip(i as int).skip(1) =~= all.skip(i + 1));
            assert(items@ =~= all.skip(i + 1));
        }
        if let InterfaceItem::Unsupported = &item {
            proof {
                assert(i < all.len());
                assert(all[i as int] is Unsupported);
                assert(inject_from(*adapter, all, i as int) == Err::<
                    Seq<Declaration>,
                    StructuralError,
                >(StructuralError::UnsupportedItemKind));
            }
            return Err(StructuralError::UnsupportedItemKind);
        }
        match adapter.generate(item) {
            Err(e) => {
                proof {
                    assert(inject_from(*adapter, all, i as int) == Err::<
                        Seq<Declaration>,
                        StructuralError,
                    >(e));
                }
                return Err(e);
            },
            Ok(Some(d)) => {
                let ghost old_decls: Seq<Declaration> = decls@;
                decls.push(d);
                proof {
                    if let Ok(rest) = inject_from(*adapter, all, i + 1) {
                        assert(old_decls + (seq![d] + rest) =~= decls@ + rest);
                    }
                }
            },
            Ok(None) => {
                proof {
                    if let Ok(rest) = inject_from(*adapter, all, i + 1) {
                        assert(decls@ + (Seq::<Declaration>::empty() + rest) =~= decls@ + rest);
                    }
                }
            },
        }
        i = i + 1;
    }
    proof {
        assert(decls@ + Seq::<Declaration>::empty() =~= decls@);
    }
    Ok(decls)
}

/// The parsed arguments of an injector invocation at specification level.
pub struct GClientArgs {
    pub generics: Option<Seq<char>>,
    pub tspec: GTraitSpec,
    pub target: Seq<char>,
    pub adapter: Seq<char>,
    pub extargs: Option<Seq<char>>,
    pub predicates: Option<Seq<char>>,
}

/// An injector invocation: the implementation keyword, optional generics,
/// the interface specification, the target type, the strategy name,
/// optional fixed arguments, and an optional predicate clause ending the
/// stream.
pub open spec fn spec_parse_client_args(ts: Seq<Tok>) -> Result<GClientArgs, GErr> {
    if !(0 < ts.len() && is_kw(ts[0], "impl"@)) {
        Err(unexpected(0))
    } else {
        let has_gen = 1 < ts.len() && is_punct(ts[1], '<');
        if has_gen && crate::parse::spec_scan_angles(ts, 1, 0) is None {
            Err(unexpected(1))
        } else {
            let generics: Option<Seq<char>> = if has_gen {
                Some(toks_text(ts.subrange(1, crate::parse::spec_scan_angles(ts, 1, 0)->0)))
            } else {
                None
            };
            let p1 = if has_gen {
                crate::parse::spec_scan_angles(ts, 1, 0)->0
            } else {
                1
            };
            match spec_parse_trait_spec(ts, p1) {
                Err(e) => Err(e),
                Ok((tsp, p2)) => if !(p2 < ts.len() && is_kw(ts[p2], "for"@)) {
                    Err(unexpected(p2))
                } else {
                    let e3 = crate::parse::spec_scan_region(ts, p2 + 1, 0, in_stops());
                    if e3 == p2 + 1 {
                        Err(unexpected(p2 + 1))
                    } else if !(e3 < ts.len() && is_kw(ts[e3], "in"@)) {
                        Err(unexpected(e3))
                    } else if !(e3 + 1 < ts.len() && ts[e3 + 1] is Ident) {
                        Err(unexpected(e3 + 1))
                    } else {
                        let target = toks_text(ts.subrange(p2 + 1, e3));
                        let adapter = ts[e3 + 1]->Ident_0@;
                        let p4 = e3 + 2;
                        let has_ext = p4 < ts.len() && ts[p4] is Group && ts[p4]->Group_0
                            is Paren;
                        let extargs: Option<Seq<char>> = if has_ext {
                            Some(toks_text(ts[p4]->Group_1@))
                        } else {
                            None
                        };
                        let p5 = if has_ext {
                            p4 + 1
                        } else {
                            p4
                        };
                        if p5 < ts.len() && is_kw(ts[p5], "where"@) {
                            Ok(
                                GClientArgs {
                                    generics,
                                    tspec: tsp,
                                    target,
                                    adapter,
                                    extargs,
                                    predicates: Some(
                                        toks_text(ts.subrange(p5, ts.len() as int)),
                                    ),
                                },
                            )
                        } else if p5 == ts.len() {
                            Ok(
                                GClientArgs {
                                    generics,
                                    tspec: tsp,
                                    target,
                                    adapter,
                                    extargs,
                                    predicates: None,
                                },
                            )
                        } else {
                            Err(unexpected(p5))
                        }
                    }
                },
            }
        }
    }
}

/// The parsed arguments of an injector invocation.
#[derive(Debug)]
pub struct ClientArgs {
    pub generics: Option<String>,
    pub tspec: TraitSpec,
    pub target: String,
    pub adapter: String,
    pub extargs: Option<String>,
    pub predicates: Option<String>,
}

impl ClientArgs {
    /// The view of the parsed arguments.
    pub open spec fn view_spec(self) -> GClientArgs {
        GClientArgs {
            generics: opt_view(self.generics),
            tspec: trait_spec_view(self.tspec),
            target: self.target@,
            adapter: self.adapter@,
            extargs: opt_view(self.extargs),
            predicates: opt_view(self.predicates),
        }
    }

    /// Parse an injector invocation.
    pub fn parse(ts: &Vec<Tok>) -> (r: Result<ClientArgs, SyntaxError>)
        ensures
            match spec_parse_client_args(ts@) {
                Ok(ga) => r is Ok && (r->Ok_0).view_spec() == ga,
                Err(e) => r is Err && r->Err_0.message@ == e.msg && r->Err_0.position == e.pos,
            },
    {
        let len: usize = ts.len();
        if !(0 < len && crate::parse::tok_is_kw(&ts[0], "impl")) {
            return Err(SyntaxError { message: "unexpected token".to_owned(), position: 0 });
        }
        let generics: Option<String>;
        let p1: usize;
        if crate::parse::punct_at(ts, 1, '<') {
            match crate::parse::scan_angles(ts, 1) {
                Some(e) => {
                    generics = Some(crate::tokens::render_slice(ts, 1, e));
                    p1 = e;
                },
                None => {
                    return Err(
                        SyntaxError { message: "unexpected token".to_owned(), position: 1 },
                    );
                },
            }
        } else {
            generics = None;
            p1 = 1;
        }
        let (tspec, p2) = match TraitSpec::parse(ts, p1) {
            Ok(v) => v,
            Err(e) => {
                return Err(e);
            },
        };
        if !(p2 < len && crate::parse::tok_is_kw(&ts[p2], "for")) {
            return Err(SyntaxError { message: "unexpected token".to_owned(), position: p2 });
        }
        let stops = crate::parse::in_stops_x();
        let e3 = crate::parse::scan_region(ts, p2 + 1, &stops);
        if e3 == p2 + 1 {
            return Err(
                SyntaxError { message: "unexpected token".to_owned(), position: p2 + 1 },
            );
        }
        if !(e3 < len && crate::parse::tok_is_kw(&ts[e3], "in")) {
            return Err(SyntaxError { message: "unexpected token".to_owned(), position: e3 });
        }
        if !(e3 + 1 < len && matches!(&ts[e3 + 1], Tok::Ident(_))) {
            return Err(
                SyntaxError { message: "unexpected token".to_owned(), position: e3 + 1 },
            );
        }
        let target = crate::tokens::render_slice(ts, p2 + 1, e3);
        let adapter: String = match &ts[e3 + 1] {
            Tok::Ident(s) => s.clone(),
            _ => String::new(),
        };
        let p4: usize = e3 + 2;
        let extargs: Option<String>;
        let p5: usize;
        if p4 < len && matches!(&ts[p4], Tok::Group(Delim::Paren, _)) {
            let inner: String = match &ts[p4] {
                Tok::Group(Delim::Paren, g) => crate::tokens::render_toks(g),
                _ => String::new(),
            };
            extargs = Some(inner);
            p5 = p4 + 1;
        } else {
            extargs = None;
            p5 = p4;
        }
        if p5 < len && crate::parse::tok_is_kw(&ts[p5], "where") {
            let predicates = Some(crate::tokens::render_slice(ts, p5, len));
            Ok(ClientArgs { generics, tspec, target, adapter, extargs, predicates })
        } else if p5 == len {
            Ok(ClientArgs { generics, tspec, target, adapter, extargs, predicates: None })
        } else {
            Err(SyntaxError { message: "unexpected token".to_owned(), position: p5 })
        }
    }
}

/// Whether any item of the list is of unsupported kind.
pub fn has_unsupported(items: &Vec<InterfaceItem>) -> (r: bool)
    ensures
        r == exists|i: int| 0 <= i < items@.len() && (#[trigger] items@[i]) is Unsupported,
{
    let mut i: usize = 0;
    while i < items.len()
        invariant
            i <= items@.len(),
            forall|j: int| 0 <= j < i ==> !((#[trigger] items@[j]) is Unsupported),
        decreases items.len() - i,
    {
        if let InterfaceItem::Unsupported = &items[i] {
            return true;
        }
        i = i + 1;
    }
    false
}

/// What an injector invocation produces: the implementation block binding
/// the interface to the target, holding one adapter invocation per item,
/// or the exact failure.
pub open spec fn spec_inject_implement(ts: Seq<Tok>, file: Option<ScopeTree>) -> Result<
    Seq<char>,
    GFail,
> {
    match spec_parse_client_args(ts) {
        Err(e) => Err(GFail::Syntax(e)),
        Ok(a) => match resolve_gtrait(a.tspec, file) {
            Err(re) => Err(GFail::Resolution(re)),
            Ok(pr) => if exists|i: int| 0 <= i < pr.1.len() && (#[trigger] pr.1[i])
                is Unsupported {
                Err(GFail::Structure(StructuralError::UnsupportedItemKind))
            } else {
                Ok(
                    gimpl_text(
                        a.generics,
                        pr.0,
                        a.target,
                        a.predicates,
                        ginvocations_from(a.adapter, a.extargs, pr.1, 0),
                    ),
                )
            },
        },
    }
}

/// Expand one injector invocation: parse its arguments, locate the
/// interface, and assemble the implementation block that invokes the
/// adapter once per interface item.
pub fn inject_implement_impl(ts: &Vec<Tok>, file: Option<ScopeTree>) -> (r: Result<
    String,
    GenError,
>)
    requires
        file is Some ==> file->0.wf(),
    ensures
        match spec_inject_implement(ts@, file) {
            Ok(text) => r is Ok && r->Ok_0@ == text,
            Err(f) => r is Err && gen_error_view(r->Err_0) == f,
        },
{
    let args = match ClientArgs::parse(ts) {
        Ok(a) => a,
        Err(e) => {
            return Err(GenError::Syntax(e));
        },
    };
    let ClientArgs { generics, tspec, target, adapter, extargs, predicates } = args;
    let ghost gtsp: GTraitSpec = trait_spec_view(tspec);
    proof {
        lemma_resolution_bridge(tspec, file);
    }
    match tspec.get_trait(file) {
        Err(e) => Err(GenError::Resolution(e)),
        Ok(provider) => {
            let TraitProvider { items, name } = provider;
            proof {
                let pr = resolve_gtrait(gtsp, file)->Ok_0;
                lemma_path_text_view(name@);
                assert(items@.map_values(|it: InterfaceItem| item_view(it)) == pr.1);
                assert(crate::render::path_text(name@) == pr.0);
            }
            if has_unsupported(&items) {
                proof {
                    let pr = resolve_gtrait(gtsp, file)->Ok_0;
                    let i = choose|i: int|
                        0 <= i < items@.len() && (#[trigger] items@[i]) is Unsupported;
                    assert(pr.1[i] == item_view(items@[i]));
                }
                return Err(GenError::Structure(StructuralError::UnsupportedItemKind));
            }
            proof {
                let pr = resolve_gtrait(gtsp, file)->Ok_0;
                if exists|i: int| 0 <= i < pr.1.len() && (#[trigger] pr.1[i]) is Unsupported {
                    let i = choose|i: int|
                        0 <= i < pr.1.len() && (#[trigger] pr.1[i]) is Unsupported;
                    assert(pr.1[i] == item_view(items@[i]));
                    assert(items@[i] is Unsupported);
                }
            }
            let name_text = crate::render::render_path(&name);
            let body = crate::render::render_invocations(&adapter, &extargs, &items);
            let out = crate::render::render_impl_block(
                &generics,
                &name_text,
                &target,
                &predicates,
                &body,
            );
            Ok(out)
        },
    }
}

/// Resolving an interface specification agrees with its view-level
/// resolution on the canonical path and the item views.
proof fn lemma_resolution_bridge(tspec: TraitSpec, file: Option<ScopeTree>)
    ensures
        ({
            let g = trait_spec_view(tspec);
            match tspec.source {
                crate::locate::TraitCode::File { name: _, location } => match file {
                    None => resolve_gtrait(g, file) == Err::<
                        (Seq<char>, Seq<GItem>),
                        crate::errors::ResolutionError,
                    >(crate::errors::ResolutionError::DefinitionSourceUnreadable),
                    Some(tree) => ({
                        &&& crate::locate::path_view(location@) == trait_spec_view(
                            tspec,
                        ).source->File_location.map_values(|s: crate::parse::GSeg| s.ident)
                    }),
                },
                crate::locate::TraitCode::Raw { .. } => true,
            }
        }),
{
    match tspec.source {
        crate::locate::TraitCode::File { name: _, location } => {
            let g = trait_spec_view(tspec);
            assert(crate::locate::path_view(location@) =~= g.source->File_location.map_values(
                |s: crate::parse::GSeg| s.ident,
            ));
        },
        _ => {},
    }
}

} // verus!
