//! The member-forward adapter: each operation becomes a delegating
//! operation calling a named subordinate field of the receiver, or a named
//! peer type when the operation has no receiver.  Associated types and
//! constants are forwarded only on request.

use vstd::prelude::*;

use crate::errors::{GenError, StructuralError, SyntaxError};
use crate::inject_implement::{inject_from, spec_inject, Adapter};
use crate::model::{CallTarget, Declaration, InterfaceItem};
use crate::parse::{
    gen_error_view, gpath_text, is_kw, is_punct, item_view, lemma_path_text_view,
    spec_parse_item, spec_parse_path, unexpected, GErr, GFail, GItem,
};
use crate::render::{const_forward_text, gmethod_text, type_alias_text, GTarget};
use crate::tokens::Tok;

verus! {

/// The member-forward strategy's configuration: the subordinate field to
/// delegate to, an optional peer type for static matters, and whether
/// associated types and constants are forwarded from that peer.
#[derive(Debug)]
pub struct MemberForward {
    pub member: String,
    pub typename: Option<String>,
    pub fwd_type: bool,
    pub fwd_const: bool,
}

impl MemberForward {
    /// What member forwarding produces for one item: a delegating
    /// operation through the subordinate field (instance receiver) or the
    /// peer type (no receiver; failing without one); a forwarded
    /// associated type or constant when enabled, and nothing when not.
    pub open spec fn spec_forward(self, item: InterfaceItem) -> Result<
        Option<Declaration>,
        StructuralError,
    > {
        match item {
            InterfaceItem::Operation(sig) => if !(sig.receiver is Absent) {
                Ok(
                    Some(
                        Declaration::Method { sig, target: CallTarget::SubField(self.member) },
                    ),
                )
            } else {
                match self.typename {
                    Some(t) => Ok(
                        Some(Declaration::Method { sig, target: CallTarget::PeerType(t) }),
                    ),
                    None => Err(StructuralError::NoDispatchTarget),
                }
            },
            InterfaceItem::AssociatedType { name, generics } => if self.fwd_type {
                match self.typename {
                    Some(t) => Ok(Some(Declaration::TypeAlias { name, generics, source: t })),
                    None => Err(StructuralError::MissingPeerType),
                }
            } else {
                Ok(None)
            },
            InterfaceItem::AssociatedConstant { name, ty } => if self.fwd_const {
                match self.typename {
                    Some(t) => Ok(Some(Declaration::ConstForward { name, ty, source: t })),
                    None => Err(StructuralError::MissingPeerType),
                }
            } else {
                Ok(None)
            },
            InterfaceItem::Unsupported => Err(StructuralError::UnsupportedItemKind),
        }
    }
}

impl Adapter for MemberForward {
    open spec fn spec_generate(&self, item: InterfaceItem) -> Result<
        Option<Declaration>,
        StructuralError,
    > {
        self.spec_forward(item)
    }

    fn generate(&self, item: InterfaceItem) -> (r: Result<Option<Declaration>, StructuralError>) {
        match item {
            InterfaceItem::Operation(sig) => if !matches!(
                sig.receiver,
                crate::model::ReceiverKind::Absent,
            ) {
                Ok(
                    Some(
                        Declaration::Method {
                            sig,
                            target: CallTarget::SubField(self.member.clone()),
                        },
                    ),
                )
            } else {
                match &self.typename {
                    Some(t) => Ok(
                        Some(Declaration::Method { sig, target: CallTarget::PeerType(t.clone()) }),
                    ),
                    None => Err(StructuralError::NoDispatchTarget),
                }
            },
            InterfaceItem::AssociatedType { name, generics } => if self.fwd_type {
                match &self.typename {
                    Some(t) => Ok(
                        Some(Declaration::TypeAlias { name, generics, source: t.clone() }),
                    ),
                    None => Err(StructuralError::MissingPeerType),
                }
            } else {
                Ok(None)
            },
            InterfaceItem::AssociatedConstant { name, ty } => if self.fwd_const {
                match &self.typename {
                    Some(t) => Ok(
                        Some(Declaration::ConstForward { name, ty, source: t.clone() }),
                    ),
                    None => Err(StructuralError::MissingPeerType),
                }
            } else {
                Ok(None)
            },
            InterfaceItem::Unsupported => Err(StructuralError::UnsupportedItemKind),
        }
    }
}

/// Member forwarding of an interface whose items are all operations, each
/// with a dispatch target available, emits exactly one delegating
/// operation per interface operation, in order; each keeps the operation's
/// whole canonical signature, so its body forwards all non-receiver
/// parameters positionally, unmodified and in order, to the subordinate
/// field (instance operations) or the peer type (static operations).
pub proof fn lemma_member_forward_operations(a: MemberForward, items: Seq<InterfaceItem>)
    requires
        forall|i: int| 0 <= i < items.len() ==> (#[trigger] items[i]) is Operation,
        forall|i: int|
            0 <= i < items.len() && (#[trigger] items[i])->Operation_0.receiver is Absent
                ==> a.typename is Some,
    ensures
        spec_inject(a, items) is Ok,
        spec_inject(a, items)->Ok_0.len() == items.len(),
        forall|i: int|
            0 <= i < items.len() ==> {
                let d = #[trigger] spec_inject(a, items)->Ok_0[i];
                &&& d is Method
                &&& d->Method_sig == items[i]->Operation_0
                &&& d->Method_target == (if items[i]->Operation_0.receiver is Absent {
                    CallTarget::PeerType(a.typename->0)
                } else {
                    CallTarget::SubField(a.member)
                })
            },
{
    lemma_member_forward_from(a, items, 0);
    assert forall|i: int| 0 <= i < items.len() implies {
        let d = #[trigger] spec_inject(a, items)->Ok_0[i];
            &&& d is Method
            &&& d->Method_sig == items[i]->Operation_0
            &&& d->Method_target == (if items[i]->Operation_0.receiver is Absent {
                CallTarget::PeerType(a.typename->0)
            } else {
                CallTarget::SubField(a.member)
            })
    } by {
        assert(inject_from(a, items, 0)->Ok_0[i - 0] == spec_inject(a, items)->Ok_0[i]);
    }
}

proof fn lemma_member_forward_from(a: MemberForward, items: Seq<InterfaceItem>, k: int)
    requires
        0 <= k <= items.len(),
        forall|i: int| 0 <= i < items.len() ==> (#[trigger] items[i]) is Operation,
        forall|i: int|
            0 <= i < items.len() && (#[trigger] items[i])->Operation_0.receiver is Absent
                ==> a.typename is Some,
    ensures
        inject_from(a, items, k) is Ok,
        inject_from(a, items, k)->Ok_0.len() == items.len() - k,
        forall|i: int|
            k <= i < items.len() ==> {
                let d = #[trigger] inject_from(a, items, k)->Ok_0[i - k];
                &&& d is Method
                &&& d->Method_sig == items[i]->Operation_0
                &&& d->Method_target == (if items[i]->Operation_0.receiver is Absent {
                    CallTarget::PeerType(a.typename->0)
                } else {
                    CallTarget::SubField(a.member)
                })
            },
    decreases items.len() - k,
{
    if k < items.len() {
        lemma_member_forward_from(a, items, k + 1);
        let item = items[k];
        let sig = item->Operation_0;
        let d = if sig.receiver is Absent {
            Declaration::Method { sig, target: CallTarget::PeerType(a.typename->0) }
        } else {
            Declaration::Method { sig, target: CallTarget::SubField(a.member) }
        };
        assert(a.spec_generate(item) == Ok::<Option<Declaration>, StructuralError>(Some(d)));
        let rest = inject_from(a, items, k + 1)->Ok_0;
        assert(inject_from(a, items, k)->Ok_0 == seq![d] + rest);
        assert forall|i: int| k <= i < items.len() implies {
            let dd = #[trigger] inject_from(a, items, k)->Ok_0[i - k];
            &&& dd is Method
            &&& dd->Method_sig == items[i]->Operation_0
            &&& dd->Method_target == (if items[i]->Operation_0.receiver is Absent {
                CallTarget::PeerType(a.typename->0)
            } else {
                CallTarget::SubField(a.member)
            })
        } by {
            assert(inject_from(a, items, k)->Ok_0[i - k] == (seq![d] + rest)[i - k]);
            if i == k {
                assert((seq![d] + rest)[0] == d);
            } else {
                assert(k + 1 <= i < items.len());
                assert((seq![d] + rest)[i - k] == rest[i - k - 1]);
                assert(rest[i - (k + 1)] == rest[i - k - 1]);
            }
        }
    }
}

/// The parsed arguments of a member-forward invocation at specification
/// level.
pub struct GForwardArgs {
    pub member: Seq<char>,
    pub typename: Option<Seq<char>>,
    pub fwd_type: bool,
    pub fwd_const: bool,
    pub item: GItem,
}

/// The flag section of a member-forward invocation: any sequence of the
/// forwarding markers, ended by the separator.
pub open spec fn spec_parse_flags(ts: Seq<Tok>, pos: int, ft: bool, fc: bool) -> Result<
    (bool, bool, int),
    GErr,
>
    decreases ts.len() - pos,
{
    if pos < 0 || pos >= ts.len() {
        Err(GErr { msg: "expect `type`, `const` or `;`"@, pos })
    } else if is_punct(ts[pos], ';') {
        Ok((ft, fc, pos + 1))
    } else if is_kw(ts[pos], "type"@) {
        spec_parse_flags(ts, pos + 1, true, fc)
    } else if is_kw(ts[pos], "const"@) {
        spec_parse_flags(ts, pos + 1, ft, true)
    } else {
        Err(GErr { msg: "expect `type`, `const` or `;`"@, pos })
    }
}

/// A member-forward invocation: the subordinate member, an optional peer
/// type written as a dotted path, forwarding markers, the separator, and
/// exactly one interface item.
pub open spec fn spec_parse_forward_args(ts: Seq<Tok>) -> Result<GForwardArgs, GErr> {
    if !(0 < ts.len() && ts[0] is Ident) {
        Err(unexpected(0))
    } else {
        let member = ts[0]->Ident_0@;
        if 1 < ts.len() && is_punct(ts[1], ':') {
            match spec_parse_path(ts, 2, Seq::empty()) {
                None => Err(unexpected(2)),
                Some(pr) => spec_parse_forward_tail(ts, member, Some(gpath_text(pr.0)), pr.1),
            }
        } else {
            spec_parse_forward_tail(ts, member, None, 1)
        }
    }
}

/// The tail of a member-forward invocation after the member and optional
/// peer type: flags, separator, and the one item, which must end the
/// stream.
pub open spec fn spec_parse_forward_tail(
    ts: Seq<Tok>,
    member: Seq<char>,
    typename: Option<Seq<char>>,
    pos: int,
) -> Result<GForwardArgs, GErr> {
    match spec_parse_flags(ts, pos, false, false) {
        Err(e) => Err(e),
        Ok((ft, fc, q)) => match spec_parse_item(ts, q) {
            Err(e) => Err(e),
            Ok((item, next)) => if next == ts.len() {
                Ok(GForwardArgs { member, typename, fwd_type: ft, fwd_const: fc, item })
            } else {
                Err(unexpected(next))
            },
        },
    }
}

/// The parsed arguments of a member-forward invocation.
#[derive(Debug)]
pub struct ForwardSubArgs {
    pub member: String,
    pub typename: Option<String>,
    pub fwd_type: bool,
    pub fwd_const: bool,
    pub item: InterfaceItem,
}

impl ForwardSubArgs {
    /// The view of the parsed arguments.
    pub open spec fn view_spec(self) -> GForwardArgs {
        GForwardArgs {
            member: self.member@,
            typename: match self.typename {
                Some(t) => Some(t@),
                None => None,
            },
            fwd_type: self.fwd_type,
            fwd_const: self.fwd_const,
            item: item_view(self.item),
        }
    }

    /// Parse a member-forward invocation.
    #[verifier::loop_isolation(false)]
    pub fn parse(ts: &Vec<Tok>) -> (r: Result<ForwardSubArgs, SyntaxError>)
        ensures
            match spec_parse_forward_args(ts@) {
                Ok(ga) => r is Ok && (r->Ok_0).view_spec() == ga,
                Err(e) => r is Err && r->Err_0.message@ == e.msg && r->Err_0.position == e.pos,
            },
    {
        let len: usize = ts.len();
        if !(0 < len && matches!(&ts[0], Tok::Ident(_))) {
            return Err(SyntaxError { message: "unexpected token".to_owned(), position: 0 });
        }
        let member: String = match &ts[0] {
            Tok::Ident(s) => s.clone(),
            _ => String::new(),
        };
        let typename: Option<String>;
        let start: usize;
        if crate::parse::punct_at(ts, 1, ':') {
            match crate::parse::parse_path(ts, 2) {
                None => {
                    return Err(
                        SyntaxError { message: "unexpected token".to_owned(), position: 2 },
                    );
                },
                Some((segs, e)) => {
                    let text = crate::render::render_path(&segs);
                    proof {
                        lemma_path_text_view(segs@);
                    }
                    typename = Some(text);
                    start = e;
                },
            }
        } else {
            typename = None;
            start = 1;
        }
        let mut pos: usize = start;
        let mut fwd_type: bool = false;
        let mut fwd_const: bool = false;
        loop
            invariant
                start <= pos <= ts@.len(),
                spec_parse_flags(ts@, pos as int, fwd_type, fwd_const) == spec_parse_flags(
                    ts@,
                    start as int,
                    false,
                    false,
                ),
            decreases ts@.len() - pos,
        {
            if pos >= ts.len() {
                return Err(
                    SyntaxError {
                        message: "expect `type`, `const` or `;`".to_owned(),
                        position: pos,
                    },
                );
            }
            if crate::parse::punct_at(ts, pos, ';') {
                break;
            } else if crate::parse::tok_is_kw(&ts[pos], "type") {
                fwd_type = true;
                pos = pos + 1;
            } else if crate::parse::tok_is_kw(&ts[pos], "const") {
                fwd_const = true;
                pos = pos + 1;
            } else {
                return Err(
                    SyntaxError {
                        message: "expect `type`, `const` or `;`".to_owned(),
                        position: pos,
                    },
                );
            }
        }
        proof {
            assert(spec_parse_flags(ts@, start as int, false, false) == Ok::<
                (bool, bool, int),
                GErr,
            >((fwd_type, fwd_const, pos + 1)));
        }
        let item_start: usize = pos + 1;
        match crate::parse::parse_trait_item(ts, item_start) {
            Err(e) => Err(e),
            Ok((item, next)) => {
                if next != ts.len() {
                    return Err(
                        SyntaxError { message: "unexpected token".to_owned(), position: next },
                    );
                }
                Ok(ForwardSubArgs { member, typename, fwd_type, fwd_const, item })
            },
        }
    }
}

/// What a member-forward invocation produces: the text of the one
/// generated declaration (empty when the item is omitted), or the exact
/// failure.
pub open spec fn spec_forward_sub(ts: Seq<Tok>) -> Result<Seq<char>, GFail> {
    match spec_parse_forward_args(ts) {
        Err(e) => Err(GFail::Syntax(e)),
        Ok(a) => if a.typename is None && (a.fwd_type || a.fwd_const) {
            Err(GFail::Structure(StructuralError::MissingPeerType))
        } else {
            match a.item {
                GItem::Operation(sig) => if !(sig.receiver is Absent) {
                    Ok(gmethod_text(sig, GTarget::SubField(a.member)))
                } else {
                    match a.typename {
                        Some(t) => Ok(gmethod_text(sig, GTarget::PeerType(t))),
                        None => Err(GFail::Structure(StructuralError::NoDispatchTarget)),
                    }
                },
                GItem::AssociatedType { name, generics } => if a.fwd_type {
                    Ok(type_alias_text(name, generics, a.typename->0))
                } else {
                    Ok(Seq::empty())
                },
                GItem::AssociatedConstant { name, ty } => if a.fwd_const {
                    Ok(const_forward_text(name, ty, a.typename->0))
                } else {
                    Ok(Seq::empty())
                },
                GItem::Unsupported => Err(
                    GFail::Structure(StructuralError::UnsupportedItemKind),
                ),
            }
        },
    }
}

/// Expand one member-forward invocation: parse its arguments, apply the
/// member-forward adapter to the one item, and render the declaration.
pub fn forward_sub_impl(ts: &Vec<Tok>) -> (r: Result<String, GenError>)
    ensures
        match spec_forward_sub(ts@) {
            Ok(text) => r is Ok && r->Ok_0@ == text,
            Err(f) => r is Err && gen_error_view(r->Err_0) == f,
        },
{
    let args = match ForwardSubArgs::parse(ts) {
        Ok(a) => a,
        Err(e) => {
            return Err(GenError::Syntax(e));
        },
    };
    let ForwardSubArgs { member, typename, fwd_type, fwd_const, item } = args;
    if matches!(typename, None) && (fwd_type || fwd_const) {
        return Err(GenError::Structure(StructuralError::MissingPeerType));
    }
    let adapter = MemberForward { member, typename, fwd_type, fwd_const };
    match adapter.generate(item) {
        Err(e) => Err(GenError::Structure(e)),
        Ok(None) => Ok(String::new()),
        Ok(Some(d)) => Ok(crate::render::render_decl(&d)),
    }
}

} // verus!
