//! The broadcast adapter: each operation of the interface is implemented
//! by invoking the same operation on every child of the receiver's owned
//! collection, in collection order, folding per-child results into one
//! aggregate when the operation returns a value.

use vstd::prelude::*;

use crate::errors::{GenError, StructuralError};
use crate::inject_implement::{inject_from, spec_inject, Adapter};
use crate::model::{Declaration, InterfaceItem};
use crate::parse::{gen_error_view, spec_parse_item, unexpected, GFail, GItem};
use crate::render::gbroadcast_text;
use crate::tokens::Tok;

verus! {

/// The broadcast strategy.  It is applicable only to target types owning a
/// homogeneous collection of children implementing the interface, so every
/// operation must take a receiver to iterate over; it needs no further
/// configuration.
#[derive(Debug)]
pub struct DispatchCable {
}

impl DispatchCable {
    /// What broadcasting produces for one item: a broadcast operation for
    /// every operation with a receiver, a failure for an operation
    /// without one, and nothing for any other item.
    pub open spec fn spec_broadcast(self, item: InterfaceItem) -> Result<
        Option<Declaration>,
        StructuralError,
    > {
        match item {
            InterfaceItem::Operation(sig) => if sig.receiver is Absent {
                Err(StructuralError::BroadcastRequiresReceiver)
            } else {
                Ok(Some(Declaration::BroadcastMethod { sig }))
            },
            _ => Ok(None),
        }
    }
}

impl Adapter for DispatchCable {
    open spec fn spec_generate(&self, item: InterfaceItem) -> Result<
        Option<Declaration>,
        StructuralError,
    > {
        self.spec_broadcast(item)
    }

    fn generate(&self, item: InterfaceItem) -> (r: Result<Option<Declaration>, StructuralError>) {
        match item {
            InterfaceItem::Operation(sig) => if matches!(
                sig.receiver,
                crate::model::ReceiverKind::Absent,
            ) {
                Err(StructuralError::BroadcastRequiresReceiver)
            } else {
                Ok(Some(Declaration::BroadcastMethod { sig }))
            },
            _ => Ok(None),
        }
    }
}

/// Broadcasting an interface whose items are all operations with
/// receivers emits exactly one broadcast operation per interface
/// operation, in order, each keeping the operation's whole canonical
/// signature.
pub proof fn lemma_broadcast_operations(a: DispatchCable, items: Seq<InterfaceItem>)
    requires
        forall|i: int| 0 <= i < items.len() ==> (#[trigger] items[i]) is Operation,
        forall|i: int|
            0 <= i < items.len() ==> !((#[trigger] items[i])->Operation_0.receiver is Absent),
    ensures
        spec_inject(a, items) is Ok,
        spec_inject(a, items)->Ok_0.len() == items.len(),
        forall|i: int|
            0 <= i < items.len() ==> {
                let d = #[trigger] spec_inject(a, items)->Ok_0[i];
                &&& d is BroadcastMethod
                &&& d->BroadcastMethod_sig == items[i]->Operation_0
            },
{
    lemma_broadcast_from(a, items, 0);
    assert forall|i: int| 0 <= i < items.len() implies {
        let d = #[trigger] spec_inject(a, items)->Ok_0[i];
            &&& d is BroadcastMethod
            &&& d->BroadcastMethod_sig == items[i]->Operation_0
    } by {
        assert(inject_from(a, items, 0)->Ok_0[i - 0] == spec_inject(a, items)->Ok_0[i]);
    }
}

proof fn lemma_broadcast_from(a: DispatchCable, items: Seq<InterfaceItem>, k: int)
    requires
        0 <= k <= items.len(),
        forall|i: int| 0 <= i < items.len() ==> (#[trigger] items[i]) is Operation,
        forall|i: int|
            0 <= i < items.len() ==> !((#[trigger] items[i])->Operation_0.receiver is Absent),
    ensures
        inject_from(a, items, k) is Ok,
        inject_from(a, items, k)->Ok_0.len() == items.len() - k,
        forall|i: int|
            k <= i < items.len() ==> {
                let d = #[trigger] inject_from(a, items, k)->Ok_0[i - k];
                &&& d is BroadcastMethod
                &&& d->BroadcastMethod_sig == items[i]->Operation_0
            },
    decreases items.len() - k,
{
    if k < items.len() {
        lemma_broadcast_from(a, items, k + 1);
        let item = items[k];
        let sig = item->Operation_0;
        let d = Declaration::BroadcastMethod { sig };
        assert(a.spec_generate(item) == Ok::<Option<Declaration>, StructuralError>(Some(d)));
        let rest = inject_from(a, items, k + 1)->Ok_0;
        assert(inject_from(a, items, k)->Ok_0 == seq![d] + rest);
        assert forall|i: int| k <= i < items.len() implies {
            let dd = #[trigger] inject_from(a, items, k)->Ok_0[i - k];
            &&& dd is BroadcastMethod
            &&& dd->BroadcastMethod_sig == items[i]->Operation_0
        } by {
            assert(inject_from(a, items, k)->Ok_0[i - k] == (seq![d] + rest)[i - k]);
            if i == k {
                assert((seq![d] + rest)[0] == d);
            } else {
                assert(k + 1 <= i < items.len());
                assert((seq![d] + rest)[i - k] == rest[i - k - 1]);
                assert(rest[i - (k + 1)] == rest[i - k - 1]);
            }
        }
    }
}

/// What a broadcast invocation produces for its one item: the text of the
/// broadcast operation, nothing for a non-operation item, or the exact
/// failure.
pub open spec fn spec_dispatch_cable(ts: Seq<Tok>) -> Result<Seq<char>, GFail> {
    match spec_parse_item(ts, 0) {
        Err(e) => Err(GFail::Syntax(e)),
        Ok((item, next)) => if next != ts.len() {
            Err(GFail::Syntax(unexpected(next)))
        } else {
            match item {
                GItem::Operation(sig) => if sig.receiver is Absent {
                    Err(GFail::Structure(StructuralError::BroadcastRequiresReceiver))
                } else {
                    Ok(gbroadcast_text(sig))
                },
                _ => Ok(Seq::empty()),
            }
        },
    }
}

/// Expand one broadcast invocation: parse its one item and render the
/// broadcast operation that invokes it on every child of the receiver's
/// collection.
pub fn dispatch_cable_impl(ts: &Vec<Tok>) -> (r: Result<String, GenError>)
    ensures
        match spec_dispatch_cable(ts@) {
            Ok(text) => r is Ok && r->Ok_0@ == text,
            Err(f) => r is Err && gen_error_view(r->Err_0) == f,
        },
{
    match crate::parse::parse_trait_item(ts, 0) {
        Err(e) => Err(GenError::Syntax(e)),
        Ok((item, next)) => {
            if next != ts.len() {
                return Err(
                    GenError::Syntax(
                        crate::errors::SyntaxError {
                            message: "unexpected token".to_owned(),
                            position: next,
                        },
                    ),
                );
            }
            match item {
                InterfaceItem::Operation(sig) => {
                    if matches!(sig.receiver, crate::model::ReceiverKind::Absent) {
                        Err(GenError::Structure(StructuralError::BroadcastRequiresReceiver))
                    } else {
                        Ok(crate::render::render_broadcast(&sig))
                    }
                },
                _ => Ok(String::new()),
            }
        },
    }
}

} // verus!
