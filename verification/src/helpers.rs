//! The signature normalizer: classifying receivers and reducing raw
//! operation declarations to canonical `OperationSignature`s.

use vstd::prelude::*;

use crate::model::{OperationSignature, Param, Qualifiers, RawArg, RawOperation, ReceiverKind, ReturnShape};

verus! {

/// Whether a raw argument stands for the receiver: either receiver syntax,
/// or a binding whose identifier is the receiver keyword.
pub open spec fn is_self_spec(arg: RawArg) -> bool {
    match arg {
        RawArg::Receiver(_) => true,
        RawArg::Binding { name, ty: _ } => name@ == "self"@,
    }
}

/// Check if an argument is the receiver.
pub fn is_self(arg: &RawArg) -> (r: bool)
    ensures
        r == is_self_spec(*arg),
{
    match arg {
        RawArg::Receiver(_) => true,
        RawArg::Binding { name, ty: _ } => crate::text::str_is(name, "self"),
    }
}

/// An extracted signature: the qualifiers gathered into canonical order,
/// with the remaining parts of the declaration passed through unchanged.
#[derive(Debug)]
pub struct ExtractedSignature {
    pub modifiers: Qualifiers,
    pub ident: String,
    pub generics: String,
    pub inputs: Vec<RawArg>,
    pub output: ReturnShape,
}

/// Extract a raw operation's signature for easy use: the qualifiers are
/// collected independent of their source order into the fixed canonical
/// order, and everything else is kept verbatim.
pub fn extract_signature(sig: RawOperation) -> (r: ExtractedSignature)
    ensures
        r.modifiers.is_const == sig.is_const,
        r.modifiers.is_async == sig.is_async,
        r.modifiers.is_unsafe == sig.is_unsafe,
        r.modifiers.abi == sig.abi,
        r.ident == sig.name,
        r.generics == sig.generics,
        r.inputs == sig.inputs,
        r.output == sig.output,
{
    ExtractedSignature {
        modifiers: Qualifiers {
            is_const: sig.is_const,
            is_async: sig.is_async,
            is_unsafe: sig.is_unsafe,
            abi: sig.abi,
        },
        ident: sig.name,
        generics: sig.generics,
        inputs: sig.inputs,
        output: sig.output,
    }
}

/// The receiver kind a raw argument list declares: the kind of a leading
/// receiver argument, `ByValue` for a leading binding named by the receiver
/// keyword, and `Absent` otherwise.
pub open spec fn receiver_kind_of(inputs: Seq<RawArg>) -> ReceiverKind {
    if inputs.len() > 0 {
        match inputs[0] {
            RawArg::Receiver(k) => k,
            RawArg::Binding { name, ty: _ } => if name@ == "self"@ {
                ReceiverKind::ByValue
            } else {
                ReceiverKind::Absent
            },
        }
    } else {
        ReceiverKind::Absent
    }
}

/// The arguments left once a leading receiver is removed.
pub open spec fn non_receiver_inputs(inputs: Seq<RawArg>) -> Seq<RawArg> {
    if inputs.len() > 0 && is_self_spec(inputs[0]) {
        inputs.drop_first()
    } else {
        inputs
    }
}

/// A raw argument list is well formed when receiver forms appear only in
/// the leading position, as the surface grammar guarantees.
pub open spec fn inputs_wf(inputs: Seq<RawArg>) -> bool {
    forall|i: int| 1 <= i < inputs.len() ==> !(#[trigger] inputs[i] is Receiver)
}

/// Check that receiver forms appear only in the leading position.
pub fn check_inputs_wf(inputs: &Vec<RawArg>) -> (r: bool)
    ensures
        r == inputs_wf(inputs@),
{
    let mut i: usize = 1;
    while i < inputs.len()
        invariant
            1 <= i,
            forall|j: int| 1 <= j < i ==> !(#[trigger] inputs@[j] is Receiver),
        decreases inputs.len() - i,
    {
        if let RawArg::Receiver(_) = inputs[i] {
            return false;
        }
        i = i + 1;
    }
    true
}

/// The parameter a non-receiver argument declares.
pub open spec fn param_of(arg: RawArg) -> Param {
    Param { name: arg->Binding_name, ty: arg->Binding_ty }
}

/// The canonical parameter list of a raw argument list: every non-receiver
/// argument, in declaration order.
pub open spec fn params_of(inputs: Seq<RawArg>) -> Seq<Param> {
    non_receiver_inputs(inputs).map_values(|a: RawArg| param_of(a))
}

/// Normalize one raw operation declaration into its canonical signature:
/// qualifiers in fixed order, the receiver classified into exactly one
/// `ReceiverKind` and removed from the parameter list, all non-receiver
/// parameters kept with their name and declared type in original order, and
/// the return shape passed through.
pub fn normalize(sig: RawOperation) -> (r: OperationSignature)
    requires
        inputs_wf(sig.inputs@),
    ensures
        r.qualifiers.is_const == sig.is_const,
        r.qualifiers.is_async == sig.is_async,
        r.qualifiers.is_unsafe == sig.is_unsafe,
        r.qualifiers.abi == sig.abi,
        r.receiver == receiver_kind_of(sig.inputs@),
        r.name == sig.name,
        r.generics == sig.generics,
        r.params@ == params_of(sig.inputs@),
        r.ret == sig.output,
{
    let ExtractedSignature { modifiers, ident, generics, inputs, output } = extract_signature(sig);
    let receiver: ReceiverKind = if inputs.len() > 0 {
        match &inputs[0] {
            RawArg::Receiver(k) => *k,
            RawArg::Binding { name, ty: _ } => {
                if crate::text::str_is(name, "self") {
                    ReceiverKind::ByValue
                } else {
                    ReceiverKind::Absent
                }
            },
        }
    } else {
        ReceiverKind::Absent
    };
    let start: usize = if inputs.len() > 0 && is_self(&inputs[0]) { 1 } else { 0 };
    let mut params: Vec<Param> = Vec::new();
    let mut i: usize = start;
    while i < inputs.len()
        invariant
            start <= i <= inputs.len(),
            inputs_wf(inputs@),
            start == if inputs@.len() > 0 && is_self_spec(inputs@[0]) { 1int } else { 0int },
            params@ =~= inputs@.subrange(start as int, i as int).map_values(|a: RawArg| param_of(a)),
        decreases inputs.len() - i,
    {
        match &inputs[i] {
            RawArg::Binding { name, ty } => {
                params.push(Param { name: name.clone(), ty: ty.clone() });
            },
            RawArg::Receiver(_) => {
                proof {
                    assert(false);
                }
            },
        }
        proof {
            assert(inputs@.subrange(start as int, i + 1int) =~= inputs@.subrange(
                start as int,
                i as int,
            ).push(inputs@[i as int]));
        }
        i = i + 1;
    }
    proof {
        assert(inputs@.subrange(start as int, inputs@.len() as int) =~= non_receiver_inputs(
            inputs@,
        ));
    }
    OperationSignature {
        qualifiers: modifiers,
        receiver,
        name: ident,
        generics,
        params,
        ret: output,
    }
}

} // verus!
