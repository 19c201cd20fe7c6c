//! The data model shared by every generation strategy: receiver kinds,
//! canonical operation signatures, and interface items.

use vstd::prelude::*;

verus! {

/// How an operation receives its object.  The kind fully determines whether
/// a generated call site is instance-style (`target.op(...)`) or
/// static-style (`Type::op(...)`).
#[derive(Clone, Copy, PartialEq, Eq, Structural, Debug)]
pub enum ReceiverKind {
    /// No receiver: the operation is static.
    Absent,
    /// `self`, or a named binding whose identifier is the receiver keyword.
    ByValue,
    /// `&self`.
    ByRef,
    /// `&mut self`.
    ByMutRef,
}

/// The modifiers of an operation, re-emitted in this fixed canonical order:
/// `const`, `async`, `unsafe`, `extern "<abi>"`.
#[derive(Debug)]
pub struct Qualifiers {
    pub is_const: bool,
    pub is_async: bool,
    pub is_unsafe: bool,
    /// `Some(name)` when an `extern` qualifier is written; a missing ABI
    /// literal is carried as the empty name.
    pub abi: Option<String>,
}

/// One non-receiver parameter: its binding name and its declared type, both
/// in rendered source form.
#[derive(Debug)]
pub struct Param {
    pub name: String,
    pub ty: String,
}

/// The return shape of an operation: nothing written, or a written type in
/// rendered source form.
#[derive(Debug)]
pub enum ReturnShape {
    Void,
    Typed(String),
}

/// One argument of a raw operation declaration, before normalization.
#[derive(Debug)]
pub enum RawArg {
    /// A receiver written in receiver syntax (`self`, `&self`, `&mut self`).
    Receiver(ReceiverKind),
    /// An ordinary `name: Type` binding.  The name may still be the receiver
    /// keyword, as in a typed receiver binding.
    Binding { name: String, ty: String },
}

/// A raw operation declaration as written inside an interface, with its
/// qualifiers still in source order and its receiver still among the
/// arguments.
#[derive(Debug)]
pub struct RawOperation {
    pub is_const: bool,
    pub is_async: bool,
    pub is_unsafe: bool,
    pub abi: Option<String>,
    pub name: String,
    /// The generic parameter list in rendered source form, empty when none
    /// is written.
    pub generics: String,
    pub inputs: Vec<RawArg>,
    pub output: ReturnShape,
}

/// A canonical operation signature: qualifiers in fixed order, the receiver
/// classified and removed from the parameter list, all non-receiver
/// parameters in declaration order, and the return shape.
#[derive(Debug)]
pub struct OperationSignature {
    pub qualifiers: Qualifiers,
    pub receiver: ReceiverKind,
    pub name: String,
    pub generics: String,
    pub params: Vec<Param>,
    pub ret: ReturnShape,
}

/// One segment of a dotted path: its identifier and, where the source wrote
/// one, its angle-bracketed argument list in rendered form (empty when
/// absent).  Path resolution compares identifiers only.
#[derive(Debug)]
pub struct PathSeg {
    pub ident: String,
    pub args: String,
}

/// One item of an interface.  Order within an interface is significant and
/// preserved verbatim from the source declaration.
#[derive(Debug)]
pub enum InterfaceItem {
    Operation(OperationSignature),
    AssociatedType { name: String, generics: String },
    AssociatedConstant { name: String, ty: String },
    /// A nested macro-style item, not reducible to an operation, type or
    /// constant; generation rejects it rather than silently skipping it.
    Unsupported,
}

/// Where a delegating operation sends its call: a subordinate field of the
/// receiver (instance style), or a named peer type (static style).
#[derive(Debug)]
pub enum CallTarget {
    SubField(String),
    PeerType(String),
}

/// One declaration of a generated implementation block.
#[derive(Debug)]
pub enum Declaration {
    /// A delegating operation: its canonical signature, and the target its
    /// body calls with all non-receiver parameters in order.
    Method { sig: OperationSignature, target: CallTarget },
    /// A broadcast operation: its body invokes the same operation on every
    /// child of the receiver's collection, folding results when the return
    /// shape is not void.
    BroadcastMethod { sig: OperationSignature },
    /// A forwarded associated type: `type name generics = source::name generics;`.
    TypeAlias { name: String, generics: String, source: String },
    /// A forwarded associated constant: `const name: ty = source::name;`.
    ConstForward { name: String, ty: String, source: String },
}

} // verus!
