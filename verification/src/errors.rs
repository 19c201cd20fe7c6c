//! The failure taxonomy of generation: grammar failures, resolution
//! failures, and structural failures.  Every failure aborts the invocation
//! that raised it; nothing is retried and no partial output is emitted.

use vstd::prelude::*;

verus! {

/// A malformed invocation at any entry point, with the index of the token
/// at fault.
#[derive(Debug)]
pub struct SyntaxError {
    pub message: String,
    pub position: usize,
}

/// A failure to locate an interface inside its definition source.
#[derive(Clone, Copy, PartialEq, Eq, Structural, Debug)]
pub enum ResolutionError {
    /// The definition source could not be read or parsed.
    DefinitionSourceUnreadable,
    /// An intermediate path segment matched no nested scope.
    ScopeNotFound,
    /// The final path segment matched no interface in the scope reached.
    InterfaceNotFound,
    /// A zero-length scope path was supplied.
    EmptyPath,
}

/// A structural failure detected after a successful parse, during semantic
/// processing of the interface items.
#[derive(Clone, Copy, PartialEq, Eq, Structural, Debug)]
pub enum StructuralError {
    /// A nested macro-style item not reducible to an operation, associated
    /// type or associated constant.
    UnsupportedItemKind,
    /// An operation without a receiver was to be forwarded, but no peer
    /// type is available to call it on.
    NoDispatchTarget,
    /// Forwarding of associated types or constants was requested without
    /// naming the peer type that provides them.
    MissingPeerType,
    /// A broadcast operation without a receiver: there is no collection to
    /// iterate over.
    BroadcastRequiresReceiver,
    /// Two distinct operation names canonicalize to the same variant name.
    VariantNameCollision,
}

/// Any failure a generation entry point can report.
#[derive(Debug)]
pub enum GenError {
    Syntax(SyntaxError),
    Resolution(ResolutionError),
    Structure(StructuralError),
}

impl StructuralError {
    /// The diagnostic text of this failure.
    pub open spec fn message_spec(self) -> Seq<char> {
        match self {
            StructuralError::UnsupportedItemKind => "macros in trait declaration are not currently supported"@,
            StructuralError::NoDispatchTarget => "Don't know how to call the method since neither self nor the typename is given"@,
            StructuralError::MissingPeerType => "Can't forward types and constants without a type name"@,
            StructuralError::BroadcastRequiresReceiver => "Cable methods must be object method to iterate over the clients"@,
            StructuralError::VariantNameCollision => "two operation names canonicalize to the same variant name"@,
        }
    }

    /// The diagnostic text of this failure.
    pub fn message(&self) -> (r: String)
        ensures
            r@ == self.message_spec(),
    {
        match self {
            StructuralError::UnsupportedItemKind => "macros in trait declaration are not currently supported".to_owned(),
            StructuralError::NoDispatchTarget => "Don't know how to call the method since neither self nor the typename is given".to_owned(),
            StructuralError::MissingPeerType => "Can't forward types and constants without a type name".to_owned(),
            StructuralError::BroadcastRequiresReceiver => "Cable methods must be object method to iterate over the clients".to_owned(),
            StructuralError::VariantNameCollision => "two operation names canonicalize to the same variant name".to_owned(),
        }
    }
}

impl ResolutionError {
    /// The diagnostic text of this failure.
    pub open spec fn message_spec(self) -> Seq<char> {
        match self {
            ResolutionError::DefinitionSourceUnreadable => "failed when parsing the trait source"@,
            ResolutionError::ScopeNotFound => "expected the trait name"@,
            ResolutionError::InterfaceNotFound => "not found the trait with the given path"@,
            ResolutionError::EmptyPath => "expected the trait name"@,
        }
    }

    /// The diagnostic text of this failure.
    pub fn message(&self) -> (r: String)
        ensures
            r@ == self.message_spec(),
    {
        match self {
            ResolutionError::DefinitionSourceUnreadable => "failed when parsing the trait source".to_owned(),
            ResolutionError::ScopeNotFound => "expected the trait name".to_owned(),
            ResolutionError::InterfaceNotFound => "not found the trait with the given path".to_owned(),
            ResolutionError::EmptyPath => "expected the trait name".to_owned(),
        }
    }
}

impl GenError {
    /// The diagnostic text of this failure.
    pub open spec fn message_spec(self) -> Seq<char> {
        match self {
            GenError::Syntax(e) => e.message@,
            GenError::Resolution(e) => e.message_spec(),
            GenError::Structure(e) => e.message_spec(),
        }
    }

    /// The diagnostic text of this failure.
    pub fn message(&self) -> (r: String)
        ensures
            r@ == self.message_spec(),
    {
        match self {
            GenError::Syntax(e) => e.message.clone(),
            GenError::Resolution(e) => e.message(),
            GenError::Structure(e) => e.message(),
        }
    }
}

} // verus!
