//! Why a lowering was given up.

use vstd::prelude::*;
use crate::mir::{DefId, SigId};

verus! {

/// The three classes of failure. Each one ends the lowering of the whole
/// program.
#[derive(Copy, Clone, Debug, PartialEq, Eq, Structural)]
pub enum ErrorClass {
    /// The program uses something the lowering does not handle.
    Unsupported,
    /// No layout is known for a type.
    Layout,
    /// The finished module is not valid: a defect of the lowering itself.
    Internal,
}

#[derive(Copy, Clone, Debug, PartialEq, Eq, Structural)]
pub enum ErrorKind {
    UnsupportedStatement,
    UnsupportedTerminator,
    UnsupportedRvalue,
    UnsupportedOperator,
    UnsupportedCast,
    UnsupportedAggregate,
    UnsupportedPlace,
    UnsupportedConstant,
    UnsupportedType,
    UnsupportedCallee,
    UnsupportedLayout,
    LayoutFailure,
    InvalidModule,
}

impl ErrorKind {
    pub open spec fn spec_class(self) -> ErrorClass {
        match self {
            ErrorKind::LayoutFailure => ErrorClass::Layout,
            ErrorKind::InvalidModule => ErrorClass::Internal,
            _ => ErrorClass::Unsupported,
        }
    }

    /// The class this kind of failure belongs to.
    #[verifier::when_used_as_spec(spec_class)]
    pub fn class(self) -> (r: ErrorClass)
        ensures
            r == self.spec_class(),
    {
        match self {
            ErrorKind::LayoutFailure => ErrorClass::Layout,
            ErrorKind::InvalidModule => ErrorClass::Internal,
            _ => ErrorClass::Unsupported,
        }
    }
}

/// A failure, with the function whose lowering met it: the definition and
/// the signature it was being lowered at.
#[derive(Copy, Clone, Debug, PartialEq, Eq, Structural)]
pub struct TransError {
    pub kind: ErrorKind,
    pub did: DefId,
    pub sig: SigId,
}

} // verus!
