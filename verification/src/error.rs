//! Decode errors.
//!
//! Every structural deviation is fatal to the surrounding decode call and
//! propagates as a typed error; there are no partial trees.  Errors raised
//! while a payload schema is active are enriched with the owning node's
//! kind name, so diagnostics always show which construct failed.

use vstd::prelude::*;
use vstd::string::StringExecFns;
use crate::kind::{AnyKind, Kind};

verus! {

/// A decode failure.
#[derive(Debug)]
pub enum Error {
    /// A field that may appear once appeared again (`id`, `kind`, `offset`,
    /// `inner`, `begin`, `end`, or a declared payload field).
    DuplicateField { field: String },
    /// A required field was absent; `kind` names the owning node's kind when
    /// the payload schema raised this.
    MissingField { field: String, kind: Option<String> },
    /// A field the active schema does not declare; `kind` as above.
    UnknownField { field: String, kind: Option<String> },
    /// The kind string matched no declared variant and no fallback applies.
    UnknownVariant { kind: String },
    /// The wire shape is not what the position called for (a scalar where an
    /// object was expected, a tuple-shaped variant, and the like).
    TypeMismatch { expected: String },
}

/// The mathematical form of an error.
pub enum ErrV {
    DuplicateField { field: Seq<char> },
    MissingField { field: Seq<char>, kind: Option<Seq<char>> },
    UnknownField { field: Seq<char>, kind: Option<Seq<char>> },
    UnknownVariant { kind: Seq<char> },
    TypeMismatch { expected: Seq<char> },
}

impl View for Error {
    type V = ErrV;

    open spec fn view(&self) -> ErrV {
        match self {
            Error::DuplicateField { field } => ErrV::DuplicateField { field: field@ },
            Error::MissingField { field, kind } => ErrV::MissingField {
                field: field@,
                kind: match kind {
                    Some(k) => Some(k@),
                    None => None,
                },
            },
            Error::UnknownField { field, kind } => ErrV::UnknownField {
                field: field@,
                kind: match kind {
                    Some(k) => Some(k@),
                    None => None,
                },
            },
            Error::UnknownVariant { kind } => ErrV::UnknownVariant { kind: kind@ },
            Error::TypeMismatch { expected } => ErrV::TypeMismatch { expected: expected@ },
        }
    }
}

impl Error {
    /// A one-line description, for callers that want to print the failure.
    pub fn describe(&self) -> (r: String) {
        match self {
            Error::DuplicateField { field } => String::from_str("duplicate field `").concat(
                field.as_str(),
            ).concat("`"),
            Error::MissingField { field, kind } => {
                let mut s = String::from_str("missing field `").concat(field.as_str()).concat("`");
                if let Some(k) = kind {
                    s = s.concat(" in ").concat(k.as_str());
                }
                s
            },
            Error::UnknownField { field, kind } => {
                let mut s = String::from_str("unknown field `").concat(field.as_str()).concat("`");
                if let Some(k) = kind {
                    s = s.concat(" in ").concat(k.as_str());
                }
                s
            },
            Error::UnknownVariant { kind } => String::from_str("unknown variant `").concat(
                kind.as_str(),
            ).concat("`"),
            Error::TypeMismatch { expected } => String::from_str("invalid type, expected ").concat(
                expected.as_str(),
            ),
        }
    }
}

/// An error raised while a payload schema is active, before it is annotated
/// with the owning node's kind.
pub enum FieldOfKindError {
    UnknownField { field: String },
    MissingField { field: String },
    Other(Error),
}

/// The annotation `with_kind` performs, at the specification level: unknown
/// and missing fields gain the kind name, unless the node had no kind tag;
/// other errors pass through.
pub open spec fn spec_with_kind(e: FieldOfKindError, tagged: bool, tag: Seq<char>) -> ErrV {
    match e {
        FieldOfKindError::UnknownField { field } => ErrV::UnknownField {
            field: field@,
            kind: if tagged {
                Some(tag)
            } else {
                None
            },
        },
        FieldOfKindError::MissingField { field } => ErrV::MissingField {
            field: field@,
            kind: if tagged {
                Some(tag)
            } else {
                None
            },
        },
        FieldOfKindError::Other(err) => err@,
    }
}

impl FieldOfKindError {
    /// Annotate a payload-phase error with the owning node's kind name.  A
    /// node without a kind tag (the `null` sentinel) adds no annotation.
    pub fn with_kind(self, kind: &AnyKind) -> (r: Error)
        ensures
            r@ == spec_with_kind(self, !(kind matches AnyKind::Kind(Kind::null)), kind@),
    {
        let tagged = !matches!(kind, AnyKind::Kind(Kind::null));
        match self {
            FieldOfKindError::UnknownField { field } => Error::UnknownField {
                field,
                kind: if tagged {
                    Some(String::from_str(kind.as_str()))
                } else {
                    None
                },
            },
            FieldOfKindError::MissingField { field } => Error::MissingField {
                field,
                kind: if tagged {
                    Some(String::from_str(kind.as_str()))
                } else {
                    None
                },
            },
            FieldOfKindError::Other(err) => err,
        }
    }
}

} // verus!
