//! The error taxonomy shared by every component: bridge conversion
//! failures, registry and scenario lookups, setup-time duplicates, and
//! failures surfaced by the outside collaborators (signing, file access,
//! the engine itself).

use vstd::prelude::*;

verus! {

/// The surface kind of a value or of an expected shape, as reported by a
/// conversion failure. A handle kind carries the handle's tag, so that a
/// mismatch between two differently tagged handles is its own kind of
/// mismatch.
#[derive(Clone, Debug, PartialEq)]
pub enum ValueKind {
    Nil,
    Boolean,
    Number,
    Str,
    Table,
    Function,
    Handle(String),
}

/// Every failure the library reports.
///
/// * `TypeMismatch`, `Range` and `Shape` are bridge conversion failures:
///   recoverable, and raised before anything is mutated.
/// * `NotFound` is a missing capability or scenario.
/// * `DuplicateCapability` is a setup-time failure of the registry.
/// * `Crypto` wraps a failure of the signing collaborator.
/// * `Io` wraps a file-access failure during scenario resolution.
/// * `Script` preserves an engine-level diagnostic verbatim.
#[derive(Clone, Debug, PartialEq)]
pub enum Error {
    /// A value had a different shape than the requested one.
    TypeMismatch { expected: ValueKind, found: ValueKind },
    /// A numeric value does not fit the requested width.
    Range,
    /// A value's layout does not match the requested shape: a sequence
    /// read from a table with index gaps, a value with no source form,
    /// or text that is not the encoding it claims to be.
    Shape,
    /// No capability or scenario is known under this name.
    NotFound(String),
    /// A capability was registered twice under this name.
    DuplicateCapability(String),
    /// The signing collaborator failed; its diagnostic is kept.
    Crypto(String),
    /// Reading a scenario's file failed; the diagnostic is kept.
    Io(String),
    /// The engine reported a syntax or runtime failure; its message is
    /// kept verbatim.
    Script(String),
}

/// The mathematical mirror of a [`ValueKind`].
pub enum ValueKindView {
    Nil,
    Boolean,
    Number,
    Str,
    Table,
    Function,
    Handle(Seq<char>),
}

impl Error {
    /// True of the three conversion failures: raised host-side, before
    /// anything is mutated, and never by the engine.
    pub open spec fn is_conversion(&self) -> bool {
        match self {
            Error::TypeMismatch { .. } => true,
            Error::Range => true,
            Error::Shape => true,
            _ => false,
        }
    }
}

impl View for ValueKind {
    type V = ValueKindView;

    open spec fn view(&self) -> ValueKindView {
        match self {
            ValueKind::Nil => ValueKindView::Nil,
            ValueKind::Boolean => ValueKindView::Boolean,
            ValueKind::Number => ValueKindView::Number,
            ValueKind::Str => ValueKindView::Str,
            ValueKind::Table => ValueKindView::Table,
            ValueKind::Function => ValueKindView::Function,
            ValueKind::Handle(tag) => ValueKindView::Handle(tag@),
        }
    }
}

/// The mathematical mirror of an [`Error`].
pub enum ErrorView {
    TypeMismatch { expected: ValueKindView, found: ValueKindView },
    Range,
    Shape,
    NotFound(Seq<char>),
    DuplicateCapability(Seq<char>),
    Crypto(Seq<char>),
    Io(Seq<char>),
    Script(Seq<char>),
}

impl View for Error {
    type V = ErrorView;

    open spec fn view(&self) -> ErrorView {
        match self {
            Error::TypeMismatch { expected, found } => ErrorView::TypeMismatch {
                expected: expected@,
                found: found@,
            },
            Error::Range => ErrorView::Range,
            Error::Shape => ErrorView::Shape,
            Error::NotFound(n) => ErrorView::NotFound(n@),
            Error::DuplicateCapability(n) => ErrorView::DuplicateCapability(n@),
            Error::Crypto(m) => ErrorView::Crypto(m@),
            Error::Io(m) => ErrorView::Io(m@),
            Error::Script(m) => ErrorView::Script(m@),
        }
    }
}

} // verus!
