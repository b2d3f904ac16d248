use vstd::prelude::*;

use crate::ast::ParseError;

verus! {

/// A compilation failure: the flat error taxonomy of the whole pipeline.
/// The first error aborts the compilation; nothing is retried.
#[derive(Debug)]
pub enum CompileError {
    /// The class-file library rejected an operation (in practice: a full
    /// constant pool, or a description its verifier refuses).
    Ristretto(ristretto_classfile::Error),
    /// A structural parse failure.
    Parse(ParseError),
    /// A name was expected to denote a class known to the catalog.
    UnknownClass(String),
    /// The scoped class has no method of this name.
    UnknownMethod { class_name: String, method: String },
    /// The scoped class has no field of this name.
    UnknownField { class_name: String, field: String },
    /// A bare name is neither a local variable nor any known class.
    ResolutionFailure,
    /// A second method of the same name was registered: overloading is
    /// unsupported.
    DuplicateMethod { method: String },
    /// A method body declares more local variables than a slot index can
    /// address.
    TooManyVariables,
    /// A declared variable carries no initialising expression; emission has
    /// no value to store.
    UninitialisedVariable { name: String },
    /// An expression kind that reaches emission only through constructs the
    /// compiler does not support.
    UnsupportedExpression,
}

/// The mathematical shape of a `CompileError`. A library error is opaque:
/// only its occurrence is modelled.
#[verifier::ext_equal]
pub enum CompileErrorV {
    Ristretto,
    Parse(ParseError),
    UnknownClass(Seq<char>),
    UnknownMethod { class_name: Seq<char>, method: Seq<char> },
    UnknownField { class_name: Seq<char>, field: Seq<char> },
    ResolutionFailure,
    DuplicateMethod { method: Seq<char> },
    TooManyVariables,
    UninitialisedVariable { name: Seq<char> },
    UnsupportedExpression,
}

impl View for CompileError {
    type V = CompileErrorV;

    open spec fn view(&self) -> CompileErrorV {
        match self {
            CompileError::Ristretto(_) => CompileErrorV::Ristretto,
            CompileError::Parse(e) => CompileErrorV::Parse(*e),
            CompileError::UnknownClass(n) => CompileErrorV::UnknownClass(n@),
            CompileError::UnknownMethod { class_name, method } => CompileErrorV::UnknownMethod {
                class_name: class_name@,
                method: method@,
            },
            CompileError::UnknownField { class_name, field } => CompileErrorV::UnknownField {
                class_name: class_name@,
                field: field@,
            },
            CompileError::ResolutionFailure => CompileErrorV::ResolutionFailure,
            CompileError::DuplicateMethod { method } => CompileErrorV::DuplicateMethod {
                method: method@,
            },
            CompileError::TooManyVariables => CompileErrorV::TooManyVariables,
            CompileError::UninitialisedVariable { name } => CompileErrorV::UninitialisedVariable {
                name: name@,
            },
            CompileError::UnsupportedExpression => CompileErrorV::UnsupportedExpression,
        }
    }
}

pub type CompileResult<T> = Result<T, CompileError>;

pub type EmptyCompileResult = CompileResult<()>;

/// Lifts a class-file library result into the compiler's error taxonomy.
pub fn wrap<T>(result: Result<T, ristretto_classfile::Error>) -> (r: CompileResult<T>)
    ensures
        match result {
            Ok(v) => r is Ok && r.unwrap() == v,
            Err(_) => r is Err && r->Err_0@ == CompileErrorV::Ristretto,
        },
{
    match result {
        Ok(v) => Ok(v),
        Err(e) => Err(CompileError::Ristretto(e)),
    }
}

} // verus!
