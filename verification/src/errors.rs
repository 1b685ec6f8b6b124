//! Typed error taxonomy of the domain, with the human-readable message of
//! each variant.

use vstd::prelude::*;
use crate::text::{owned, push_str, push_decimal, decimal};

verus! {

/// All errors that can originate inside the domain layer.
#[derive(Debug, Clone, PartialEq, Eq)]
pub enum DomainError {
    /// The selection range is empty or inverted.
    EmptySelectionRange,
    /// A file path that cannot be used.
    InvalidFilePath(String),
    /// A function name that is not a legal Rust identifier.
    InvalidFunctionName(String),
    /// A lifetime parameter that does not start with `'`.
    InvalidLifetimeParameter(String),
    /// The selection is not a complete statement list.
    IncompleteStatementList,
    /// The selection spans several functions.
    MultipleEnclosingFunctions,
    /// The selection holds an unsupported construct.
    UnsupportedConstruct(String),
}

/// Structured reasons why an extraction attempt failed.
#[derive(Debug, Clone)]
pub enum ExtractionFailure {
    PreFlight(String),
    LifetimeRepairExhausted { iterations: u32, last_error: String },
    ControlFlowReificationFailed(String),
    AnalysisFailed(String),
    CargoCheckFailed(String),
}

/// The message text of a domain error.
pub open spec fn domain_error_text(e: DomainError) -> Seq<char> {
    match e {
        DomainError::EmptySelectionRange => "selection range is empty or inverted"@,
        DomainError::InvalidFilePath(s) => "invalid file path: `"@ + s@ + "`"@,
        DomainError::InvalidFunctionName(s) =>
            "invalid function name: `"@ + s@ + "` is not a legal Rust identifier"@,
        DomainError::InvalidLifetimeParameter(s) =>
            "invalid lifetime parameter: `"@ + s@ + "` (must start with `'`)"@,
        DomainError::IncompleteStatementList =>
            "selected range does not form a syntactically complete statement list"@,
        DomainError::MultipleEnclosingFunctions => "selected range spans multiple functions"@,
        DomainError::UnsupportedConstruct(s) =>
            "cannot extract: selection contains an unsupported Rust construct ("@ + s@ + ")"@,
    }
}

/// The message text of an extraction failure.
pub open spec fn extraction_failure_text(f: ExtractionFailure) -> Seq<char> {
    match f {
        ExtractionFailure::PreFlight(s) => "pre-flight: "@ + s@,
        ExtractionFailure::LifetimeRepairExhausted { iterations, last_error } =>
            "lifetime repair exhausted after "@ + decimal(iterations as nat) + " iterations: "@
                + last_error@,
        ExtractionFailure::ControlFlowReificationFailed(s) => "cannot reify control flow: "@ + s@,
        ExtractionFailure::AnalysisFailed(s) => "rust-analyzer analysis failed: "@ + s@,
        ExtractionFailure::CargoCheckFailed(s) => "cargo check failed after extraction: "@ + s@,
    }
}

impl DomainError {
    /// The human-readable message of this error.
    pub fn message(&self) -> (m: String)
        ensures
            m@ == domain_error_text(*self),
    {
        match self {
            DomainError::EmptySelectionRange => owned("selection range is empty or inverted"),
            DomainError::InvalidFilePath(s) => {
                let mut m = owned("invalid file path: `");
                push_str(&mut m, s.as_str());
                push_str(&mut m, "`");
                m
            },
            DomainError::InvalidFunctionName(s) => {
                let mut m = owned("invalid function name: `");
                push_str(&mut m, s.as_str());
                push_str(&mut m, "` is not a legal Rust identifier");
                m
            },
            DomainError::InvalidLifetimeParameter(s) => {
                let mut m = owned("invalid lifetime parameter: `");
                push_str(&mut m, s.as_str());
                push_str(&mut m, "` (must start with `'`)");
                m
            },
            DomainError::IncompleteStatementList => owned(
                "selected range does not form a syntactically complete statement list",
            ),
            DomainError::MultipleEnclosingFunctions => owned(
                "selected range spans multiple functions",
            ),
            DomainError::UnsupportedConstruct(s) => {
                let mut m = owned(
                    "cannot extract: selection contains an unsupported Rust construct (",
                );
                push_str(&mut m, s.as_str());
                push_str(&mut m, ")");
                m
            },
        }
    }
}

impl ExtractionFailure {
    /// The human-readable message of this failure.
    pub fn message(&self) -> (m: String)
        ensures
            m@ == extraction_failure_text(*self),
    {
        match self {
            ExtractionFailure::PreFlight(s) => {
                let mut m = owned("pre-flight: ");
                push_str(&mut m, s.as_str());
                m
            },
            ExtractionFailure::LifetimeRepairExhausted { iterations, last_error } => {
                let mut m = owned("lifetime repair exhausted after ");
                push_decimal(&mut m, *iterations as u64);
                push_str(&mut m, " iterations: ");
                push_str(&mut m, last_error.as_str());
                m
            },
            ExtractionFailure::ControlFlowReificationFailed(s) => {
                let mut m = owned("cannot reify control flow: ");
                push_str(&mut m, s.as_str());
                m
            },
            ExtractionFailure::AnalysisFailed(s) => {
                let mut m = owned("rust-analyzer analysis failed: ");
                push_str(&mut m, s.as_str());
                m
            },
            ExtractionFailure::CargoCheckFailed(s) => {
                let mut m = owned("cargo check failed after extraction: ");
                push_str(&mut m, s.as_str());
                m
            },
        }
    }
}


/// Errors returned from the use cases to the command line: bad input, a
/// domain error, or an infrastructure failure.
#[derive(Debug, Clone)]
pub enum ApplicationError {
    InvalidInput(String),
    Domain(DomainError),
    Infrastructure(String),
}

/// The message text of an application error.
pub open spec fn application_error_text(e: ApplicationError) -> Seq<char> {
    match e {
        ApplicationError::InvalidInput(s) => "invalid input: "@ + s@,
        ApplicationError::Domain(d) => "domain error: "@ + domain_error_text(d),
        ApplicationError::Infrastructure(s) => "infrastructure error: "@ + s@,
    }
}

impl ApplicationError {
    /// The human-readable message of this error.
    pub fn message(&self) -> (m: String)
        ensures
            m@ == application_error_text(*self),
    {
        match self {
            ApplicationError::InvalidInput(s) => {
                let mut m = owned("invalid input: ");
                push_str(&mut m, s.as_str());
                m
            },
            ApplicationError::Domain(d) => {
                let mut m = owned("domain error: ");
                let inner = d.message();
                push_str(&mut m, inner.as_str());
                m
            },
            ApplicationError::Infrastructure(s) => {
                let mut m = owned("infrastructure error: ");
                push_str(&mut m, s.as_str());
                m
            },
        }
    }
}

} // verus!
