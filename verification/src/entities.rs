//! Identifiable domain objects: the extraction target and the results of
//! extraction and verification.

use vstd::prelude::*;
use crate::errors::{DomainError, ExtractionFailure};
use crate::value_objects::{ByteRange, FilePath, FunctionName};

verus! {

/// A code fragment selected for extraction; its range is never empty.
#[derive(Debug, Clone, PartialEq, Eq)]
pub struct ExtractionTarget {
    pub source_file: FilePath,
    pub range: ByteRange,
    pub extracted_name: FunctionName,
}

impl ExtractionTarget {
    /// Builds a target; refuses an empty or inverted range.
    pub fn new(source_file: FilePath, range: ByteRange, extracted_name: FunctionName) -> (r:
        Result<Self, DomainError>)
        ensures
            range.start >= range.end ==> r == Err::<ExtractionTarget, DomainError>(
                DomainError::EmptySelectionRange,
            ),
            range.start < range.end ==> r == Ok::<ExtractionTarget, DomainError>(
                ExtractionTarget { source_file, range, extracted_name },
            ),
    {
        if range.is_empty() {
            return Err(DomainError::EmptySelectionRange);
        }
        Ok(ExtractionTarget { source_file, range, extracted_name })
    }
}

/// The outcome produced by the extraction pipeline.
#[derive(Debug, Clone)]
pub struct ExtractionResult {
    pub target: ExtractionTarget,
    pub outcome: ExtractionOutcome,
}

#[derive(Debug, Clone)]
pub enum ExtractionOutcome {
    Success {
        rewritten_caller: String,
        extracted_fn: String,
        lifetime_repair_applied: bool,
        control_flow_reified: bool,
    },
    Failure { reason: ExtractionFailure },
}

/// Result of the optional equivalence verification pass.
#[derive(Debug, Clone)]
pub struct VerificationResult {
    pub target: ExtractionTarget,
    pub verdict: VerificationVerdict,
}

#[derive(Debug, Clone)]
pub enum VerificationVerdict {
    Proved,
    CounterexampleFound { detail: String },
    OutOfScope { reason: String },
    PipelineFailed { detail: String },
}

} // verus!
