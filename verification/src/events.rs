//! Things that happened during a pipeline run.

use vstd::prelude::*;
use crate::entities::ExtractionTarget;
use crate::errors::ExtractionFailure;
use crate::value_objects::ControlFlowKind;

verus! {

#[derive(Debug, Clone)]
pub enum ExtractionEvent {
    Started { target: ExtractionTarget },
    AnalysisCompleted { target: ExtractionTarget, free_variables_count: usize },
    ControlFlowReificationRequired { target: ExtractionTarget, kinds: Vec<ControlFlowKind> },
    LifetimeRepairIteration { target: ExtractionTarget, iteration: u32, error_code: String },
    LifetimeRepairSucceeded { target: ExtractionTarget, total_iterations: u32 },
    ExtractionSucceeded { target: ExtractionTarget },
    ExtractionFailed { target: ExtractionTarget, reason: ExtractionFailure },
}

#[derive(Debug, Clone)]
pub enum VerificationEvent {
    CharonTranslationStarted { target: ExtractionTarget },
    AeneasProofGenerated { target: ExtractionTarget },
    EquivalenceProved { target: ExtractionTarget },
    VerificationSkipped { target: ExtractionTarget, reason: String },
    VerificationFailed { target: ExtractionTarget, detail: String },
}

} // verus!
