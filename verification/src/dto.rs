//! Plain data exchanged between the command line and the use cases.

use vstd::prelude::*;

verus! {

/// Everything needed to run an extraction.
#[derive(Debug, Clone)]
pub struct ExtractFunctionRequest {
    /// Path to the source file holding the selection.
    pub file: String,
    /// Start byte offset (inclusive) of the selection.
    pub start_byte: u32,
    /// End byte offset (exclusive) of the selection.
    pub end_byte: u32,
    /// Name of the new extracted function.
    pub extracted_fn_name: String,
    /// Project root (directory holding `Cargo.toml`); found from `file` when absent.
    pub project_root: Option<String>,
    /// Whether to run the optional equivalence verification pass.
    pub verify: bool,
}

/// Everything needed to run an equivalence verification.
#[derive(Debug, Clone)]
pub struct VerifyEquivalenceRequest {
    pub file: String,
    pub original_fn_name: String,
    pub extracted_fn_name: String,
    pub project_root: String,
}

/// The result of an extraction.
#[derive(Debug, Clone)]
pub struct ExtractFunctionResponse {
    pub success: bool,
    /// On success: the new content of the source file.
    pub new_file_content: Option<String>,
    /// What was done, always present.
    pub summary: String,
    /// On failure: the reason.
    pub error: Option<String>,
    pub stats: ExtractionStats,
    /// Filled when verification was requested.
    pub verification: Option<VerificationResponse>,
}

#[derive(Debug, Clone, Copy, PartialEq, Eq, Structural)]
pub struct ExtractionStats {
    pub lifetime_repair_iterations: u32,
    pub control_flow_reified: bool,
    pub is_async: bool,
    pub is_const: bool,
}

impl Default for ExtractionStats {
    fn default() -> (s: Self)
        ensures
            s == (ExtractionStats {
                lifetime_repair_iterations: 0,
                control_flow_reified: false,
                is_async: false,
                is_const: false,
            }),
    {
        ExtractionStats {
            lifetime_repair_iterations: 0,
            control_flow_reified: false,
            is_async: false,
            is_const: false,
        }
    }
}

/// The result of a verification run.
#[derive(Debug, Clone)]
pub struct VerificationResponse {
    /// `proved`, `counterexample`, `out_of_scope` or `failed`.
    pub verdict: String,
    pub detail: Option<String>,
}

} // verus!
