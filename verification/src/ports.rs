//! The data that crosses the boundary to the outside world, and the traits
//! (ports) through which the use cases reach analysis, the file system, the
//! compiler, the verifier and event sinks.

use vstd::prelude::*;
use crate::entities::VerificationResult;
use crate::errors::DomainError;
use crate::events::{ExtractionEvent, VerificationEvent};
use crate::value_objects::{ByteRange, ControlFlowKind, FilePath, OwnershipKind};

verus! {

/// Semantic information about the selected code fragment.
#[derive(Debug, Clone)]
pub struct SelectionAnalysis {
    /// Variables defined outside the selection and used inside it.
    pub free_variables: Vec<FreeVariable>,
    /// Variables defined inside the selection and used after it.
    pub output_variables: Vec<OutputVariable>,
    /// Non-local control flow found inside the selection.
    pub control_flow_exits: Vec<ControlFlowKind>,
    /// The selection awaits.
    pub is_async: bool,
    /// The selection sits in a `const fn`.
    pub is_const: bool,
    /// Generic parameters of the enclosing function used inside the selection.
    pub referenced_generics: Vec<String>,
}

#[derive(Debug, Clone)]
pub struct FreeVariable {
    pub name: String,
    /// Textual type as the analysis resolves it.
    pub ty: String,
    pub ownership: OwnershipKind,
}

#[derive(Debug, Clone)]
pub struct OutputVariable {
    pub name: String,
    pub ty: String,
}

/// Result of one compiler check of a patched source.
#[derive(Debug, Clone)]
pub enum RepairOutcome {
    /// The code compiles.
    Accepted,
    /// The compiler rejected the code with these diagnostics.
    Rejected { diagnostics: Vec<CompilerDiagnostic> },
}

#[derive(Debug, Clone)]
pub struct CompilerDiagnostic {
    pub error_code: String,
    pub message: String,
    pub span_text: Option<String>,
    /// Help and note messages of child diagnostics.
    pub help_text: Option<String>,
}

/// Port: semantic analysis of a source file.
pub trait CodeAnalysisPort: Send + Sync {
    /// Loads (or reuses) the workspace rooted at `project_root`.
    fn load_workspace(&self, project_root: &str) -> Result<(), DomainError>;

    /// Analyses the selected byte range inside `file`.
    fn analyse_selection(&self, file: &FilePath, range: ByteRange) -> Result<
        SelectionAnalysis,
        DomainError,
    >;
}

/// Port: sink of extraction events.
pub trait ExtractionEventPublisher: Send + Sync {
    fn publish(&self, event: ExtractionEvent);
}

/// Port: sink of verification events.
pub trait VerificationEventPublisher: Send + Sync {
    fn publish(&self, event: VerificationEvent);
}

/// Port: file-system access.
pub trait FileSystemPort: Send + Sync {
    fn read_to_string(&self, path: &str) -> Result<String, DomainError>;

    fn write_string(&self, path: &str, content: &str) -> Result<(), DomainError>;

    fn path_exists(&self, path: &str) -> bool;

    /// The directory of the `Cargo.toml` nearest above `start_path`.
    fn find_cargo_toml(&self, start_path: &str) -> Result<String, DomainError>;
}

/// Port: compiler acceptance check of a patched source.
pub trait LifetimeRepairPort: Send + Sync {
    fn check(&self, project_root: &str, file: &FilePath, source_patch: &str) -> Result<
        RepairOutcome,
        DomainError,
    >;
}

/// Port: syntax-level rewriting of extracted bodies.
pub trait SyntaxRewritePort: Send + Sync {
    /// Inserts `*` before every bare reference to a variable named in
    /// `ref_var_names`.
    fn rewrite_body_with_derefs(&self, body: &str, ref_var_names: &[String]) -> String;
}

/// Port: equivalence verification of an original and an extracted function.
pub trait VerificationPort: Send + Sync {
    fn verify_equivalence(
        &self,
        source_file: &FilePath,
        original_fn_name: &str,
        extracted_fn_name: &str,
        project_root: &str,
    ) -> Result<VerificationResult, DomainError>;
}

} // verus!
