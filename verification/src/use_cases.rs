//! The two top-level operations: extract a function, verify equivalence.
//! Each orchestrates the domain services and reaches the outside world only
//! through the ports it is given.

use vstd::prelude::*;
use crate::code_generator::{call_site_text, extracted_fn_text, CodeGenerator};
use crate::control_flow_analyzer::{caller_match_text, enum_definition_text, enum_name_text, ControlFlowAnalyzer};
use crate::dto::{
    ExtractFunctionRequest, ExtractFunctionResponse, ExtractionStats, VerificationResponse,
    VerifyEquivalenceRequest,
};
use crate::entities::{ExtractionTarget, VerificationResult, VerificationVerdict};
use crate::errors::{
    domain_error_text, extraction_failure_text, ApplicationError, DomainError, ExtractionFailure,
};
use crate::events::ExtractionEvent;
use crate::lifetime_repairer::{all_actionable, repaired, LifetimeRepairer, MAX_REPAIR_ITERATIONS};
use crate::ownership_oracle::{refined_vars, OwnershipOracle};
use crate::ports::{
    CodeAnalysisPort, CompilerDiagnostic, ExtractionEventPublisher, FileSystemPort,
    LifetimeRepairPort, RepairOutcome, SelectionAnalysis, VerificationPort,
};
use crate::selection::{selection, selection_exec};
use crate::text::{chars_of, decimal, owned, push_char, push_decimal, push_str, string_of_range};
use crate::value_objects::{is_rust_ident, ByteRange, FilePath, FunctionName};

verus! {

/// The response of a failed extraction: the reason as summary and error.
pub open spec fn is_failure_response(resp: ExtractFunctionResponse, reason: ExtractionFailure) -> bool {
    &&& !resp.success
    &&& resp.new_file_content is None
    &&& resp.summary@ == "extraction failed: "@ + extraction_failure_text(reason)
    &&& resp.error matches Some(e) && e@ == extraction_failure_text(reason)
    &&& resp.stats == ExtractionStats {
        lifetime_repair_iterations: 0,
        control_flow_reified: false,
        is_async: false,
        is_const: false,
    }
    &&& resp.verification is None
}

/// The response to a failed extraction.
pub fn failure_response(reason: ExtractionFailure) -> (resp: ExtractFunctionResponse)
    ensures
        is_failure_response(resp, reason),
{
    let text = reason.message();
    let mut summary = owned("extraction failed: ");
    push_str(&mut summary, text.as_str());
    ExtractFunctionResponse {
        success: false,
        new_file_content: None,
        summary,
        error: Some(text),
        stats: ExtractionStats::default(),
        verification: None,
    }
}

/// The summary line of a successful extraction.
pub open spec fn summary_text(name: Seq<char>, vars: nat, exits: nat, iterations: nat) -> Seq<char> {
    "Extracted `"@ + name + "` ("@ + decimal(vars) + " vars, "@ + decimal(exits) + " CF exits, "@
        + decimal(iterations) + " repair iteration(s))"@
}

/// The source after the naive extraction of the characters `i..j`: the
/// call replaces the selection, and the control-flow enum (if any) and the
/// extracted function follow the rest of the file.
pub open spec fn extraction_patch(
    source: Seq<char>,
    i: int,
    j: int,
    name: Seq<char>,
    a: SelectionAnalysis,
) -> Seq<char> {
    let vars = refined_vars(a.free_variables@, a.output_variables@);
    let exits = a.control_flow_exits@;
    let enum_name = enum_name_text(name, 0);
    let cf_match = if exits.len() == 0 {
        None
    } else {
        Some(caller_match_text(enum_name, exits))
    };
    let cf_source = if exits.len() == 0 {
        Seq::empty()
    } else {
        "\n"@ + enum_definition_text(enum_name, exits)
    };
    source.subrange(0, i) + call_site_text(name, a, vars, cf_match) + source.subrange(
        j,
        source.len() as int,
    ) + cf_source + "\n"@ + extracted_fn_text(name, source.subrange(i, j), a, vars)
}

/// `resp` reports the extraction of `req`'s selection from `source`, as
/// analysed by `a`, after the repairs of `ds`.
pub open spec fn is_success_response(
    resp: ExtractFunctionResponse,
    req: ExtractFunctionRequest,
    a: SelectionAnalysis,
    source: Seq<char>,
    ds: Seq<CompilerDiagnostic>,
) -> bool {
    &&& resp.success
    &&& selection(source, req.start_byte as int, req.end_byte as int) matches Some((i, j))
        && resp.new_file_content matches Some(c) && c@ == repaired(
        extraction_patch(source, i, j, req.extracted_fn_name@, a),
        ds,
    )
    &&& ds.len() < MAX_REPAIR_ITERATIONS
    &&& all_actionable(ds)
    &&& resp.summary@ == summary_text(
        req.extracted_fn_name@,
        a.free_variables@.len(),
        a.control_flow_exits@.len(),
        ds.len(),
    )
    &&& resp.error is None
    &&& resp.verification is None
    &&& resp.stats == ExtractionStats {
        lifetime_repair_iterations: ds.len() as u32,
        control_flow_reified: a.control_flow_exits@.len() > 0,
        is_async: a.is_async,
        is_const: a.is_const,
    }
}

/// `resp` reports an extraction that produced `content` after `repairs`
/// lifetime repairs: its summary counts the free variables, the non-local
/// exits and the repairs; its statistics echo the analysis.
pub open spec fn is_completed_response(
    resp: ExtractFunctionResponse,
    name: Seq<char>,
    analysis: SelectionAnalysis,
    content: String,
    repairs: u32,
) -> bool {
    &&& resp.success
    &&& resp.new_file_content == Some(content)
    &&& resp.summary@ == summary_text(
        name,
        analysis.free_variables@.len(),
        analysis.control_flow_exits@.len(),
        repairs as nat,
    )
    &&& resp.error is None
    &&& resp.verification is None
    &&& resp.stats == (ExtractionStats {
        lifetime_repair_iterations: repairs,
        control_flow_reified: analysis.control_flow_exits@.len() > 0,
        is_async: analysis.is_async,
        is_const: analysis.is_const,
    })
}

/// The response to an extraction that produced `content` after `repairs`
/// lifetime repairs.
pub fn success_response(
    fn_name: &FunctionName,
    analysis: &SelectionAnalysis,
    content: String,
    repairs: u32,
) -> (resp: ExtractFunctionResponse)
    ensures
        is_completed_response(resp, fn_name@, *analysis, content, repairs),
{
    let mut summary = owned("Extracted `");
    push_str(&mut summary, fn_name.as_str());
    push_str(&mut summary, "` (");
    push_decimal(&mut summary, analysis.free_variables.len() as u64);
    push_str(&mut summary, " vars, ");
    push_decimal(&mut summary, analysis.control_flow_exits.len() as u64);
    push_str(&mut summary, " CF exits, ");
    push_decimal(&mut summary, repairs as u64);
    push_str(&mut summary, " repair iteration(s))");
    let stats = ExtractionStats {
        lifetime_repair_iterations: repairs,
        control_flow_reified: analysis.control_flow_exits.len() > 0,
        is_async: analysis.is_async,
        is_const: analysis.is_const,
    };
    ExtractFunctionResponse {
        success: true,
        new_file_content: Some(content),
        summary,
        error: None,
        stats,
        verification: None,
    }
}

/// The request names a file, a non-empty range and a valid function name.
pub open spec fn is_valid_request(req: ExtractFunctionRequest) -> bool {
    req.file@.len() > 0 && req.start_byte < req.end_byte && is_rust_ident(req.extracted_fn_name@)
}

/// The source with the selected bytes extracted into a new function: the
/// call replaces the selection, the control-flow enum (if any) and the new
/// function follow the file. `None` when the byte range does not lie on
/// character boundaries of the source.
pub fn extract_in_source(
    source: &str,
    range: ByteRange,
    fn_name: &FunctionName,
    analysis: &SelectionAnalysis,
) -> (r: Option<String>)
    ensures
        match selection(source@, range.start as int, range.end as int) {
            Some((i, j)) => r matches Some(p) && p@ == extraction_patch(
                source@,
                i,
                j,
                fn_name@,
                *analysis,
            ),
            None => r is None,
        },
{
    let cs = chars_of(source);
    let (si, ei) = match selection_exec(&cs, range.start, range.end) {
        Some(sel) => sel,
        None => return None,
    };
    let free_vars = OwnershipOracle::refine(analysis);
    let cf_plan = match ControlFlowAnalyzer::plan(analysis, fn_name.as_str(), 0) {
        Ok(p) => p,
        Err(_) => None,
    };
    let body = string_of_range(&cs, si, ei);
    let generated = CodeGenerator::generate(
        fn_name,
        body.as_str(),
        analysis,
        free_vars.as_slice(),
        cf_plan.as_ref(),
    );
    let mut patched = string_of_range(&cs, 0, si);
    push_str(&mut patched, generated.call_site_replacement.as_str());
    let rest = string_of_range(&cs, ei, cs.len());
    push_str(&mut patched, rest.as_str());
    match &generated.cf_enum_source {
        Some(cf_src) => {
            push_char(&mut patched, '\n');
            push_str(&mut patched, cf_src.as_str());
        },
        None => {},
    }
    push_char(&mut patched, '\n');
    push_str(&mut patched, generated.extracted_fn_source.as_str());
    proof {
        reveal_strlit("\n");
        assert(patched@ == extraction_patch(source@, si as int, ei as int, fn_name@, *analysis));
    }
    Some(patched)
}

/// The message refusing a range that cuts a character.
pub open spec fn boundary_message(range: ByteRange) -> Seq<char> {
    "selection "@ + decimal(range.start as nat) + ".."@ + decimal(range.end as nat)
        + " does not lie on character boundaries of the source"@
}

/// The pipeline's reading of the search for the project's `Cargo.toml`:
/// the project root, or the search's error as a domain error.
pub fn after_cargo_search(answer: Result<String, DomainError>) -> (r: Result<String, ApplicationError>)
    ensures
        answer is Ok ==> r == Ok::<String, ApplicationError>(answer->Ok_0),
        answer is Err ==> r == Err::<String, ApplicationError>(ApplicationError::Domain(answer->Err_0)),
{
    match answer {
        Ok(root) => Ok(root),
        Err(e) => Err(ApplicationError::Domain(e)),
    }
}

/// The pipeline's reading of the workspace load: go on, or the load's
/// error as a domain error.
pub fn after_load(answer: Result<(), DomainError>) -> (r: Result<(), ApplicationError>)
    ensures
        answer is Ok ==> r is Ok,
        answer is Err ==> r == Err::<(), ApplicationError>(ApplicationError::Domain(answer->Err_0)),
{
    match answer {
        Ok(()) => Ok(()),
        Err(e) => Err(ApplicationError::Domain(e)),
    }
}

/// The pipeline's decision on the analysis port's answer: go on with the
/// analysis, or stop with the failure response of a failed analysis.
pub fn after_analysis(answer: Result<SelectionAnalysis, DomainError>) -> (r: Result<
    SelectionAnalysis,
    (ExtractionFailure, ExtractFunctionResponse),
>)
    ensures
        answer is Ok ==> r is Ok && r->Ok_0 == answer->Ok_0,
        answer is Err ==> r is Err && (r->Err_0).0 is AnalysisFailed && (r->Err_0).0->AnalysisFailed_0@
            == domain_error_text(answer->Err_0) && is_failure_response((r->Err_0).1, (r->Err_0).0),
{
    match answer {
        Ok(a) => Ok(a),
        Err(e) => {
            let text = e.message();
            let resp = failure_response(ExtractionFailure::AnalysisFailed(text.clone()));
            Err((ExtractionFailure::AnalysisFailed(text), resp))
        },
    }
}

/// The pipeline's decision on the source text the file system returned:
/// the naive extraction of the selection from it, a port error, or the
/// refusal of a range that cuts a character.
pub fn after_read(
    answer: Result<String, DomainError>,
    range: ByteRange,
    fn_name: &FunctionName,
    analysis: &SelectionAnalysis,
) -> (r: Result<String, ApplicationError>)
    ensures
        answer matches Err(e) ==> r == Err::<String, ApplicationError>(ApplicationError::Domain(e)),
        answer matches Ok(source) ==> match selection(source@, range.start as int, range.end as int) {
            Some((i, j)) => r matches Ok(p) && p@ == extraction_patch(source@, i, j, fn_name@, *analysis),
            None => r matches Err(ApplicationError::InvalidInput(m)) && m@ == boundary_message(range),
        },
{
    let source = match answer {
        Ok(s) => s,
        Err(e) => return Err(ApplicationError::Domain(e)),
    };
    match extract_in_source(source.as_str(), range, fn_name, analysis) {
        Some(p) => Ok(p),
        None => {
            let mut m = owned("selection ");
            push_decimal(&mut m, range.start as u64);
            push_str(&mut m, "..");
            push_decimal(&mut m, range.end as u64);
            push_str(&mut m, " does not lie on character boundaries of the source");
            proof {
                reveal_strlit("..");
            }
            Err(ApplicationError::InvalidInput(m))
        },
    }
}

/// The pipeline's decision on the repair loop's outcome: the repaired
/// source and the number of repairs, or the failure response.
pub fn after_repair(answer: Result<(String, u32), ExtractionFailure>) -> (r: Result<
    (String, u32),
    ExtractFunctionResponse,
>)
    ensures
        answer matches Ok(done) ==> r == Ok::<(String, u32), ExtractFunctionResponse>(done),
        answer matches Err(f) ==> (r matches Err(resp) && is_failure_response(resp, f)),
{
    match answer {
        Ok(done) => Ok(done),
        Err(f) => Err(failure_response(f)),
    }
}

/// The pipeline's decision on the outcome of writing `content` back: the
/// success response, or the port's error.
pub fn after_write(
    answer: Result<(), DomainError>,
    fn_name: &FunctionName,
    analysis: &SelectionAnalysis,
    content: String,
    repairs: u32,
) -> (r: Result<ExtractFunctionResponse, ApplicationError>)
    ensures
        answer matches Err(e) ==> r == Err::<ExtractFunctionResponse, ApplicationError>(
            ApplicationError::Domain(e),
        ),
        answer is Ok ==> (r matches Ok(resp) && is_completed_response(
            resp,
            fn_name@,
            *analysis,
            content,
            repairs,
        )),
{
    match answer {
        Ok(()) => Ok(success_response(fn_name, analysis, content, repairs)),
        Err(e) => Err(ApplicationError::Domain(e)),
    }
}

/// Use case: extract a function.
pub struct ExtractFunctionUseCase<A, R, S, P> {
    pub analysis: A,
    pub repair: R,
    pub fs: S,
    pub publisher: P,
}

impl<
    A: CodeAnalysisPort,
    R: LifetimeRepairPort,
    S: FileSystemPort,
    P: ExtractionEventPublisher,
> ExtractFunctionUseCase<A, R, S, P> {
    /// Runs the extraction pipeline: validate the request, analyse the
    /// selection, plan ownership and control flow, generate the text, patch
    /// the file, repair lifetimes until the compiler accepts it, write it.
    /// Whatever the ports answer, a success reports the patched and repaired
    /// source of some analysis, and a failure response carries its reason.
    pub fn execute(&self, req: ExtractFunctionRequest) -> (r: Result<
        ExtractFunctionResponse,
        ApplicationError,
    >)
        ensures
            req.file@.len() == 0 ==> (r matches Err(
                ApplicationError::Domain(DomainError::InvalidFilePath(s)),
            ) && s@ == req.file@),
            req.file@.len() > 0 && req.start_byte >= req.end_byte ==> r matches Err(
                ApplicationError::Domain(DomainError::EmptySelectionRange),
            ),
            req.file@.len() > 0 && req.start_byte < req.end_byte && !is_rust_ident(
                req.extracted_fn_name@,
            ) ==> (r matches Err(ApplicationError::InvalidInput(m)) && m@ == domain_error_text(
                DomainError::InvalidFunctionName(req.extracted_fn_name),
            )),
            r matches Ok(resp) ==> is_valid_request(req),
            is_valid_request(req) ==> (r matches Err(e) ==> (e is Domain || (e is InvalidInput
                && exists|source: Seq<char>|
                selection(source, req.start_byte as int, req.end_byte as int) is None))),
            r matches Ok(resp) ==> (resp.success ==> exists|
                a: SelectionAnalysis,
                source: Seq<char>,
                ds: Seq<CompilerDiagnostic>,
            | is_success_response(resp, req, a, source, ds)),
            r matches Ok(resp) ==> (!resp.success ==> exists|f: ExtractionFailure|
                is_failure_response(resp, f) && (f is AnalysisFailed || f is LifetimeRepairExhausted)),
    {
        let file = match FilePath::new(req.file.as_str()) {
            Ok(f) => f,
            Err(e) => return Err(ApplicationError::Domain(e)),
        };
        let range = match ByteRange::new(req.start_byte, req.end_byte) {
            Ok(r) => r,
            Err(e) => return Err(ApplicationError::Domain(e)),
        };
        let fn_name = match FunctionName::new(req.extracted_fn_name.as_str()) {
            Ok(n) => n,
            Err(e) => return Err(ApplicationError::InvalidInput(e.message())),
        };
        let target = match ExtractionTarget::new(file.clone(), range, fn_name.clone()) {
            Ok(t) => t,
            Err(e) => return Err(ApplicationError::Domain(e)),
        };
        self.publisher.publish(ExtractionEvent::Started { target: target.clone() });

        let project_root = match &req.project_root {
            Some(root) => root.clone(),
            None => match after_cargo_search(self.fs.find_cargo_toml(req.file.as_str())) {
                Ok(root) => root,
                Err(e) => return Err(e),
            },
        };
        match after_load(self.analysis.load_workspace(project_root.as_str())) {
            Ok(()) => {},
            Err(e) => return Err(e),
        }
        let analysis = match after_analysis(self.analysis.analyse_selection(&file, range)) {
            Ok(a) => a,
            Err((reason, resp)) => {
                self.publisher.publish(
                    ExtractionEvent::ExtractionFailed { target: target.clone(), reason },
                );
                return Ok(resp);
            },
        };
        self.publisher.publish(
            ExtractionEvent::AnalysisCompleted {
                target: target.clone(),
                free_variables_count: analysis.free_variables.len(),
            },
        );

        match ControlFlowAnalyzer::plan(&analysis, fn_name.as_str(), 0) {
            Ok(_) => {},
            Err(e) => {
                self.publisher.publish(
                    ExtractionEvent::ExtractionFailed { target: target.clone(), reason: e.clone() },
                );
                return Ok(failure_response(e));
            },
        };
        if analysis.control_flow_exits.len() > 0 {
            self.publisher.publish(
                ExtractionEvent::ControlFlowReificationRequired {
                    target: target.clone(),
                    kinds: analysis.control_flow_exits.clone(),
                },
            );
        }

        let source = self.fs.read_to_string(file.as_str());
        let ghost read = source;
        let patched = match after_read(source, range, &fn_name, &analysis) {
            Ok(p) => p,
            Err(e) => return Err(e),
        };
        let ghost patched_view = patched@;
        let publisher = &self.publisher;
        let repair_target = &target;
        let repaired_answer = LifetimeRepairer::repair_counting(
            project_root.as_str(),
            &file,
            patched,
            &self.repair,
            |iteration: u32, code: &str|
                {
                    publisher.publish(
                        ExtractionEvent::LifetimeRepairIteration {
                            target: repair_target.clone(),
                            iteration,
                            error_code: owned(code),
                        },
                    );
                },
        );
        let failed_repair = match &repaired_answer {
            Ok(_) => None,
            Err(f) => Some(f.clone()),
        };
        let (final_source, repair_iterations) = match after_repair(repaired_answer) {
            Ok(done) => done,
            Err(resp) => {
                match failed_repair {
                    Some(reason) => self.publisher.publish(
                        ExtractionEvent::ExtractionFailed { target: target.clone(), reason },
                    ),
                    None => {},
                }
                return Ok(resp);
            },
        };
        if repair_iterations > 0 {
            self.publisher.publish(
                ExtractionEvent::LifetimeRepairSucceeded {
                    target: target.clone(),
                    total_iterations: repair_iterations,
                },
            );
        }
        let written = self.fs.write_string(file.as_str(), final_source.as_str());
        let succeeded = written.is_ok();
        let ghost final_view = final_source@;
        let resp = match after_write(written, &fn_name, &analysis, final_source, repair_iterations) {
            Ok(resp) => resp,
            Err(e) => return Err(e),
        };
        if succeeded {
            self.publisher.publish(ExtractionEvent::ExtractionSucceeded { target: target.clone() });
        }
        proof {
            let ds = choose|ds: Seq<CompilerDiagnostic>|
                ds.len() == repair_iterations && repair_iterations < MAX_REPAIR_ITERATIONS
                    && all_actionable(ds) && final_view == repaired(patched_view, ds);
            let source_text = match read {
                Ok(t) => t@,
                Err(_) => Seq::empty(),
            };
            assert(is_success_response(resp, req, analysis, source_text, ds));
        }
        Ok(resp)
    }
}


/// `resp` reports the verdict `v`: its name and its detail text.
pub open spec fn is_response_of(resp: VerificationResponse, v: VerificationVerdict) -> bool {
    match v {
        VerificationVerdict::Proved => resp.verdict@ == "proved"@ && resp.detail is None,
        VerificationVerdict::CounterexampleFound { detail } => resp.verdict@ == "counterexample"@
            && resp.detail == Some(detail),
        VerificationVerdict::OutOfScope { reason } => resp.verdict@ == "out_of_scope"@
            && resp.detail == Some(reason),
        VerificationVerdict::PipelineFailed { detail } => resp.verdict@ == "failed"@
            && resp.detail == Some(detail),
    }
}

/// The response that reports a verdict.
pub fn verification_response(verdict: VerificationVerdict) -> (resp: VerificationResponse)
    ensures
        is_response_of(resp, verdict),
{
    match verdict {
        VerificationVerdict::Proved => VerificationResponse { verdict: owned("proved"), detail: None },
        VerificationVerdict::CounterexampleFound { detail } => VerificationResponse {
            verdict: owned("counterexample"),
            detail: Some(detail),
        },
        VerificationVerdict::OutOfScope { reason } => VerificationResponse {
            verdict: owned("out_of_scope"),
            detail: Some(reason),
        },
        VerificationVerdict::PipelineFailed { detail } => VerificationResponse {
            verdict: owned("failed"),
            detail: Some(detail),
        },
    }
}

/// The use case's reading of the verification port's answer: the response
/// reporting the verdict, or the port's error as a domain error.
pub fn after_verification(answer: Result<VerificationResult, DomainError>) -> (r: Result<
    VerificationResponse,
    ApplicationError,
>)
    ensures
        answer is Err ==> r == Err::<VerificationResponse, ApplicationError>(
            ApplicationError::Domain(answer->Err_0),
        ),
        answer is Ok ==> r is Ok && is_response_of(r->Ok_0, answer->Ok_0.verdict),
{
    match answer {
        Ok(res) => Ok(verification_response(res.verdict)),
        Err(e) => Err(ApplicationError::Domain(e)),
    }
}

/// Use case: verify that an original and an extracted function are
/// equivalent.
pub struct VerifyEquivalenceUseCase<V, F> {
    pub verification: V,
    pub fs: F,
}

impl<V: VerificationPort, F: FileSystemPort> VerifyEquivalenceUseCase<V, F> {
    /// Validates the file path, runs the verification port and reports its
    /// verdict; a port error is returned as a domain error.
    pub fn execute(&self, req: VerifyEquivalenceRequest) -> (r: Result<
        VerificationResponse,
        ApplicationError,
    >)
        ensures
            req.file@.len() == 0 ==> (r matches Err(
                ApplicationError::Domain(DomainError::InvalidFilePath(s)),
            ) && s@ == req.file@),
            req.file@.len() > 0 ==> (r matches Err(e) ==> e is Domain),
            r matches Ok(resp) ==> req.file@.len() > 0 && exists|v: VerificationVerdict|
                is_response_of(resp, v),
    {
        let file = match FilePath::new(req.file.as_str()) {
            Ok(f) => f,
            Err(e) => return Err(ApplicationError::Domain(e)),
        };
        let answer = self.verification.verify_equivalence(
            &file,
            req.original_fn_name.as_str(),
            req.extracted_fn_name.as_str(),
            req.project_root.as_str(),
        );
        let resp = match after_verification(answer) {
            Ok(resp) => resp,
            Err(e) => return Err(e),
        };
        Ok(resp)
    }
}

} // verus!
