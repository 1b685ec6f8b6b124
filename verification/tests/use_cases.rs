use std::sync::Mutex;

use rem::adapters::{
    charon_failure_verdict, diagnostics_from_messages, make_dummy_target, stage_verdict, CargoMessage,
    CharonAeneasAdapter, ChildDetail, CodeDetail, MessageDetail, SpanDetail, SpanText,
};
use rem::dto::{ExtractFunctionRequest, VerifyEquivalenceRequest};
use rem::entities::{VerificationResult, VerificationVerdict};
use rem::errors::{ApplicationError, DomainError, ExtractionFailure};
use rem::events::ExtractionEvent;
use rem::ports::{
    CodeAnalysisPort, ExtractionEventPublisher, FileSystemPort, FreeVariable, LifetimeRepairPort,
    OutputVariable, RepairOutcome, SelectionAnalysis, VerificationPort,
};
use rem::use_cases::{
    after_analysis, after_cargo_search, after_load, after_read, after_repair, after_verification,
    after_write, failure_response, success_response, verification_response, ExtractFunctionUseCase,
    VerifyEquivalenceUseCase,
};
use rem::value_objects::{ByteRange, ControlFlowKind, FilePath, FunctionName, OwnershipKind};

struct FixedAnalysis(Option<SelectionAnalysis>);
impl CodeAnalysisPort for FixedAnalysis {
    fn load_workspace(&self, _: &str) -> Result<(), DomainError> {
        Ok(())
    }
    fn analyse_selection(&self, _: &FilePath, _: ByteRange) -> Result<SelectionAnalysis, DomainError> {
        self.0.clone().ok_or(DomainError::MultipleEnclosingFunctions)
    }
}

struct Accepts;
impl LifetimeRepairPort for Accepts {
    fn check(&self, _: &str, _: &FilePath, _: &str) -> Result<RepairOutcome, DomainError> {
        Ok(RepairOutcome::Accepted)
    }
}

struct MemoryFs {
    content: Mutex<String>,
}
impl FileSystemPort for MemoryFs {
    fn read_to_string(&self, _: &str) -> Result<String, DomainError> {
        Ok(self.content.lock().unwrap().clone())
    }
    fn write_string(&self, _: &str, content: &str) -> Result<(), DomainError> {
        *self.content.lock().unwrap() = content.to_string();
        Ok(())
    }
    fn path_exists(&self, _: &str) -> bool {
        true
    }
    fn find_cargo_toml(&self, _: &str) -> Result<String, DomainError> {
        Ok("/project".into())
    }
}

#[derive(Default)]
struct Recorder(Mutex<Vec<String>>);
impl ExtractionEventPublisher for Recorder {
    fn publish(&self, event: ExtractionEvent) {
        let name = match event {
            ExtractionEvent::Started { .. } => "started",
            ExtractionEvent::AnalysisCompleted { .. } => "analysed",
            ExtractionEvent::ControlFlowReificationRequired { .. } => "cf",
            ExtractionEvent::LifetimeRepairIteration { .. } => "repair",
            ExtractionEvent::LifetimeRepairSucceeded { .. } => "repaired",
            ExtractionEvent::ExtractionSucceeded { .. } => "succeeded",
            ExtractionEvent::ExtractionFailed { .. } => "failed",
        };
        self.0.lock().unwrap().push(name.to_string());
    }
}

const SOURCE: &str = "fn main() {\n    let a = 1;\n    let b = a + 2;\n    println!(\"{}\", b);\n}\n";

fn selection_analysis() -> SelectionAnalysis {
    SelectionAnalysis {
        free_variables: vec![FreeVariable {
            name: "a".into(),
            ty: "i32".into(),
            ownership: OwnershipKind::SharedRef,
        }],
        output_variables: vec![OutputVariable { name: "b".into(), ty: "i32".into() }],
        control_flow_exits: vec![],
        is_async: false,
        is_const: false,
        referenced_generics: vec![],
    }
}

fn use_case(
    analysis: Option<SelectionAnalysis>,
) -> ExtractFunctionUseCase<FixedAnalysis, Accepts, MemoryFs, Recorder> {
    ExtractFunctionUseCase {
        analysis: FixedAnalysis(analysis),
        repair: Accepts,
        fs: MemoryFs { content: Mutex::new(SOURCE.to_string()) },
        publisher: Recorder::default(),
    }
}

fn request(file: &str, start: u32, end: u32, name: &str) -> ExtractFunctionRequest {
    ExtractFunctionRequest {
        file: file.into(),
        start_byte: start,
        end_byte: end,
        extracted_fn_name: name.into(),
        project_root: None,
        verify: false,
    }
}

#[test]
fn extraction_writes_the_patched_file() {
    let start = SOURCE.find("let b").unwrap() as u32;
    let end = start + "let b = a + 2;".len() as u32;
    let uc = use_case(Some(selection_analysis()));
    let resp = uc.execute(request("/project/src/main.rs", start, end, "compute")).unwrap();
    let expected = "fn main() {\n    let a = 1;\n    let b = compute(&a);\n    println!(\"{}\", b);\n}\n\nfn compute(a: &i32) -> i32 {\nlet b = *a + 2;\nb\n}";
    assert!(resp.success);
    assert_eq!(resp.new_file_content.as_deref(), Some(expected));
    assert_eq!(*uc.fs.content.lock().unwrap(), expected);
    assert_eq!(resp.summary, "Extracted `compute` (1 vars, 0 CF exits, 0 repair iteration(s))");
    assert_eq!(resp.error, None);
    assert_eq!(resp.stats.lifetime_repair_iterations, 0);
    assert!(!resp.stats.control_flow_reified);
    // The text before the selection is kept.
    assert!(expected.starts_with(&SOURCE[..start as usize]));
    assert_eq!(
        *uc.publisher.0.lock().unwrap(),
        vec!["started".to_string(), "analysed".into(), "succeeded".into()]
    );
}

#[test]
fn invalid_requests_are_refused_before_any_work() {
    let uc = use_case(Some(selection_analysis()));
    match uc.execute(request("", 1, 2, "f")).unwrap_err() {
        ApplicationError::Domain(DomainError::InvalidFilePath(s)) => assert_eq!(s, ""),
        other => panic!("unexpected {other:?}"),
    }
    match uc.execute(request("/f.rs", 4, 4, "f")).unwrap_err() {
        ApplicationError::Domain(DomainError::EmptySelectionRange) => {}
        other => panic!("unexpected {other:?}"),
    }
    match uc.execute(request("/f.rs", 1, 4, "1x")).unwrap_err() {
        ApplicationError::InvalidInput(m) => {
            assert_eq!(m, "invalid function name: `1x` is not a legal Rust identifier")
        }
        other => panic!("unexpected {other:?}"),
    }
    assert!(uc.publisher.0.lock().unwrap().is_empty());
}

#[test]
fn analysis_failure_is_reported_in_the_response() {
    let uc = use_case(None);
    let resp = uc.execute(request("/f.rs", 1, 4, "f")).unwrap();
    assert!(!resp.success);
    assert_eq!(
        resp.error.as_deref(),
        Some("rust-analyzer analysis failed: selected range spans multiple functions")
    );
    assert_eq!(
        resp.summary,
        "extraction failed: rust-analyzer analysis failed: selected range spans multiple functions"
    );
    assert!(resp.new_file_content.is_none());
    assert_eq!(*uc.publisher.0.lock().unwrap(), vec!["started".to_string(), "failed".into()]);
}

#[test]
fn selection_outside_the_source_is_refused() {
    let uc = use_case(Some(selection_analysis()));
    match uc.execute(request("/f.rs", 1, 10_000, "f")).unwrap_err() {
        ApplicationError::InvalidInput(_) => {}
        other => panic!("unexpected {other:?}"),
    }
}

#[test]
fn failure_response_reports_the_reason() {
    let resp = failure_response(ExtractionFailure::CargoCheckFailed("E0308".into()));
    assert!(!resp.success);
    assert_eq!(resp.error.as_deref(), Some("cargo check failed after extraction: E0308"));
    assert_eq!(resp.summary, "extraction failed: cargo check failed after extraction: E0308");
    assert_eq!(resp.stats.lifetime_repair_iterations, 0);
    assert!(resp.verification.is_none());
}

struct FixedVerdict(VerificationVerdict);
impl VerificationPort for FixedVerdict {
    fn verify_equivalence(
        &self,
        file: &FilePath,
        _: &str,
        _: &str,
        _: &str,
    ) -> Result<VerificationResult, DomainError> {
        Ok(VerificationResult { target: make_dummy_target(file), verdict: self.0.clone() })
    }
}

fn verify_request(file: &str) -> VerifyEquivalenceRequest {
    VerifyEquivalenceRequest {
        file: file.into(),
        original_fn_name: "big".into(),
        extracted_fn_name: "small".into(),
        project_root: "/p".into(),
    }
}

#[test]
fn verification_verdicts_become_responses() {
    let fs = MemoryFs { content: Mutex::new(String::new()) };
    let uc = VerifyEquivalenceUseCase { verification: FixedVerdict(VerificationVerdict::Proved), fs };
    let r = uc.execute(verify_request("/f.rs")).unwrap();
    assert_eq!(r.verdict, "proved");
    assert_eq!(r.detail, None);
    assert!(matches!(
        uc.execute(verify_request("")).unwrap_err(),
        ApplicationError::Domain(DomainError::InvalidFilePath(_))
    ));
    let r = verification_response(VerificationVerdict::CounterexampleFound { detail: "x=1".into() });
    assert_eq!((r.verdict.as_str(), r.detail.as_deref()), ("counterexample", Some("x=1")));
    let r = verification_response(VerificationVerdict::OutOfScope { reason: "dyn".into() });
    assert_eq!((r.verdict.as_str(), r.detail.as_deref()), ("out_of_scope", Some("dyn")));
    let r = verification_response(VerificationVerdict::PipelineFailed { detail: "boom".into() });
    assert_eq!((r.verdict.as_str(), r.detail.as_deref()), ("failed", Some("boom")));
}

#[test]
fn charon_failures_are_classified() {
    match charon_failure_verdict("error: dyn Trait unsupported\nmore".into()) {
        VerificationVerdict::OutOfScope { reason } => {
            assert_eq!(reason, "CHARON: error: dyn Trait unsupported")
        }
        other => panic!("unexpected {other:?}"),
    }
    match charon_failure_verdict("x\r\nuses dyn".into()) {
        VerificationVerdict::OutOfScope { reason } => assert_eq!(reason, "CHARON: x"),
        other => panic!("unexpected {other:?}"),
    }
    match charon_failure_verdict("no dyn here\r".into()) {
        VerificationVerdict::OutOfScope { reason } => assert_eq!(reason, "CHARON: no dyn here\r"),
        other => panic!("unexpected {other:?}"),
    }
    match charon_failure_verdict("boom".into()) {
        VerificationVerdict::PipelineFailed { detail } => assert_eq!(detail, "boom"),
        other => panic!("unexpected {other:?}"),
    }
}

#[test]
fn cargo_messages_become_diagnostics() {
    let coded = CargoMessage {
        reason: "compiler-message".into(),
        message: Some(MessageDetail {
            code: Some(CodeDetail { code: "E0106".into() }),
            message: "missing lifetime specifier".into(),
            spans: vec![SpanDetail { text: vec![SpanText { text: "&i32".into() }] }],
            children: vec![
                ChildDetail { message: "consider `'a`".into() },
                ChildDetail { message: "note".into() },
            ],
        }),
    };
    let uncoded = CargoMessage {
        reason: "compiler-message".into(),
        message: Some(MessageDetail { code: None, message: "warn".into(), spans: vec![], children: vec![] }),
    };
    let artifact = CargoMessage { reason: "compiler-artifact".into(), message: None };
    let ds = diagnostics_from_messages(&vec![artifact, coded, uncoded]);
    assert_eq!(ds.len(), 1);
    assert_eq!(ds[0].error_code, "E0106");
    assert_eq!(ds[0].message, "missing lifetime specifier");
    assert_eq!(ds[0].span_text.as_deref(), Some("&i32"));
    assert_eq!(ds[0].help_text.as_deref(), Some("consider `'a`\nnote"));
}

#[test]
fn dummy_target_and_adapter_settings() {
    let t = make_dummy_target(&FilePath::new("/x.rs").unwrap());
    assert_eq!(t.source_file.as_str(), "/x.rs");
    assert_eq!(t.range, ByteRange { start: 0, end: 1 });
    assert_eq!(t.extracted_name.as_str(), "extracted");
    let a = CharonAeneasAdapter::new("charon".into(), "aeneas".into());
    assert_eq!((a.charon_bin.as_str(), a.aeneas_bin.as_str()), ("charon", "aeneas"));
}

#[test]
fn success_response_counts_and_echoes_the_analysis() {
    let analysis = SelectionAnalysis {
        free_variables: vec![FreeVariable { name: "a".into(), ty: "i32".into(), ownership: OwnershipKind::Owned }],
        output_variables: vec![],
        control_flow_exits: vec![ControlFlowKind::Return, ControlFlowKind::Break],
        is_async: true,
        is_const: false,
        referenced_generics: vec![],
    };
    let name = FunctionName::new("go").unwrap();
    let resp = success_response(&name, &analysis, "fn go() {}".into(), 3);
    assert!(resp.success);
    assert_eq!(resp.new_file_content.as_deref(), Some("fn go() {}"));
    assert_eq!(resp.summary, "Extracted `go` (1 vars, 2 CF exits, 3 repair iteration(s))");
    assert_eq!(resp.error, None);
    assert_eq!(resp.stats.lifetime_repair_iterations, 3);
    assert!(resp.stats.control_flow_reified && resp.stats.is_async && !resp.stats.is_const);
}

#[test]
fn each_answer_of_the_outside_world_is_decided() {
    match after_analysis(Err(DomainError::UnsupportedConstruct("x".into()))) {
        Err((reason, resp)) => {
            match reason {
                ExtractionFailure::AnalysisFailed(m) => assert_eq!(
                    m,
                    "cannot extract: selection contains an unsupported Rust construct (x)"
                ),
                other => panic!("unexpected {other:?}"),
            }
            assert!(!resp.success && resp.new_file_content.is_none());
            assert_eq!(
                resp.error.as_deref(),
                Some("rust-analyzer analysis failed: cannot extract: selection contains an unsupported Rust construct (x)")
            );
        }
        Ok(_) => panic!("analysis error must stop the extraction"),
    }
    assert!(after_analysis(Ok(selection_analysis())).is_ok());

    let name = FunctionName::new("f").unwrap();
    let empty = SelectionAnalysis {
        free_variables: vec![],
        output_variables: vec![],
        control_flow_exits: vec![],
        is_async: false,
        is_const: false,
        referenced_generics: vec![],
    };
    let range = ByteRange::new(12, 22).unwrap();
    assert_eq!(
        after_read(Ok("fn main() { let a = 1; }".into()), range, &name, &empty).unwrap(),
        "fn main() { f(); }\nfn f() {\nlet a = 1;\n}"
    );
    match after_read(Ok("é".into()), ByteRange::new(1, 2).unwrap(), &name, &empty) {
        Err(ApplicationError::InvalidInput(m)) => {
            assert_eq!(m, "selection 1..2 does not lie on character boundaries of the source")
        }
        other => panic!("unexpected {other:?}"),
    }
    assert!(matches!(
        after_read(Err(DomainError::IncompleteStatementList), range, &name, &empty),
        Err(ApplicationError::Domain(DomainError::IncompleteStatementList))
    ));

    assert_eq!(after_repair(Ok(("s".into(), 2))).unwrap(), ("s".to_string(), 2));
    let resp = after_repair(Err(ExtractionFailure::CargoCheckFailed("E0308".into()))).unwrap_err();
    assert_eq!(resp.error.as_deref(), Some("cargo check failed after extraction: E0308"));

    let done = after_write(Ok(()), &name, &empty, "fn main() { f(); }".into(), 0).unwrap();
    assert_eq!(done.summary, "Extracted `f` (0 vars, 0 CF exits, 0 repair iteration(s))");
    assert_eq!(done.new_file_content.as_deref(), Some("fn main() { f(); }"));
    assert!(matches!(
        after_write(Err(DomainError::EmptySelectionRange), &name, &empty, String::new(), 0),
        Err(ApplicationError::Domain(DomainError::EmptySelectionRange))
    ));
}

#[test]
fn port_errors_are_passed_on_unchanged() {
    assert_eq!(after_cargo_search(Ok("/p".into())).unwrap(), "/p");
    match after_cargo_search(Err(DomainError::InvalidFilePath("no Cargo.toml".into()))) {
        Err(ApplicationError::Domain(DomainError::InvalidFilePath(m))) => assert_eq!(m, "no Cargo.toml"),
        other => panic!("unexpected {other:?}"),
    }
    assert!(after_load(Ok(())).is_ok());
    assert!(matches!(
        after_load(Err(DomainError::MultipleEnclosingFunctions)),
        Err(ApplicationError::Domain(DomainError::MultipleEnclosingFunctions))
    ));
    let file = FilePath::new("/a.rs").unwrap();
    let ok = after_verification(Ok(VerificationResult {
        target: make_dummy_target(&file),
        verdict: VerificationVerdict::OutOfScope { reason: "dyn".into() },
    }))
    .unwrap();
    assert_eq!((ok.verdict.as_str(), ok.detail.as_deref()), ("out_of_scope", Some("dyn")));
    match after_verification(Err(DomainError::UnsupportedConstruct("CHARON launch failed".into()))) {
        Err(ApplicationError::Domain(DomainError::UnsupportedConstruct(m))) => {
            assert_eq!(m, "CHARON launch failed")
        }
        other => panic!("unexpected {other:?}"),
    }
}

#[test]
fn last_stage_decides_the_proof_verdict() {
    assert!(matches!(stage_verdict(true, "noise".into()), VerificationVerdict::Proved));
    match stage_verdict(false, "coqc: error".into()) {
        VerificationVerdict::PipelineFailed { detail } => assert_eq!(detail, "coqc: error"),
        other => panic!("unexpected {other:?}"),
    }
}
