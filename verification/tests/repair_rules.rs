use std::sync::Mutex;

use rem::errors::{DomainError, ExtractionFailure};
use rem::lifetime_repairer::{after_check, next_repair_step, LifetimeRepairer, RepairStep, MAX_REPAIR_ITERATIONS};
use rem::ports::{CompilerDiagnostic, LifetimeRepairPort, RepairOutcome};
use rem::value_objects::FilePath;

fn diag(code: &str, message: &str, span: Option<&str>) -> CompilerDiagnostic {
    CompilerDiagnostic {
        error_code: code.into(),
        message: message.into(),
        span_text: span.map(|s| s.to_string()),
        help_text: None,
    }
}

/// Rejects with the listed diagnostics, one answer per check, then accepts;
/// records every source it was asked to check.
struct Scripted {
    answers: Mutex<Vec<Vec<CompilerDiagnostic>>>,
    seen: Mutex<Vec<String>>,
}

impl Scripted {
    fn new(answers: Vec<Vec<CompilerDiagnostic>>) -> Self {
        Scripted { answers: Mutex::new(answers), seen: Mutex::new(vec![]) }
    }
}

impl LifetimeRepairPort for Scripted {
    fn check(&self, _: &str, _: &FilePath, patch: &str) -> Result<RepairOutcome, DomainError> {
        self.seen.lock().unwrap().push(patch.to_string());
        let mut answers = self.answers.lock().unwrap();
        if answers.is_empty() {
            Ok(RepairOutcome::Accepted)
        } else {
            Ok(RepairOutcome::Rejected { diagnostics: answers.remove(0) })
        }
    }
}

struct AlwaysRejects;
impl LifetimeRepairPort for AlwaysRejects {
    fn check(&self, _: &str, _: &FilePath, _: &str) -> Result<RepairOutcome, DomainError> {
        Ok(RepairOutcome::Rejected { diagnostics: vec![diag("E0499", "borrowed twice", None)] })
    }
}

struct Broken;
impl LifetimeRepairPort for Broken {
    fn check(&self, _: &str, _: &FilePath, _: &str) -> Result<RepairOutcome, DomainError> {
        Err(DomainError::InvalidFilePath("gone".into()))
    }
}

fn file() -> FilePath {
    FilePath::new("/dummy").unwrap()
}

#[test]
fn accepted_patch_is_returned_unchanged() {
    let port = Scripted::new(vec![]);
    let r = LifetimeRepairer::repair("/", &file(), "fn foo() {}".into(), &port, |_, _| {});
    assert_eq!(r.unwrap(), "fn foo() {}");
}

#[test]
fn heuristic_adds_fresh_lifetimes() {
    let port = Scripted::new(vec![
        vec![diag("E0106", "missing lifetime", None)],
        vec![diag("E0106", "missing lifetime", None)],
    ]);
    let mut seen_codes = vec![];
    let r = LifetimeRepairer::repair("/", &file(), "fn foo() {}".into(), &port, |i, c| {
        seen_codes.push((i, c.to_string()))
    });
    assert_eq!(r.unwrap(), "fn foo<'rem2, 'rem1>() {}");
    assert_eq!(
        *port.seen.lock().unwrap(),
        vec!["fn foo() {}".to_string(), "fn foo<'rem1>() {}".into(), "fn foo<'rem2, 'rem1>() {}".into()]
    );
    assert_eq!(seen_codes, vec![(1, "E0106".to_string()), (2, "E0106".to_string())]);
}

#[test]
fn missing_lifetime_annotates_the_named_parameter() {
    let port = Scripted::new(vec![vec![diag(
        "E0106",
        "`accumulator` is borrowed",
        None,
    )]]);
    let src = "fn f(accumulator: &mut i32) -> &i32 { accumulator }";
    let r = LifetimeRepairer::repair("/", &file(), src.into(), &port, |_, _| {});
    assert_eq!(r.unwrap(), "fn f(accumulator: &'rem1 mut i32) -> &i32 { accumulator }");
}

#[test]
fn missing_lifetime_takes_the_first_quoted_name() {
    let port = Scripted::new(vec![vec![diag("E0106", "borrowed from `a` or `b`", None)]]);
    let src = "fn f(a: &i32, b: &i32) -> &i32 { a }";
    let r = LifetimeRepairer::repair("/", &file(), src.into(), &port, |_, _| {});
    assert_eq!(r.unwrap(), "fn f(a: &'rem1 i32, b: &i32) -> &i32 { a }");
}

#[test]
fn missing_lifetime_skips_excluded_words() {
    let msg = "this function's return type contains a borrowed value, but the signature does not \
               say whether it is borrowed from `acc` or `m`";
    let port = Scripted::new(vec![vec![diag("E0106", msg, None)]]);
    let src = "fn f(acc: &mut i32) -> &i32 { acc }";
    let r = LifetimeRepairer::repair("/", &file(), src.into(), &port, |_, _| {});
    assert_eq!(r.unwrap(), "fn f(acc: &'rem1 mut i32) -> &i32 { acc }");
    let port = Scripted::new(vec![vec![diag("E0106", "expected `str` or `m`", None)]]);
    let src = "fn f(m: &i32) -> &i32 { m }";
    let r = LifetimeRepairer::repair("/", &file(), src.into(), &port, |_, _| {});
    assert_eq!(r.unwrap(), "fn f(m: &'rem1 i32) -> &i32 { m }");
}

#[test]
fn heuristic_ignores_angle_brackets_in_parameters() {
    let port = Scripted::new(vec![vec![diag("E0106", "missing lifetime", None)]]);
    let r = LifetimeRepairer::repair("/", &file(), "fn foo(x: Vec<u8>) {}".into(), &port, |_, _| {});
    assert_eq!(r.unwrap(), "fn foo<'rem1>(x: Vec<u8>) {}");
    let port = Scripted::new(vec![vec![diag("E0106", "missing lifetime", None)]]);
    let r = LifetimeRepairer::repair("/", &file(), "fn foo<T>(x: Vec<T>) {}".into(), &port, |_, _| {});
    assert_eq!(r.unwrap(), "fn foo<'rem1, T>(x: Vec<T>) {}");
}

#[test]
fn operator_on_references_gets_dereferenced() {
    let port = Scripted::new(vec![vec![diag("E0369", "cannot add", Some("a + b"))]]);
    let src = "fn f(a: &i32, b: &i32) -> i32 { a + b }";
    let r = LifetimeRepairer::repair("/", &file(), src.into(), &port, |_, _| {});
    assert_eq!(r.unwrap(), "fn f(a: &i32, b: &i32) -> i32 { *a + *b }");
}

#[test]
fn numbers_and_keywords_are_not_dereferenced() {
    let port = Scripted::new(vec![vec![diag("E0369", "cannot add", Some("for x in 2 + y"))]]);
    let src = "fn f(y: &i32) { for x in 2 + y {} }";
    let r = LifetimeRepairer::repair("/", &file(), src.into(), &port, |_, _| {});
    assert_eq!(r.unwrap(), "fn f(y: &i32) { for *x in 2 + *y {} }");
}

#[test]
fn first_actionable_diagnostic_wins() {
    let port = Scripted::new(vec![vec![
        diag("warning", "unused", None),
        diag("E0368", "cannot assign", Some("total += x")),
    ]]);
    let src = "fn f(total: &mut i32, x: &i32) { total += x; }";
    let r = LifetimeRepairer::repair("/", &file(), src.into(), &port, |_, _| {});
    assert_eq!(r.unwrap(), "fn f(total: &mut i32, x: &i32) { *total += *x; }");
}

#[test]
fn no_actionable_diagnostic_gives_up() {
    let port = Scripted::new(vec![vec![diag("W01", "lint", None)]]);
    let r = LifetimeRepairer::repair("/", &file(), "fn f() {}".into(), &port, |_, _| {});
    match r.unwrap_err() {
        ExtractionFailure::LifetimeRepairExhausted { iterations, last_error } => {
            assert_eq!(iterations, 1);
            assert_eq!(last_error, "no actionable diagnostic found");
        }
        other => panic!("unexpected {other:?}"),
    }
}

#[test]
fn budget_is_exhausted_after_twelve_checks() {
    let r = LifetimeRepairer::repair("/", &file(), "struct S;".into(), &AlwaysRejects, |_, _| {});
    match r.unwrap_err() {
        ExtractionFailure::LifetimeRepairExhausted { iterations, last_error } => {
            assert_eq!(iterations, MAX_REPAIR_ITERATIONS);
            assert_eq!(last_error, "budget exhausted");
        }
        other => panic!("unexpected {other:?}"),
    }
}

#[test]
fn port_error_is_an_analysis_failure() {
    let r = LifetimeRepairer::repair("/", &file(), "fn f() {}".into(), &Broken, |_, _| {});
    match r.unwrap_err() {
        ExtractionFailure::AnalysisFailed(m) => assert_eq!(m, "invalid file path: `gone`"),
        other => panic!("unexpected {other:?}"),
    }
}

#[test]
fn source_without_function_is_left_alone() {
    match next_repair_step("struct S;", 3, &RepairOutcome::Rejected {
        diagnostics: vec![diag("E0106", "x", None)],
    }) {
        RepairStep::Retry { patch, error_code } => {
            assert_eq!(patch, "struct S;");
            assert_eq!(error_code, "E0106");
        }
        other => panic!("unexpected {other:?}"),
    }
    assert!(matches!(next_repair_step("fn f() {}", 1, &RepairOutcome::Accepted), RepairStep::Accept));
}

#[test]
fn compiler_port_error_keeps_its_text() {
    assert!(matches!(after_check(Ok(RepairOutcome::Accepted)), Ok(RepairOutcome::Accepted)));
    match after_check(Err(DomainError::UnsupportedConstruct("cargo".into()))) {
        Err(ExtractionFailure::AnalysisFailed(m)) => {
            assert_eq!(m, "cannot extract: selection contains an unsupported Rust construct (cargo)")
        }
        other => panic!("unexpected {other:?}"),
    }
}
