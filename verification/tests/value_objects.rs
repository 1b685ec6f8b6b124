use rem::entities::ExtractionTarget;
use rem::errors::{ApplicationError, DomainError, ExtractionFailure};
use rem::value_objects::{ByteRange, FilePath, FunctionName, LifetimeParameter};

#[test]
fn file_path_rejects_empty_text() {
    assert_eq!(FilePath::new("").unwrap_err(), DomainError::InvalidFilePath(String::new()));
    assert_eq!(FilePath::new("/src/lib.rs").unwrap().as_str(), "/src/lib.rs");
}

#[test]
fn byte_range_needs_start_before_end() {
    assert_eq!(ByteRange::new(3, 3).unwrap_err(), DomainError::EmptySelectionRange);
    assert_eq!(ByteRange::new(5, 2).unwrap_err(), DomainError::EmptySelectionRange);
    let r = ByteRange::new(1, 4).unwrap();
    assert!(!r.is_empty());
    assert_eq!(r.len(), 3);
    assert!(r.contains(1));
    assert!(r.contains(3));
    assert!(!r.contains(4));
    assert!(!r.contains(0));
}

#[test]
fn function_name_is_an_ascii_identifier() {
    assert_eq!(FunctionName::new("_ok9").unwrap().as_str(), "_ok9");
    assert_eq!(FunctionName::new("compute_sum").unwrap().as_str(), "compute_sum");
    assert_eq!(
        FunctionName::new("1abc").unwrap_err(),
        DomainError::InvalidFunctionName("1abc".into())
    );
    assert!(FunctionName::new("").is_err());
    assert!(FunctionName::new("a-b").is_err());
    assert!(FunctionName::new("héllo").is_err());
}

#[test]
fn lifetime_parameter_starts_with_a_quote() {
    assert_eq!(LifetimeParameter::new("'a").unwrap().as_str(), "'a");
    assert_eq!(
        LifetimeParameter::new("a").unwrap_err(),
        DomainError::InvalidLifetimeParameter("a".into())
    );
    assert!(LifetimeParameter::new("'").is_err());
    assert_eq!(LifetimeParameter::static_lifetime().as_str(), "'static");
}

#[test]
fn extraction_target_refuses_an_empty_range() {
    let file = FilePath::new("/f.rs").unwrap();
    let name = FunctionName::new("f").unwrap();
    let inverted = ByteRange { start: 4, end: 2 };
    assert_eq!(
        ExtractionTarget::new(file.clone(), inverted, name.clone()).unwrap_err(),
        DomainError::EmptySelectionRange
    );
    let t = ExtractionTarget::new(file, ByteRange::new(2, 4).unwrap(), name).unwrap();
    assert_eq!(t.range, ByteRange { start: 2, end: 4 });
}

#[test]
fn error_messages() {
    assert_eq!(DomainError::EmptySelectionRange.message(), "selection range is empty or inverted");
    assert_eq!(DomainError::InvalidFilePath("x".into()).message(), "invalid file path: `x`");
    assert_eq!(
        DomainError::InvalidFunctionName("1a".into()).message(),
        "invalid function name: `1a` is not a legal Rust identifier"
    );
    assert_eq!(
        DomainError::InvalidLifetimeParameter("a".into()).message(),
        "invalid lifetime parameter: `a` (must start with `'`)"
    );
    assert_eq!(
        DomainError::IncompleteStatementList.message(),
        "selected range does not form a syntactically complete statement list"
    );
    assert_eq!(
        DomainError::MultipleEnclosingFunctions.message(),
        "selected range spans multiple functions"
    );
    assert_eq!(
        DomainError::UnsupportedConstruct("asm".into()).message(),
        "cannot extract: selection contains an unsupported Rust construct (asm)"
    );
    assert_eq!(ExtractionFailure::PreFlight("p".into()).message(), "pre-flight: p");
    assert_eq!(
        ExtractionFailure::LifetimeRepairExhausted { iterations: 12, last_error: "x".into() }
            .message(),
        "lifetime repair exhausted after 12 iterations: x"
    );
    assert_eq!(
        ExtractionFailure::ControlFlowReificationFailed("c".into()).message(),
        "cannot reify control flow: c"
    );
    assert_eq!(
        ExtractionFailure::AnalysisFailed("a".into()).message(),
        "rust-analyzer analysis failed: a"
    );
    assert_eq!(
        ExtractionFailure::CargoCheckFailed("k".into()).message(),
        "cargo check failed after extraction: k"
    );
    assert_eq!(ApplicationError::InvalidInput("i".into()).message(), "invalid input: i");
    assert_eq!(
        ApplicationError::Domain(DomainError::EmptySelectionRange).message(),
        "domain error: selection range is empty or inverted"
    );
    assert_eq!(
        ApplicationError::Infrastructure("disk".into()).message(),
        "infrastructure error: disk"
    );
}
