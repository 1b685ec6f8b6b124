use rem::errors::DomainError;
use rem::lifetime_repairer::LifetimeRepairer;
use rem::ports::{CompilerDiagnostic, LifetimeRepairPort, RepairOutcome};
use rem::value_objects::FilePath;

struct AlwaysAccepts;
impl LifetimeRepairPort for AlwaysAccepts {
    fn check(&self, _: &str, _: &FilePath, _: &str) -> Result<RepairOutcome, DomainError> {
        Ok(RepairOutcome::Accepted)
    }
}

struct AcceptsAfter(std::sync::atomic::AtomicU32);
impl LifetimeRepairPort for AcceptsAfter {
    fn check(&self, _: &str, _: &FilePath, _: &str) -> Result<RepairOutcome, DomainError> {
        let n = self.0.fetch_add(1, std::sync::atomic::Ordering::Relaxed);
        if n < 2 {
            Ok(RepairOutcome::Rejected {
                diagnostics: vec![CompilerDiagnostic {
                    error_code: "E0106".into(),
                    message: "missing lifetime".into(),
                    span_text: None,
                    help_text: None,
                }],
            })
        } else {
            Ok(RepairOutcome::Accepted)
        }
    }
}

#[test]
fn accepts_immediately() {
    let dummy_file = FilePath::new("/dummy").unwrap();
    let result = LifetimeRepairer::repair("/", &dummy_file, "fn foo() {}".into(), &AlwaysAccepts, |_, _| {});
    assert!(result.is_ok());
}

#[test]
fn accepts_after_two_rejections() {
    let dummy_file = FilePath::new("/dummy").unwrap();
    let port = AcceptsAfter(std::sync::atomic::AtomicU32::new(0));
    let result = LifetimeRepairer::repair("/", &dummy_file, "fn foo() {}".into(), &port, |_, _| {});
    assert!(result.is_ok());
}
