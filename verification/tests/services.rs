use rem::control_flow_analyzer::{pascal, ControlFlowAnalyzer};
use rem::ownership_oracle::OwnershipOracle;
use rem::ports::{FreeVariable, OutputVariable, SelectionAnalysis};
use rem::value_objects::{ControlFlowKind, OwnershipKind};

fn empty_analysis(exits: Vec<ControlFlowKind>) -> SelectionAnalysis {
    SelectionAnalysis {
        free_variables: vec![],
        output_variables: vec![],
        control_flow_exits: exits,
        is_async: false,
        is_const: false,
        referenced_generics: vec![],
    }
}

fn make_var(name: &str, ownership: OwnershipKind) -> FreeVariable {
    FreeVariable { name: name.into(), ty: "i32".into(), ownership }
}

#[test]
fn no_exits_returns_none() {
    let result = ControlFlowAnalyzer::plan(&empty_analysis(vec![]), "foo", 0).unwrap();
    assert!(result.is_none());
}

#[test]
fn return_exit_produces_enum() {
    let result = ControlFlowAnalyzer::plan(
        &empty_analysis(vec![ControlFlowKind::Return]),
        "compute_value",
        0,
    )
    .unwrap()
    .unwrap();
    assert!(result.enum_definition.contains("Return(R)"));
    assert!(result.caller_match.contains("return r"));
    assert_eq!(result.enum_name, "ComputeValueCf0");
}

#[test]
fn pascal_conversion() {
    assert_eq!(pascal("compute_value"), "ComputeValue");
    assert_eq!(pascal("foo"), "Foo");
}

#[test]
fn mutated_and_used_after_becomes_mut_ref() {
    let analysis = SelectionAnalysis {
        free_variables: vec![make_var("x", OwnershipKind::Owned)],
        output_variables: vec![OutputVariable { name: "x".into(), ty: "i32".into() }],
        control_flow_exits: vec![],
        is_async: false,
        is_const: false,
        referenced_generics: vec![],
    };
    let refined = OwnershipOracle::refine(&analysis);
    assert_eq!(refined[0].ownership, OwnershipKind::MutRef);
}

#[test]
fn read_only_stays_shared_ref() {
    let analysis = SelectionAnalysis {
        free_variables: vec![make_var("y", OwnershipKind::SharedRef)],
        output_variables: vec![],
        control_flow_exits: vec![],
        is_async: false,
        is_const: false,
        referenced_generics: vec![],
    };
    let refined = OwnershipOracle::refine(&analysis);
    assert_eq!(refined[0].ownership, OwnershipKind::SharedRef);
}

#[test]
fn moved_and_not_used_after_stays_moved() {
    let analysis = SelectionAnalysis {
        free_variables: vec![make_var("x", OwnershipKind::Owned), make_var("y", OwnershipKind::MutRef)],
        output_variables: vec![],
        control_flow_exits: vec![],
        is_async: false,
        is_const: false,
        referenced_generics: vec![],
    };
    let refined = OwnershipOracle::refine(&analysis);
    assert_eq!(refined[0].ownership, OwnershipKind::Owned);
    assert_eq!(refined[1].ownership, OwnershipKind::MutRef);
}
