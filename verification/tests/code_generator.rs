use rem::adapters::SyntaxRewriteAdapter;
use rem::code_generator::CodeGenerator;
use rem::control_flow_analyzer::{pascal, ControlFlowAnalyzer};
use rem::deref_rewrite::{rewrite_body_with_derefs, rewrite_from_walk, DerefRule};
use rem::syntax::SyntaxStep;
use rem::ownership_oracle::OwnershipOracle;
use rem::ports::{FreeVariable, OutputVariable, SelectionAnalysis, SyntaxRewritePort};
use rem::value_objects::{ControlFlowKind, FunctionName, OwnershipKind};

fn var(name: &str, ty: &str, ownership: OwnershipKind) -> FreeVariable {
    FreeVariable { name: name.into(), ty: ty.into(), ownership }
}

fn out(name: &str, ty: &str) -> OutputVariable {
    OutputVariable { name: name.into(), ty: ty.into() }
}

fn analysis(
    free: Vec<FreeVariable>,
    outs: Vec<OutputVariable>,
    exits: Vec<ControlFlowKind>,
) -> SelectionAnalysis {
    SelectionAnalysis {
        free_variables: free,
        output_variables: outs,
        control_flow_exits: exits,
        is_async: false,
        is_const: false,
        referenced_generics: vec![],
    }
}

#[test]
fn generates_signature_call_and_derefs() {
    let vars = vec![
        var("a", "i32", OwnershipKind::Owned),
        var("b", "Vec<i32>", OwnershipKind::SharedRef),
        var("c", "&'a str", OwnershipKind::MutRef),
    ];
    let a = analysis(vars.clone(), vec![out("x", "i32")], vec![]);
    let name = FunctionName::new("foo").unwrap();
    let g = CodeGenerator::generate(&name, "let x = a + b.len() as i32;", &a, &vars, None);
    assert_eq!(
        g.extracted_fn_source,
        "fn foo<'a>(a: i32, b: &Vec<i32>, c: &mut &'a str) -> i32 {\nlet x = a + *b.len() as i32;\nx\n}"
    );
    assert_eq!(g.call_site_replacement, "let x = foo(a, &b, &mut c);");
    assert!(g.cf_enum_source.is_none());
}

#[test]
fn several_outputs_become_a_tuple() {
    let a = analysis(vec![], vec![out("x", "i32"), out("y", "bool")], vec![]);
    let name = FunctionName::new("pair").unwrap();
    let g = CodeGenerator::generate(&name, "let x = 1; let y = true;", &a, &[], None);
    assert_eq!(g.extracted_fn_source, "fn pair() -> (i32, bool) {\nlet x = 1; let y = true;\n(x, y)\n}");
    assert_eq!(g.call_site_replacement, "let (x, y) = pair();");
}

#[test]
fn async_and_const_qualify_the_function() {
    let mut a = analysis(vec![], vec![], vec![]);
    a.is_async = true;
    a.is_const = true;
    a.referenced_generics = vec!["T".into()];
    let name = FunctionName::new("step").unwrap();
    let g = CodeGenerator::generate(&name, "work().await;", &a, &[], None);
    assert_eq!(g.extracted_fn_source, "const async fn step<T>() {\nwork().await;\n}");
    assert_eq!(g.call_site_replacement, "step().await;");
}

#[test]
fn lifetimes_are_collected_once_before_generics() {
    let vars = vec![
        var("p", "&'a Foo<'b>", OwnershipKind::Owned),
        var("q", "&'static Bar<'a>", OwnershipKind::Owned),
    ];
    let mut a = analysis(vars.clone(), vec![], vec![]);
    a.referenced_generics = vec!["T".into()];
    let name = FunctionName::new("f").unwrap();
    let g = CodeGenerator::generate(&name, "use_it(p, q);", &a, &vars, None);
    assert_eq!(
        g.extracted_fn_source,
        "fn f<'a, 'b, T>(p: &'a Foo<'b>, q: &'static Bar<'a>) {\nuse_it(p, q);\n}"
    );
}

#[test]
fn control_flow_plan_wraps_the_call() {
    let a = analysis(vec![], vec![], vec![ControlFlowKind::Return, ControlFlowKind::Try]);
    let plan = ControlFlowAnalyzer::plan(&a, "do_it", 0).unwrap().unwrap();
    assert_eq!(plan.enum_name, "DoItCf0");
    assert_eq!(
        plan.enum_definition,
        "#[allow(dead_code)]\nenum DoItCf0<T, R, E> {\n    Normal(T),\n    Return(R),\n    Err(E)\n}"
    );
    assert_eq!(
        plan.caller_match,
        "match result {\n    DoItCf0::Normal(v) => v,\n    DoItCf0::Return(r) => return r,\n    DoItCf0::Err(e) => return Err(e),\n}"
    );
    let name = FunctionName::new("do_it").unwrap();
    let g = CodeGenerator::generate(&name, "x?;", &a, &[], Some(&plan));
    assert_eq!(
        g.call_site_replacement,
        format!("let _ = {{\n    let result = do_it();\n    {}\n}};", plan.caller_match)
    );
    assert_eq!(g.cf_enum_source.as_deref(), Some(plan.enum_definition.as_str()));
}

#[test]
fn break_and_continue_variants_and_serial() {
    let a = analysis(vec![], vec![], vec![ControlFlowKind::Break, ControlFlowKind::Continue]);
    let plan = ControlFlowAnalyzer::plan(&a, "scan", 17).unwrap().unwrap();
    assert_eq!(plan.enum_name, "ScanCf17");
    assert_eq!(
        plan.enum_definition,
        "#[allow(dead_code)]\nenum ScanCf17<T> {\n    Normal(T),\n    Break,\n    Continue\n}"
    );
    assert_eq!(
        plan.caller_match,
        "match result {\n    ScanCf17::Normal(v) => v,\n    ScanCf17::Break => break,\n    ScanCf17::Continue => continue,\n}"
    );
}

#[test]
fn pascal_drops_underscores() {
    assert_eq!(pascal("__a__b_c"), "ABC");
    assert_eq!(pascal(""), "");
    assert_eq!(pascal("x1_y2"), "X1Y2");
}

#[test]
fn moved_variables_keep_the_body() {
    let vars = vec![var("a", "i32", OwnershipKind::Owned)];
    assert_eq!(rewrite_body_with_derefs("  a + 1\n", &vars), "  a + 1\n");
}

#[test]
fn referenced_variables_are_dereferenced_everywhere() {
    let vars = vec![var("b", "i32", OwnershipKind::SharedRef)];
    assert_eq!(rewrite_body_with_derefs("\n  *b + b \n", &vars), "*b + *b");
    assert_eq!(rewrite_body_with_derefs("let c = b;", &vars), "let c = *b;");
}

#[test]
fn names_already_under_star_are_kept() {
    let vars = vec![var("y", "i32", OwnershipKind::MutRef)];
    assert_eq!(rewrite_body_with_derefs("*y = 1;", &vars), "*y = 1;");
    assert_eq!(rewrite_body_with_derefs("y = 1;", &vars), "*y = 1;");
}

#[test]
fn field_and_method_names_are_not_variables() {
    let vars = vec![var("y", "i32", OwnershipKind::SharedRef)];
    assert_eq!(rewrite_body_with_derefs("s.y;", &vars), "s.y;");
    let names = vec!["y".to_string()];
    assert_eq!(SyntaxRewriteAdapter.rewrite_body_with_derefs("s.y;", &names), "s.y;");
    assert_eq!(SyntaxRewriteAdapter.rewrite_body_with_derefs("s.y(y);", &names), "s.y(*y);");
}

#[test]
fn rewrite_adapter_skips_receivers_and_derefs() {
    let names = vec!["b".to_string()];
    assert_eq!(
        SyntaxRewriteAdapter.rewrite_body_with_derefs("b.push(1); *b = 2; foo(b);", &names),
        "b.push(1); *b = 2; foo(*b);"
    );
    assert_eq!(SyntaxRewriteAdapter.rewrite_body_with_derefs(" x ", &[]), " x ");
}

#[test]
fn refining_twice_changes_nothing() {
    let a = analysis(
        vec![var("x", "i32", OwnershipKind::Owned), var("y", "i32", OwnershipKind::Owned)],
        vec![out("x", "i32")],
        vec![],
    );
    let once = OwnershipOracle::refine(&a);
    assert_eq!(once[0].ownership, OwnershipKind::MutRef);
    assert_eq!(once[1].ownership, OwnershipKind::Owned);
    let again = OwnershipOracle::refine(&SelectionAnalysis { free_variables: once.clone(), ..a });
    assert_eq!(again[0].ownership, once[0].ownership);
    assert_eq!(again[1].ownership, once[1].ownership);
}

fn step(enter: bool, is_node: bool, kind: &str, text: &str) -> SyntaxStep {
    SyntaxStep { enter, is_node, kind: kind.into(), text: text.into() }
}

/// The walk of `fn f() {x}` trimmed to the elements the rewrite looks at.
fn walk_of_bare_name() -> Vec<SyntaxStep> {
    let mut v = vec![];
    for (kind, text) in [("SOURCE_FILE", "fn f() {x}"), ("FN", "fn f() {x}"), ("BLOCK_EXPR", "{x}")] {
        v.push(step(true, true, kind, text));
    }
    v.push(step(true, false, "L_CURLY", "{"));
    v.push(step(false, false, "L_CURLY", "{"));
    for kind in ["PATH_EXPR", "PATH", "PATH_SEGMENT", "NAME_REF"] {
        v.push(step(true, true, kind, "x"));
    }
    v.push(step(true, false, "IDENT", "x"));
    v.push(step(false, false, "IDENT", "x"));
    for kind in ["NAME_REF", "PATH_SEGMENT", "PATH", "PATH_EXPR"] {
        v.push(step(false, true, kind, "x"));
    }
    v.push(step(true, false, "R_CURLY", "}"));
    v.push(step(false, false, "R_CURLY", "}"));
    for (kind, text) in [("BLOCK_EXPR", "{x}"), ("FN", "fn f() {x}"), ("SOURCE_FILE", "fn f() {x}")] {
        v.push(step(false, true, kind, text));
    }
    v
}

#[test]
fn rewrite_from_a_given_walk() {
    let walk = walk_of_bare_name();
    let x = vec!["x".to_string()];
    let y = vec!["y".to_string()];
    assert_eq!(rewrite_from_walk(&walk, &x, DerefRule::PathUnderDeref).as_deref(), Some("*x"));
    assert_eq!(rewrite_from_walk(&walk, &x, DerefRule::PathExprContext).as_deref(), Some("*x"));
    assert_eq!(rewrite_from_walk(&walk, &y, DerefRule::PathUnderDeref).as_deref(), Some("x"));
    assert_eq!(rewrite_from_walk(&walk[3..].to_vec(), &x, DerefRule::PathUnderDeref), None);
}

#[test]
fn single_output_is_the_tail_expression() {
    let a = analysis(vec![], vec![out("r", "i32")], vec![]);
    let name = FunctionName::new("f").unwrap();
    let g = CodeGenerator::generate(&name, "let r = 1;", &a, &[], None);
    assert_eq!(g.extracted_fn_source, "fn f() -> i32 {\nlet r = 1;\nr\n}");
    assert_eq!(g.call_site_replacement, "let r = f();");
}

#[test]
fn returning_selection_gets_its_enum() {
    let a = analysis(vec![], vec![], vec![ControlFlowKind::Return]);
    let cf = ControlFlowAnalyzer::plan(&a, "f", 0).unwrap().unwrap();
    let name = FunctionName::new("f").unwrap();
    let g = CodeGenerator::generate(&name, "return;", &a, &[], Some(&cf));
    assert_eq!(
        g.call_site_replacement,
        "let _ = {\n    let result = f();\n    match result {\n    FCf0::Normal(v) => v,\n    FCf0::Return(r) => return r,\n}\n};"
    );
    assert_eq!(
        g.cf_enum_source.as_deref(),
        Some("#[allow(dead_code)]\nenum FCf0<T, R> {\n    Normal(T),\n    Return(R)\n}")
    );
    assert_eq!(g.extracted_fn_source, "fn f() {\nreturn;\n}");
}

#[test]
fn forwarded_generics_declare_the_function_only() {
    let vars = vec![var("val", "T", OwnershipKind::Owned)];
    let mut a = analysis(vars.clone(), vec![], vec![]);
    a.referenced_generics = vec!["T: MyTrait".into()];
    let name = FunctionName::new("do_print").unwrap();
    let g = CodeGenerator::generate(&name, "let _x = val;", &a, &vars, None);
    assert_eq!(g.extracted_fn_source, "fn do_print<T: MyTrait>(val: T) {\nlet _x = val;\n}");
    assert_eq!(g.call_site_replacement, "do_print(val);");
}
