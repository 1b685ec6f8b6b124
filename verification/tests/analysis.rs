use rem::analysis::{
    selection_analysis, AncestorFact, BindingFact, BoundFact, GenericParamFact, NameRefFact, NodeFact,
};
use rem::ownership_oracle::OwnershipOracle;
use rem::value_objects::{ByteRange, ControlFlowKind, OwnershipKind};

fn at(start: u32, end: u32) -> ByteRange {
    ByteRange { start, end }
}

/// A reference at `pos` to a local defined at `def`, used as `parent`
/// shows, whose references start at `uses`.
fn use_of(name: &str, pos: u32, def: Option<u32>, parent: &str, operator: &str, uses: &[u32]) -> NameRefFact {
    NameRefFact {
        name: name.into(),
        at: at(pos, pos + name.len() as u32),
        def: def.map(|d| at(d, d + name.len() as u32)),
        ty: "i32".into(),
        parent: parent.into(),
        operator: operator.into(),
        first_operand: true,
        mut_receiver: false,
        local_ref_starts: uses.to_vec(),
    }
}

#[test]
fn free_variables_are_used_inside_and_defined_outside() {
    let refs = vec![
        use_of("a", 12, Some(2), "BIN_EXPR", "+", &[12, 16]),
        use_of("b", 14, Some(4), "BIN_EXPR", "+", &[14]),
        use_of("a", 16, Some(2), "CALL_EXPR", "", &[12, 16]),
        use_of("c", 18, Some(11), "BIN_EXPR", "+", &[18]),
        use_of("d", 30, Some(2), "BIN_EXPR", "+", &[30]),
        use_of("f", 19, None, "BIN_EXPR", "+", &[]),
    ];
    let a = selection_analysis(at(10, 20), &refs, &vec![], &vec![], &vec![]);
    let names: Vec<_> = a.free_variables.iter().map(|v| (v.name.as_str(), v.ownership)).collect();
    assert_eq!(names, vec![("a", OwnershipKind::SharedRef), ("b", OwnershipKind::SharedRef)]);
    assert!(a.output_variables.is_empty());
    assert!(a.control_flow_exits.is_empty());
    assert!(!a.is_async && !a.is_const && a.referenced_generics.is_empty());
}

#[test]
fn ownership_follows_the_uses() {
    // `accumulator += multiplier;` inside 100..200, `accumulator` read at 250.
    let mut push_receiver = use_of("v", 140, Some(5), "METHOD_CALL_EXPR", "", &[140, 260]);
    push_receiver.mut_receiver = true;
    let mut read_receiver = use_of("s", 150, Some(8), "METHOD_CALL_EXPR", "", &[150]);
    read_receiver.mut_receiver = false;
    let mut multiplier = use_of("multiplier", 125, Some(3), "BIN_EXPR", "+=", &[125]);
    multiplier.first_operand = false;
    let refs = vec![
        use_of("accumulator", 110, Some(2), "BIN_EXPR", "+=", &[110, 250]),
        multiplier,
        use_of("counter", 130, Some(4), "BIN_EXPR", "-=", &[130]),
        push_receiver,
        read_receiver,
        use_of("val", 160, Some(6), "LET_STMT", "", &[160]),
        use_of("kept", 170, Some(7), "ARG_LIST", "", &[170, 270]),
        use_of("borrowed", 180, Some(9), "REF_EXPR", "&mut", &[180, 280]),
    ];
    let a = selection_analysis(at(100, 200), &refs, &vec![], &vec![], &vec![]);
    let kinds: Vec<_> = a.free_variables.iter().map(|v| (v.name.as_str(), v.ownership)).collect();
    assert_eq!(
        kinds,
        vec![
            ("accumulator", OwnershipKind::MutRef),
            ("multiplier", OwnershipKind::SharedRef),
            ("counter", OwnershipKind::Owned),
            ("v", OwnershipKind::MutRef),
            ("s", OwnershipKind::SharedRef),
            ("val", OwnershipKind::Owned),
            ("kept", OwnershipKind::SharedRef),
            ("borrowed", OwnershipKind::MutRef),
        ]
    );
    // The oracle keeps what the uses decided.
    let refined: Vec<_> = OwnershipOracle::refine(&a).iter().map(|v| v.ownership).collect();
    assert_eq!(refined, a.free_variables.iter().map(|v| v.ownership).collect::<Vec<_>>());
}

#[test]
fn outputs_are_bound_inside_and_used_after() {
    let binds = vec![
        BindingFact { name: "x".into(), at: at(12, 13), ty: "u8".into(), ref_starts: vec![15, 25] },
        BindingFact { name: "y".into(), at: at(14, 15), ty: "u8".into(), ref_starts: vec![16] },
        BindingFact { name: "z".into(), at: at(5, 6), ty: "u8".into(), ref_starts: vec![40] },
        BindingFact { name: "w".into(), at: at(16, 17), ty: "bool".into(), ref_starts: vec![20] },
    ];
    let a = selection_analysis(at(10, 20), &vec![], &binds, &vec![], &vec![]);
    let outs: Vec<_> = a.output_variables.iter().map(|o| (o.name.as_str(), o.ty.as_str())).collect();
    assert_eq!(outs, vec![("x", "u8"), ("w", "bool")]);
}

fn ancestor(kind: &str, label: Option<&str>, range: ByteRange) -> AncestorFact {
    AncestorFact { kind: kind.into(), label: label.map(|l| l.to_string()), range }
}

#[test]
fn exits_leave_the_selection_once_each() {
    let outer_loop = ancestor("LOOP_EXPR", Some("'outer"), at(0, 30));
    let inner_loop = ancestor("WHILE_EXPR", None, at(11, 19));
    let nodes = vec![
        NodeFact::Other,
        // targets the inner loop, which lies inside: no exit
        NodeFact::Break { at: at(12, 17), label: None, ancestors: vec![inner_loop.clone(), outer_loop.clone()] },
        // ends after the selection: not inside
        NodeFact::Continue { at: at(13, 21), label: None, ancestors: vec![outer_loop.clone()] },
        // labelled: skips the inner loop, leaves to the outer one
        NodeFact::Continue {
            at: at(12, 16),
            label: Some("'outer".into()),
            ancestors: vec![inner_loop.clone(), ancestor("BLOCK_EXPR", None, at(10, 20)), outer_loop.clone()],
        },
        NodeFact::Return(at(14, 18)),
        // a closure inside the selection comes first: the jump stays in it
        NodeFact::Break {
            at: at(15, 16),
            label: None,
            ancestors: vec![ancestor("CLOSURE_EXPR", None, at(14, 18)), outer_loop.clone()],
        },
        NodeFact::Break { at: at(15, 16), label: None, ancestors: vec![outer_loop.clone()] },
        NodeFact::Return(at(16, 19)),
        NodeFact::Return(at(25, 28)),
        NodeFact::Await(at(22, 26)),
    ];
    let a = selection_analysis(at(10, 20), &vec![], &vec![], &nodes, &vec![]);
    assert_eq!(
        a.control_flow_exits,
        vec![ControlFlowKind::Continue, ControlFlowKind::Return, ControlFlowKind::Break]
    );
    assert!(!a.is_async);
    let a = selection_analysis(at(20, 30), &vec![], &vec![], &nodes, &vec![]);
    assert!(a.is_async);
    assert_eq!(a.control_flow_exits, vec![ControlFlowKind::Return]);
}

#[test]
fn used_generics_are_forwarded_with_their_own_bounds() {
    // fn print_val<T: MyTrait + Copy, U: Copy, V>(val: T) { let _x = val; }
    let mut val = use_of("val", 50, Some(30), "LET_STMT", "", &[50]);
    val.ty = "T".into();
    let gens = vec![
        GenericParamFact {
            name: "T".into(),
            bounds: vec![
                BoundFact { text: "MyTrait".into(), local: true },
                BoundFact { text: "Copy".into(), local: false },
            ],
            uses: vec![at(35, 36)],
        },
        GenericParamFact {
            name: "U".into(),
            bounds: vec![BoundFact { text: "Copy".into(), local: false }],
            uses: vec![at(52, 53)],
        },
        GenericParamFact { name: "V".into(), bounds: vec![], uses: vec![at(80, 81)] },
        GenericParamFact { name: "Tx".into(), bounds: vec![], uses: vec![] },
    ];
    let a = selection_analysis(at(40, 60), &vec![val], &vec![], &vec![], &gens);
    assert_eq!(a.free_variables[0].ownership, OwnershipKind::Owned);
    assert_eq!(a.referenced_generics, vec!["T: MyTrait".to_string(), "U".into()]);
}
