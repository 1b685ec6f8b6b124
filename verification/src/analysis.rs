//! The semantic picture of a selection, decided from plain facts that a
//! code-analysis backend gathers about the file: the name references, their
//! definitions and the syntax around them, the bindings and their later
//! uses, the nodes that jump, return or await, and the generic parameters
//! of the enclosing function.

use vstd::prelude::*;
use crate::ports::{FreeVariable, OutputVariable, SelectionAnalysis};
use crate::text::{ascii_alnum, chars_of, is_ascii_alnum, join, join_strings, owned, push_str, views};
use crate::value_objects::{ByteRange, ControlFlowKind, OwnershipKind};

verus! {

/// A name reference that resolves to a local variable, with the syntax
/// around it that tells how it is used.
#[derive(Debug, Clone)]
pub struct NameRefFact {
    pub name: String,
    /// Where the reference stands.
    pub at: ByteRange,
    /// Where the local it resolves to is defined; `None` when the name is
    /// not a local.
    pub def: Option<ByteRange>,
    /// The local's type, as text.
    pub ty: String,
    /// The kind (its `SyntaxKind` variant, such as `BIN_EXPR`) of the node
    /// that holds the reference's path expression; empty when the name is
    /// not a path expression.
    pub parent: String,
    /// The operator of that node when it is a binary, prefix or reference
    /// expression (`+=`, `-`, `&mut`); empty otherwise.
    pub operator: String,
    /// The path expression is that node's first operand (the left side of
    /// a binary expression, the receiver of a method call).
    pub first_operand: bool,
    /// That node is a method call whose method takes `&mut self`.
    pub mut_receiver: bool,
    /// Start offsets of all the references to the local in the file.
    pub local_ref_starts: Vec<u32>,
}

/// A binding (`let x`, a pattern) and the offsets of its references.
#[derive(Debug, Clone)]
pub struct BindingFact {
    pub name: String,
    /// Where the bound name stands.
    pub at: ByteRange,
    /// The binding's type, as text.
    pub ty: String,
    /// Start offsets of the references to the binding in the same file.
    pub ref_starts: Vec<u32>,
}

/// A syntax node that matters for control flow or asynchrony.
#[derive(Debug, Clone)]
pub enum NodeFact {
    Return(ByteRange),
    /// A `break`, with its label and its ancestors, innermost first.
    Break { at: ByteRange, label: Option<String>, ancestors: Vec<AncestorFact> },
    /// A `continue`, with its label and its ancestors, innermost first.
    Continue { at: ByteRange, label: Option<String>, ancestors: Vec<AncestorFact> },
    Await(ByteRange),
    Other,
}

/// An enclosing node of a jump.
#[derive(Debug, Clone)]
pub struct AncestorFact {
    /// Its kind, as its `SyntaxKind` variant (`LOOP_EXPR`, `FN`).
    pub kind: String,
    /// The label of a loop or block (`'outer`), when it has one.
    pub label: Option<String>,
    pub range: ByteRange,
}

/// A generic parameter of the enclosing function.
#[derive(Debug, Clone)]
pub struct GenericParamFact {
    pub name: String,
    /// Its trait bounds, in order.
    pub bounds: Vec<BoundFact>,
    /// Where it is referenced in the file.
    pub uses: Vec<ByteRange>,
}

/// A trait bound of a generic parameter.
#[derive(Debug, Clone)]
pub struct BoundFact {
    /// The bound as written (`MyTrait`).
    pub text: String,
    /// The trait is declared in the crate being edited.
    pub local: bool,
}

/// `inner` lies within `outer`.
pub open spec fn range_contains(outer: ByteRange, inner: ByteRange) -> bool {
    outer.start <= inner.start && inner.end <= outer.end
}

/// A reference inside the selection to a local defined outside it.
pub open spec fn is_free_ref(range: ByteRange, f: NameRefFact) -> bool {
    &&& range_contains(range, f.at)
    &&& f.def matches Some(d) && !range_contains(range, d)
}

/// The free variable a reference brings, before its uses decide how it is
/// passed.
pub open spec fn free_var_of(f: NameRefFact) -> FreeVariable {
    FreeVariable { name: f.name, ty: f.ty, ownership: OwnershipKind::SharedRef }
}

/// Some free variable of `vars` has this name.
pub open spec fn has_free_name(vars: Seq<FreeVariable>, name: Seq<char>) -> bool {
    exists|k: int| 0 <= k < vars.len() && (#[trigger] vars[k]).name@ == name
}

/// The locals defined outside the selection and used inside it: one per
/// name, in the order of the first free reference to it.
pub open spec fn free_locals_of(range: ByteRange, refs: Seq<NameRefFact>) -> Seq<FreeVariable>
    decreases refs.len(),
{
    if refs.len() == 0 {
        Seq::empty()
    } else {
        let prev = free_locals_of(range, refs.drop_last());
        let f = refs.last();
        if is_free_ref(range, f) && !has_free_name(prev, f.name@) {
            prev.push(free_var_of(f))
        } else {
            prev
        }
    }
}

/// An assignment operator, plain or compound.
pub open spec fn is_assign_op(op: Seq<char>) -> bool {
    op == "="@ || op == "+="@ || op == "-="@ || op == "*="@ || op == "/="@ || op == "%="@ || op
        == "&="@ || op == "|="@ || op == "^="@ || op == "<<="@ || op == ">>="@
}

/// The reference mutates its local: it is assigned to, borrowed `&mut`,
/// or the receiver of a method taking `&mut self`.
pub open spec fn writes(f: NameRefFact) -> bool {
    ||| f.parent@ == "BIN_EXPR"@ && f.first_operand && is_assign_op(f.operator@)
    ||| f.parent@ == "REF_EXPR"@ && f.operator@ == "&mut"@
    ||| f.parent@ == "METHOD_CALL_EXPR"@ && f.first_operand && f.mut_receiver
}

/// The reference hands its local over by value: it is the whole value of
/// a `let`, an argument, a returned value, a field value or an element of
/// a tuple or array.
pub open spec fn moves(f: NameRefFact) -> bool {
    f.parent@ == "LET_STMT"@ || f.parent@ == "ARG_LIST"@ || f.parent@ == "RETURN_EXPR"@ || f.parent@
        == "RECORD_EXPR_FIELD"@ || f.parent@ == "TUPLE_EXPR"@ || f.parent@ == "ARRAY_EXPR"@
}

/// The local is referenced at or after the end of the selection.
pub open spec fn used_after(range: ByteRange, f: NameRefFact) -> bool {
    exists|m: int| 0 <= m < f.local_ref_starts@.len() && (#[trigger] f.local_ref_starts@[m]) >= range.end
}

/// A free reference to a local of this name.
pub open spec fn free_ref_named(range: ByteRange, f: NameRefFact, name: Seq<char>) -> bool {
    is_free_ref(range, f) && f.name@ == name
}

/// Some free reference to the name mutates it.
pub open spec fn written_in(range: ByteRange, refs: Seq<NameRefFact>, name: Seq<char>) -> bool {
    exists|k: int| 0 <= k < refs.len() && free_ref_named(range, #[trigger] refs[k], name) && writes(refs[k])
}

/// Some free reference to the name hands it over by value.
pub open spec fn moved_in(range: ByteRange, refs: Seq<NameRefFact>, name: Seq<char>) -> bool {
    exists|k: int| 0 <= k < refs.len() && free_ref_named(range, #[trigger] refs[k], name) && moves(refs[k])
}

/// The local of that name is used after the selection.
pub open spec fn live_after(range: ByteRange, refs: Seq<NameRefFact>, name: Seq<char>) -> bool {
    exists|k: int| 0 <= k < refs.len() && free_ref_named(range, #[trigger] refs[k], name) && used_after(range, refs[k])
}

/// How a free local is passed, by its uses: one mutated inside is passed
/// by `&mut` when it is used after the selection and moved otherwise; one
/// handed over by value is moved, or shared when it is used after; one
/// only read is shared.
pub open spec fn ownership_by_use(range: ByteRange, refs: Seq<NameRefFact>, name: Seq<char>) -> OwnershipKind {
    if written_in(range, refs, name) {
        if live_after(range, refs, name) { OwnershipKind::MutRef } else { OwnershipKind::Owned }
    } else if moved_in(range, refs, name) {
        if live_after(range, refs, name) { OwnershipKind::SharedRef } else { OwnershipKind::Owned }
    } else {
        OwnershipKind::SharedRef
    }
}

/// The free variables of the selection: the free locals, each passed as
/// its uses ask.
pub open spec fn free_vars_of(range: ByteRange, refs: Seq<NameRefFact>) -> Seq<FreeVariable> {
    free_locals_of(range, refs).map_values(
        |v: FreeVariable|
            FreeVariable { name: v.name, ty: v.ty, ownership: ownership_by_use(range, refs, v.name@) },
    )
}

/// A binding inside the selection that is referenced at or after its end.
pub open spec fn is_output(range: ByteRange, b: BindingFact) -> bool {
    &&& range_contains(range, b.at)
    &&& exists|k: int| 0 <= k < b.ref_starts@.len() && (#[trigger] b.ref_starts@[k]) >= range.end
}

/// Some output variable of `outs` has this name.
pub open spec fn has_output_name(outs: Seq<OutputVariable>, name: Seq<char>) -> bool {
    exists|k: int| 0 <= k < outs.len() && (#[trigger] outs[k]).name@ == name
}

/// The output variables of the selection: one per name, in binding order.
pub open spec fn outputs_of(range: ByteRange, binds: Seq<BindingFact>) -> Seq<OutputVariable>
    decreases binds.len(),
{
    if binds.len() == 0 {
        Seq::empty()
    } else {
        let prev = outputs_of(range, binds.drop_last());
        let b = binds.last();
        if is_output(range, b) && !has_output_name(prev, b.name@) {
            prev.push(OutputVariable { name: b.name, ty: b.ty })
        } else {
            prev
        }
    }
}

/// A jump inside the selection leaves it unless the loop it targets lies
/// within the selection too.
pub open spec fn leaves(range: ByteRange, at: ByteRange, target: Option<ByteRange>) -> bool {
    range_contains(range, at) && !(target matches Some(t) && range_contains(range, t))
}

/// A loop node.
pub open spec fn is_loop_kind(k: Seq<char>) -> bool {
    k == "LOOP_EXPR"@ || k == "WHILE_EXPR"@ || k == "FOR_EXPR"@
}

/// A node that a jump cannot leave: a closure or a function.
pub open spec fn is_boundary_kind(k: Seq<char>) -> bool {
    k == "CLOSURE_EXPR"@ || k == "FN"@
}

/// The ancestor is the one a jump with this label targets: the label's
/// loop or block, or for no label a loop.
pub open spec fn targets(label: Option<String>, a: AncestorFact) -> bool {
    match label {
        None => is_loop_kind(a.kind@),
        Some(l) => (is_loop_kind(a.kind@) || a.kind@ == "BLOCK_EXPR"@) && (a.label matches Some(m)
            && m@ == l@),
    }
}

/// The range of the node a jump leaves: the innermost targeted ancestor;
/// when a closure or function comes first, the jump cannot get past it
/// and that node's range is given.
pub open spec fn jump_target(label: Option<String>, ancestors: Seq<AncestorFact>) -> Option<ByteRange>
    decreases ancestors.len(),
{
    if ancestors.len() == 0 {
        None
    } else if is_boundary_kind(ancestors[0].kind@) {
        Some(ancestors[0].range)
    } else if targets(label, ancestors[0]) {
        Some(ancestors[0].range)
    } else {
        jump_target(label, ancestors.drop_first())
    }
}

/// The non-local exit a node makes, if any.
pub open spec fn exit_of(range: ByteRange, n: NodeFact) -> Option<ControlFlowKind> {
    match n {
        NodeFact::Return(r) => if range_contains(range, r) {
            Some(ControlFlowKind::Return)
        } else {
            None
        },
        NodeFact::Break { at, label, ancestors } => if leaves(range, at, jump_target(label, ancestors@)) {
            Some(ControlFlowKind::Break)
        } else {
            None
        },
        NodeFact::Continue { at, label, ancestors } => if leaves(
            range,
            at,
            jump_target(label, ancestors@),
        ) {
            Some(ControlFlowKind::Continue)
        } else {
            None
        },
        _ => None,
    }
}

/// The kinds of non-local exit of the selection, each once, in the order
/// of their first occurrence.
pub open spec fn exits_of(range: ByteRange, nodes: Seq<NodeFact>) -> Seq<ControlFlowKind>
    decreases nodes.len(),
{
    if nodes.len() == 0 {
        Seq::empty()
    } else {
        let prev = exits_of(range, nodes.drop_last());
        match exit_of(range, nodes.last()) {
            Some(k) => if prev.contains(k) {
                prev
            } else {
                prev.push(k)
            },
            None => prev,
        }
    }
}

/// Some node inside the selection awaits.
pub open spec fn awaits_in(range: ByteRange, nodes: Seq<NodeFact>) -> bool {
    exists|i: int| 0 <= i < nodes.len() && (#[trigger] nodes[i] matches NodeFact::Await(r)
        && range_contains(range, r))
}

/// A character that can continue an identifier (ASCII letters, digits,
/// `_`).
pub open spec fn is_ident_char(c: char) -> bool {
    is_ascii_alnum(c) || c == '_'
}

/// `w` occurs in `s` at `i` as a whole word.
pub open spec fn word_at(s: Seq<char>, w: Seq<char>, i: int) -> bool {
    &&& w.len() > 0
    &&& 0 <= i && i + w.len() <= s.len()
    &&& s.subrange(i, i + w.len()) == w
    &&& i == 0 || !is_ident_char(s[i - 1])
    &&& i + w.len() == s.len() || !is_ident_char(s[i + w.len()])
}

/// `s` mentions the word `w`.
pub open spec fn mentions(s: Seq<char>, w: Seq<char>) -> bool {
    exists|i: int| word_at(s, w, i)
}

/// The parameter is used by the selection: referenced inside it, or named
/// in the type of one of its free variables.
pub open spec fn is_referenced(range: ByteRange, g: GenericParamFact, vars: Seq<FreeVariable>) -> bool {
    ||| exists|k: int| 0 <= k < g.uses@.len() && range_contains(range, #[trigger] g.uses@[k])
    ||| exists|k: int| 0 <= k < vars.len() && mentions((#[trigger] vars[k]).ty@, g.name@)
}

/// The bounds on traits of the crate being edited, as written.
pub open spec fn local_bounds(bounds: Seq<BoundFact>) -> Seq<Seq<char>>
    decreases bounds.len(),
{
    if bounds.len() == 0 {
        Seq::empty()
    } else if bounds.last().local {
        local_bounds(bounds.drop_last()).push(bounds.last().text@)
    } else {
        local_bounds(bounds.drop_last())
    }
}

/// The parameter as the new function declares it: its name, with its
/// bounds on the crate's own traits (`T: MyTrait`).
pub open spec fn generic_decl(g: GenericParamFact) -> Seq<char> {
    if local_bounds(g.bounds@).len() == 0 {
        g.name@
    } else {
        g.name@ + ": "@ + join(local_bounds(g.bounds@), " + "@)
    }
}

/// The generic parameters the selection uses, declared, in order.
pub open spec fn generics_of(range: ByteRange, gens: Seq<GenericParamFact>, vars: Seq<FreeVariable>) -> Seq<
    Seq<char>,
>
    decreases gens.len(),
{
    if gens.len() == 0 {
        Seq::empty()
    } else if is_referenced(range, gens.last(), vars) {
        generics_of(range, gens.drop_last(), vars).push(generic_decl(gens.last()))
    } else {
        generics_of(range, gens.drop_last(), vars)
    }
}

fn contains_range(outer: ByteRange, inner: ByteRange) -> (b: bool)
    ensures
        b == range_contains(outer, inner),
{
    outer.start <= inner.start && inner.end <= outer.end
}

fn free_name_taken(vars: &Vec<FreeVariable>, name: &String) -> (b: bool)
    ensures
        b == has_free_name(vars@, name@),
{
    let mut k: usize = 0;
    while k < vars.len()
        invariant
            k <= vars.len(),
            forall|m: int| 0 <= m < k ==> (#[trigger] vars@[m]).name@ != name@,
        decreases vars.len() - k,
    {
        if vars[k].name == *name {
            return true;
        }
        k += 1;
    }
    false
}

fn output_name_taken(outs: &Vec<OutputVariable>, name: &String) -> (b: bool)
    ensures
        b == has_output_name(outs@, name@),
{
    let mut k: usize = 0;
    while k < outs.len()
        invariant
            k <= outs.len(),
            forall|m: int| 0 <= m < k ==> (#[trigger] outs@[m]).name@ != name@,
        decreases outs.len() - k,
    {
        if outs[k].name == *name {
            return true;
        }
        k += 1;
    }
    false
}

fn used_from(starts: &Vec<u32>, end: u32) -> (b: bool)
    ensures
        b == exists|k: int| 0 <= k < starts@.len() && (#[trigger] starts@[k]) >= end,
{
    let mut k: usize = 0;
    while k < starts.len()
        invariant
            k <= starts.len(),
            forall|m: int| 0 <= m < k ==> (#[trigger] starts@[m]) < end,
        decreases starts.len() - k,
    {
        if starts[k] >= end {
            return true;
        }
        k += 1;
    }
    false
}

fn leaves_exec(range: ByteRange, at: ByteRange, target: Option<ByteRange>) -> (b: bool)
    ensures
        b == leaves(range, at, target),
{
    let kept = match target {
        Some(t) => contains_range(range, t),
        None => false,
    };
    contains_range(range, at) && !kept
}

fn targets_exec(label: &Option<String>, a: &AncestorFact) -> (b: bool)
    ensures
        b == targets(*label, *a),
{
    let looping = a.kind == owned("LOOP_EXPR") || a.kind == owned("WHILE_EXPR") || a.kind == owned(
        "FOR_EXPR",
    );
    match label {
        None => looping,
        Some(l) => {
            let named = match &a.label {
                Some(m) => *m == *l,
                None => false,
            };
            (looping || a.kind == owned("BLOCK_EXPR")) && named
        },
    }
}

fn jump_target_exec(label: &Option<String>, ancestors: &Vec<AncestorFact>) -> (t: Option<ByteRange>)
    ensures
        t == jump_target(*label, ancestors@),
{
    let mut i: usize = 0;
    proof {
        assert(ancestors@.skip(0) == ancestors@);
    }
    while i < ancestors.len()
        invariant
            i <= ancestors@.len(),
            jump_target(*label, ancestors@) == jump_target(*label, ancestors@.skip(i as int)),
        decreases ancestors.len() - i,
    {
        proof {
            assert(ancestors@.skip(i as int).drop_first() == ancestors@.skip(i + 1));
            assert(ancestors@.skip(i as int)[0] == ancestors@[i as int]);
        }
        let a = &ancestors[i];
        if a.kind == owned("CLOSURE_EXPR") || a.kind == owned("FN") {
            return Some(a.range);
        }
        if targets_exec(label, a) {
            return Some(a.range);
        }
        i += 1;
    }
    None
}

fn exit_of_exec(range: ByteRange, n: &NodeFact) -> (k: Option<ControlFlowKind>)
    ensures
        k == exit_of(range, *n),
{
    match n {
        NodeFact::Return(r) => if contains_range(range, *r) {
            Some(ControlFlowKind::Return)
        } else {
            None
        },
        NodeFact::Break { at, label, ancestors } => if leaves_exec(
            range,
            *at,
            jump_target_exec(label, ancestors),
        ) {
            Some(ControlFlowKind::Break)
        } else {
            None
        },
        NodeFact::Continue { at, label, ancestors } => if leaves_exec(
            range,
            *at,
            jump_target_exec(label, ancestors),
        ) {
            Some(ControlFlowKind::Continue)
        } else {
            None
        },
        _ => None,
    }
}

fn kind_listed(kinds: &Vec<ControlFlowKind>, k: ControlFlowKind) -> (b: bool)
    ensures
        b == kinds@.contains(k),
{
    let mut i: usize = 0;
    while i < kinds.len()
        invariant
            i <= kinds.len(),
            forall|m: int| 0 <= m < i ==> kinds@[m] != k,
        decreases kinds.len() - i,
    {
        if kinds[i] == k {
            return true;
        }
        i += 1;
    }
    false
}

fn free_locals(range: ByteRange, refs: &Vec<NameRefFact>) -> (r: Vec<FreeVariable>)
    ensures
        r@ == free_locals_of(range, refs@),
{
    let mut free: Vec<FreeVariable> = Vec::new();
    let mut i: usize = 0;
    while i < refs.len()
        invariant
            i <= refs.len(),
            free@ == free_locals_of(range, refs@.take(i as int)),
        decreases refs.len() - i,
    {
        proof {
            assert(refs@.take(i + 1).drop_last() == refs@.take(i as int));
        }
        let f = &refs[i];
        let from_outside = match f.def {
            Some(d) => !contains_range(range, d),
            None => false,
        };
        if contains_range(range, f.at) && from_outside && !free_name_taken(&free, &f.name) {
            free.push(
                FreeVariable {
                    name: f.name.clone(),
                    ty: f.ty.clone(),
                    ownership: OwnershipKind::SharedRef,
                },
            );
        }
        i += 1;
    }
    proof {
        assert(refs@.take(refs@.len() as int) == refs@);
    }
    free
}

fn is_assign_exec(op: &String) -> (b: bool)
    ensures
        b == is_assign_op(op@),
{
    *op == owned("=") || *op == owned("+=") || *op == owned("-=") || *op == owned("*=") || *op
        == owned("/=") || *op == owned("%=") || *op == owned("&=") || *op == owned("|=") || *op
        == owned("^=") || *op == owned("<<=") || *op == owned(">>=")
}

fn writes_exec(f: &NameRefFact) -> (b: bool)
    ensures
        b == writes(*f),
{
    let assigned = f.parent == owned("BIN_EXPR") && f.first_operand && is_assign_exec(&f.operator);
    let borrowed = f.parent == owned("REF_EXPR") && f.operator == owned("&mut");
    let receiver = f.parent == owned("METHOD_CALL_EXPR") && f.first_operand && f.mut_receiver;
    assigned || borrowed || receiver
}

fn moves_exec(f: &NameRefFact) -> (b: bool)
    ensures
        b == moves(*f),
{
    f.parent == owned("LET_STMT") || f.parent == owned("ARG_LIST") || f.parent == owned(
        "RETURN_EXPR",
    ) || f.parent == owned("RECORD_EXPR_FIELD") || f.parent == owned("TUPLE_EXPR") || f.parent
        == owned("ARRAY_EXPR")
}

fn ownership_of(range: ByteRange, refs: &Vec<NameRefFact>, name: &String) -> (o: OwnershipKind)
    ensures
        o == ownership_by_use(range, refs@, name@),
{
    let mut written = false;
    let mut moved = false;
    let mut live = false;
    let mut i: usize = 0;
    while i < refs.len()
        invariant
            i <= refs.len(),
            written == exists|k: int|
                0 <= k < i && free_ref_named(range, #[trigger] refs@[k], name@) && writes(refs@[k]),
            moved == exists|k: int|
                0 <= k < i && free_ref_named(range, #[trigger] refs@[k], name@) && moves(refs@[k]),
            live == exists|k: int|
                0 <= k < i && free_ref_named(range, #[trigger] refs@[k], name@) && used_after(
                    range,
                    refs@[k],
                ),
        decreases refs.len() - i,
    {
        let f = &refs[i];
        let from_outside = match f.def {
            Some(d) => !contains_range(range, d),
            None => false,
        };
        if contains_range(range, f.at) && from_outside && f.name == *name {
            proof {
                assert(free_ref_named(range, refs@[i as int], name@));
            }
            if writes_exec(f) {
                written = true;
            }
            if moves_exec(f) {
                moved = true;
            }
            if used_from(&f.local_ref_starts, range.end) {
                live = true;
            }
        }
        i += 1;
    }
    if written {
        if live { OwnershipKind::MutRef } else { OwnershipKind::Owned }
    } else if moved {
        if live { OwnershipKind::SharedRef } else { OwnershipKind::Owned }
    } else {
        OwnershipKind::SharedRef
    }
}

/// The free variables of the selection `range`.
pub fn free_variables(range: ByteRange, refs: &Vec<NameRefFact>) -> (r: Vec<FreeVariable>)
    ensures
        r@ == free_vars_of(range, refs@),
{
    let locals = free_locals(range, refs);
    let mut out: Vec<FreeVariable> = Vec::new();
    let mut i: usize = 0;
    while i < locals.len()
        invariant
            i <= locals.len(),
            out@.len() == i,
            forall|k: int|
                0 <= k < i ==> #[trigger] out@[k] == (FreeVariable {
                    name: locals@[k].name,
                    ty: locals@[k].ty,
                    ownership: ownership_by_use(range, refs@, locals@[k].name@),
                }),
        decreases locals.len() - i,
    {
        let v = &locals[i];
        let ownership = ownership_of(range, refs, &v.name);
        out.push(FreeVariable { name: v.name.clone(), ty: v.ty.clone(), ownership });
        i += 1;
    }
    proof {
        assert(out@ =~= free_vars_of(range, refs@));
    }
    out
}

/// The output variables of the selection `range`.
pub fn output_variables(range: ByteRange, binds: &Vec<BindingFact>) -> (r: Vec<OutputVariable>)
    ensures
        r@ == outputs_of(range, binds@),
{
    let mut outs: Vec<OutputVariable> = Vec::new();
    let mut i: usize = 0;
    while i < binds.len()
        invariant
            i <= binds.len(),
            outs@ == outputs_of(range, binds@.take(i as int)),
        decreases binds.len() - i,
    {
        proof {
            assert(binds@.take(i + 1).drop_last() == binds@.take(i as int));
        }
        let b = &binds[i];
        if contains_range(range, b.at) && used_from(&b.ref_starts, range.end) && !output_name_taken(
            &outs,
            &b.name,
        ) {
            outs.push(OutputVariable { name: b.name.clone(), ty: b.ty.clone() });
        }
        i += 1;
    }
    proof {
        assert(binds@.take(binds@.len() as int) == binds@);
    }
    outs
}

/// The kinds of non-local exit of the selection `range`.
pub fn control_flow_exits(range: ByteRange, nodes: &Vec<NodeFact>) -> (r: Vec<ControlFlowKind>)
    ensures
        r@ == exits_of(range, nodes@),
{
    let mut kinds: Vec<ControlFlowKind> = Vec::new();
    let mut i: usize = 0;
    while i < nodes.len()
        invariant
            i <= nodes.len(),
            kinds@ == exits_of(range, nodes@.take(i as int)),
        decreases nodes.len() - i,
    {
        proof {
            assert(nodes@.take(i + 1).drop_last() == nodes@.take(i as int));
        }
        match exit_of_exec(range, &nodes[i]) {
            Some(k) => {
                if !kind_listed(&kinds, k) {
                    kinds.push(k);
                }
            },
            None => {},
        }
        i += 1;
    }
    proof {
        assert(nodes@.take(nodes@.len() as int) == nodes@);
    }
    kinds
}

/// Some node inside the selection `range` awaits.
pub fn awaits(range: ByteRange, nodes: &Vec<NodeFact>) -> (b: bool)
    ensures
        b == awaits_in(range, nodes@),
{
    let mut i: usize = 0;
    while i < nodes.len()
        invariant
            i <= nodes.len(),
            forall|m: int| 0 <= m < i ==> !(#[trigger] nodes@[m] matches NodeFact::Await(r)
                && range_contains(range, r)),
        decreases nodes.len() - i,
    {
        match &nodes[i] {
            NodeFact::Await(r) => {
                if contains_range(range, *r) {
                    return true;
                }
            },
            _ => {},
        }
        i += 1;
    }
    false
}

fn ident_char(c: char) -> (b: bool)
    ensures
        b == is_ident_char(c),
{
    ascii_alnum(c) || c == '_'
}

fn word_at_exec(s: &Vec<char>, w: &Vec<char>, i: usize) -> (b: bool)
    requires
        i <= s@.len(),
    ensures
        b == word_at(s@, w@, i as int),
{
    if w.len() == 0 || w.len() > s.len() - i {
        return false;
    }
    let mut k: usize = 0;
    while k < w.len()
        invariant
            i <= s@.len(),
            0 < w@.len() <= s@.len() - i,
            k <= w@.len(),
            forall|m: int| 0 <= m < k ==> s@[i + m] == w@[m],
        decreases w.len() - k,
    {
        assert(i + k < s.len());
        if s[i + k] != w[k] {
            proof {
                assert(s@.subrange(i as int, i + w@.len())[k as int] != w@[k as int]);
            }
            return false;
        }
        k += 1;
    }
    proof {
        assert(s@.subrange(i as int, i + w@.len()) =~= w@);
    }
    let before = i == 0 || !ident_char(s[i - 1]);
    let after = i + w.len() == s.len() || !ident_char(s[i + w.len()]);
    before && after
}

fn mentions_exec(s: &String, w: &String) -> (b: bool)
    ensures
        b == mentions(s@, w@),
{
    let cs = chars_of(s.as_str());
    let ws = chars_of(w.as_str());
    let mut i: usize = 0;
    while i < cs.len()
        invariant
            cs@ == s@,
            ws@ == w@,
            i <= cs@.len(),
            forall|j: int| 0 <= j < i ==> !word_at(s@, w@, j),
        decreases cs.len() - i,
    {
        if word_at_exec(&cs, &ws, i) {
            return true;
        }
        i += 1;
    }
    if word_at_exec(&cs, &ws, cs.len()) {
        return true;
    }
    proof {
        assert forall|j: int| !word_at(s@, w@, j) by {
            if word_at(s@, w@, j) {
                assert(0 <= j <= s@.len());
            }
        }
    }
    false
}

fn referenced(range: ByteRange, g: &GenericParamFact, vars: &Vec<FreeVariable>) -> (b: bool)
    ensures
        b == is_referenced(range, *g, vars@),
{
    let mut k: usize = 0;
    while k < g.uses.len()
        invariant
            k <= g.uses@.len(),
            forall|m: int| 0 <= m < k ==> !range_contains(range, #[trigger] g.uses@[m]),
        decreases g.uses.len() - k,
    {
        if contains_range(range, g.uses[k]) {
            return true;
        }
        k += 1;
    }
    let mut k: usize = 0;
    while k < vars.len()
        invariant
            k <= vars@.len(),
            forall|m: int| 0 <= m < g.uses@.len() ==> !range_contains(range, #[trigger] g.uses@[m]),
            forall|m: int| 0 <= m < k ==> !mentions((#[trigger] vars@[m]).ty@, g.name@),
        decreases vars.len() - k,
    {
        if mentions_exec(&vars[k].ty, &g.name) {
            return true;
        }
        k += 1;
    }
    false
}

fn declaration(g: &GenericParamFact) -> (d: String)
    ensures
        d@ == generic_decl(*g),
{
    let mut bounds: Vec<String> = Vec::new();
    let mut k: usize = 0;
    while k < g.bounds.len()
        invariant
            k <= g.bounds@.len(),
            views(bounds@) == local_bounds(g.bounds@.take(k as int)),
        decreases g.bounds.len() - k,
    {
        proof {
            assert(g.bounds@.take(k + 1).drop_last() == g.bounds@.take(k as int));
        }
        if g.bounds[k].local {
            bounds.push(g.bounds[k].text.clone());
            proof {
                assert(views(bounds@) =~= local_bounds(g.bounds@.take(k as int)).push(
                    g.bounds@[k as int].text@,
                ));
            }
        }
        k += 1;
    }
    proof {
        assert(g.bounds@.take(g.bounds@.len() as int) == g.bounds@);
    }
    let mut d = g.name.clone();
    if bounds.len() > 0 {
        push_str(&mut d, ": ");
        let joined = join_strings(&bounds, " + ");
        push_str(&mut d, joined.as_str());
    }
    d
}

/// The declarations of the generic parameters the selection uses, given
/// its free variables.
pub fn referenced_generics(range: ByteRange, gens: &Vec<GenericParamFact>, vars: &Vec<FreeVariable>) -> (r: Vec<
    String,
>)
    ensures
        views(r@) == generics_of(range, gens@, vars@),
{
    let mut r: Vec<String> = Vec::new();
    let mut i: usize = 0;
    while i < gens.len()
        invariant
            i <= gens@.len(),
            views(r@) == generics_of(range, gens@.take(i as int), vars@),
        decreases gens.len() - i,
    {
        proof {
            assert(gens@.take(i + 1).drop_last() == gens@.take(i as int));
        }
        if referenced(range, &gens[i], vars) {
            let d = declaration(&gens[i]);
            r.push(d);
            proof {
                assert(views(r@) =~= generics_of(range, gens@.take(i as int), vars@).push(
                    generic_decl(gens@[i as int]),
                ));
            }
        }
        i += 1;
    }
    proof {
        assert(gens@.take(gens@.len() as int) == gens@);
    }
    r
}

/// The analysis of the selection `range` from the facts about its file:
/// free variables (used inside, defined outside; passed as their uses ask),
/// output variables (bound inside, used at or after the end), non-local
/// exits (`return`, and `break`/`continue` whose target is not inside),
/// whether it awaits, and the generic parameters it uses with their bounds
/// on the crate's own traits. The selection is never taken for a `const`
/// context.
pub fn selection_analysis(
    range: ByteRange,
    refs: &Vec<NameRefFact>,
    binds: &Vec<BindingFact>,
    nodes: &Vec<NodeFact>,
    gens: &Vec<GenericParamFact>,
) -> (a: SelectionAnalysis)
    ensures
        a.free_variables@ == free_vars_of(range, refs@),
        a.output_variables@ == outputs_of(range, binds@),
        a.control_flow_exits@ == exits_of(range, nodes@),
        a.is_async == awaits_in(range, nodes@),
        !a.is_const,
        views(a.referenced_generics@) == generics_of(range, gens@, free_vars_of(range, refs@)),
{
    let free = free_variables(range, refs);
    let generics = referenced_generics(range, gens, &free);
    SelectionAnalysis {
        free_variables: free,
        output_variables: output_variables(range, binds),
        control_flow_exits: control_flow_exits(range, nodes),
        is_async: awaits(range, nodes),
        is_const: false,
        referenced_generics: generics,
    }
}

} // verus!

verus! {

proof fn lemma_free_locals(range: ByteRange, refs: Seq<NameRefFact>)
    ensures
        forall|i: int, j: int|
            0 <= i < j < free_locals_of(range, refs).len() ==> (#[trigger] free_locals_of(range, refs)[i]).name@
                != (#[trigger] free_locals_of(range, refs)[j]).name@,
        forall|i: int|
            0 <= i < free_locals_of(range, refs).len() ==> exists|k: int|
                0 <= k < refs.len() && is_free_ref(range, #[trigger] refs[k]) && free_var_of(refs[k])
                    == #[trigger] free_locals_of(range, refs)[i],
        forall|k: int|
            0 <= k < refs.len() && is_free_ref(range, #[trigger] refs[k]) ==> has_free_name(
                free_locals_of(range, refs),
                refs[k].name@,
            ),
    decreases refs.len(),
{
    if refs.len() > 0 {
        let init = refs.drop_last();
        lemma_free_locals(range, init);
        let prev = free_locals_of(range, init);
        let cur = free_locals_of(range, refs);
        assert forall|i: int| #![trigger cur[i]] 0 <= i < cur.len() implies exists|k: int|
            0 <= k < refs.len() && is_free_ref(range, #[trigger] refs[k]) && free_var_of(refs[k])
                == cur[i] by {
            if i < prev.len() {
                let k = choose|k: int|
                    0 <= k < init.len() && is_free_ref(range, #[trigger] init[k]) && free_var_of(
                        init[k],
                    ) == prev[i];
                assert(refs[k] == init[k]);
            } else {
                assert(refs[refs.len() - 1] == refs.last());
                assert(cur[i] == free_var_of(refs.last()));
            }
        }
        assert forall|k: int| 0 <= k < refs.len() && is_free_ref(range, #[trigger] refs[k]) implies has_free_name(
            cur,
            refs[k].name@,
        ) by {
            if k < init.len() {
                assert(refs[k] == init[k]);
                let m = choose|m: int| 0 <= m < prev.len() && (#[trigger] prev[m]).name@ == init[k].name@;
                assert(cur[m] == prev[m]);
            } else if has_free_name(prev, refs.last().name@) {
                let m = choose|m: int| 0 <= m < prev.len() && (#[trigger] prev[m]).name@ == refs.last().name@;
                assert(cur[m] == prev[m]);
            } else {
                assert(cur[cur.len() - 1] == free_var_of(refs.last()));
            }
        }
    }
}

/// The free variables are exactly the locals defined outside the selection
/// and used inside it, each named once, with the type of its first free
/// reference, and each passed as its uses inside the selection ask.
pub proof fn law_free_variables(range: ByteRange, refs: Seq<NameRefFact>)
    ensures
        forall|i: int, j: int|
            0 <= i < j < free_vars_of(range, refs).len() ==> (#[trigger] free_vars_of(range, refs)[i]).name@
                != (#[trigger] free_vars_of(range, refs)[j]).name@,
        forall|i: int|
            0 <= i < free_vars_of(range, refs).len() ==> exists|k: int|
                0 <= k < refs.len() && is_free_ref(range, #[trigger] refs[k]) && refs[k].name
                    == (#[trigger] free_vars_of(range, refs)[i]).name && refs[k].ty == free_vars_of(
                    range,
                    refs,
                )[i].ty,
        forall|i: int|
            0 <= i < free_vars_of(range, refs).len() ==> (#[trigger] free_vars_of(range, refs)[i]).ownership
                == ownership_by_use(range, refs, free_vars_of(range, refs)[i].name@),
        forall|k: int|
            0 <= k < refs.len() && is_free_ref(range, #[trigger] refs[k]) ==> has_free_name(
                free_vars_of(range, refs),
                refs[k].name@,
            ),
{
    lemma_free_locals(range, refs);
    let locals = free_locals_of(range, refs);
    let vs = free_vars_of(range, refs);
    assert(vs.len() == locals.len());
    assert forall|i: int| #![trigger vs[i]] 0 <= i < vs.len() implies exists|k: int|
        0 <= k < refs.len() && is_free_ref(range, #[trigger] refs[k]) && refs[k].name == vs[i].name
            && refs[k].ty == vs[i].ty by {
        let k = choose|k: int|
            0 <= k < refs.len() && is_free_ref(range, #[trigger] refs[k]) && free_var_of(refs[k])
                == locals[i];
        assert(vs[i].name == locals[i].name);
    }
    assert forall|k: int| 0 <= k < refs.len() && is_free_ref(range, #[trigger] refs[k]) implies has_free_name(
        vs,
        refs[k].name@,
    ) by {
        let m = choose|m: int| 0 <= m < locals.len() && (#[trigger] locals[m]).name@ == refs[k].name@;
        assert(vs[m].name == locals[m].name);
    }
    assert forall|i: int, j: int| 0 <= i < j < vs.len() implies (#[trigger] vs[i]).name@ != (#[trigger] vs[j]).name@ by {
        assert(vs[i].name == locals[i].name);
        assert(vs[j].name == locals[j].name);
    }
}

/// The output variables are exactly the bindings inside the selection that
/// are referenced at or after its end, each named once.
pub proof fn law_output_variables(range: ByteRange, binds: Seq<BindingFact>)
    ensures
        forall|i: int, j: int|
            0 <= i < j < outputs_of(range, binds).len() ==> (#[trigger] outputs_of(range, binds)[i]).name@
                != (#[trigger] outputs_of(range, binds)[j]).name@,
        forall|i: int|
            0 <= i < outputs_of(range, binds).len() ==> exists|k: int|
                0 <= k < binds.len() && is_output(range, #[trigger] binds[k]) && binds[k].name
                    == (#[trigger] outputs_of(range, binds)[i]).name && binds[k].ty == outputs_of(
                    range,
                    binds,
                )[i].ty,
        forall|k: int|
            0 <= k < binds.len() && is_output(range, #[trigger] binds[k]) ==> has_output_name(
                outputs_of(range, binds),
                binds[k].name@,
            ),
    decreases binds.len(),
{
    if binds.len() > 0 {
        let init = binds.drop_last();
        law_output_variables(range, init);
        let prev = outputs_of(range, init);
        let cur = outputs_of(range, binds);
        assert forall|i: int| #![trigger cur[i]] 0 <= i < cur.len() implies exists|k: int|
            0 <= k < binds.len() && is_output(range, #[trigger] binds[k]) && binds[k].name == cur[i].name
                && binds[k].ty == cur[i].ty by {
            if i < prev.len() {
                let k = choose|k: int|
                    0 <= k < init.len() && is_output(range, #[trigger] init[k]) && init[k].name
                        == prev[i].name && init[k].ty == prev[i].ty;
                assert(binds[k] == init[k]);
            } else {
                assert(binds[binds.len() - 1] == binds.last());
            }
        }
        assert forall|k: int| 0 <= k < binds.len() && is_output(range, #[trigger] binds[k]) implies has_output_name(
            cur,
            binds[k].name@,
        ) by {
            if k < init.len() {
                assert(binds[k] == init[k]);
                let m = choose|m: int| 0 <= m < prev.len() && (#[trigger] prev[m]).name@ == init[k].name@;
                assert(cur[m] == prev[m]);
            } else if has_output_name(prev, binds.last().name@) {
                let m = choose|m: int| 0 <= m < prev.len() && (#[trigger] prev[m]).name@ == binds.last().name@;
                assert(cur[m] == prev[m]);
            } else {
                assert(cur[cur.len() - 1].name == binds.last().name);
            }
        }
    }
}

/// The exits name each kind once, and exactly the kinds of the nodes that
/// leave the selection.
pub proof fn law_control_flow_exits(range: ByteRange, nodes: Seq<NodeFact>)
    ensures
        forall|i: int, j: int|
            0 <= i < j < exits_of(range, nodes).len() ==> #[trigger] exits_of(range, nodes)[i]
                != #[trigger] exits_of(range, nodes)[j],
        forall|k: ControlFlowKind|
            exits_of(range, nodes).contains(k) <==> exists|m: int|
                0 <= m < nodes.len() && exit_of(range, #[trigger] nodes[m]) == Some(k),
    decreases nodes.len(),
{
    if nodes.len() > 0 {
        let init = nodes.drop_last();
        law_control_flow_exits(range, init);
        let prev = exits_of(range, init);
        let cur = exits_of(range, nodes);
        assert forall|k: ControlFlowKind| cur.contains(k) <==> exists|m: int|
            0 <= m < nodes.len() && exit_of(range, #[trigger] nodes[m]) == Some(k) by {
            if cur.contains(k) {
                if prev.contains(k) {
                    let m = choose|m: int| 0 <= m < init.len() && exit_of(range, #[trigger] init[m]) == Some(k);
                    assert(nodes[m] == init[m]);
                } else {
                    assert(nodes[nodes.len() - 1] == nodes.last());
                }
            }
            if exists|m: int| 0 <= m < nodes.len() && exit_of(range, #[trigger] nodes[m]) == Some(k) {
                let m = choose|m: int| 0 <= m < nodes.len() && exit_of(range, #[trigger] nodes[m]) == Some(k);
                if m < init.len() {
                    assert(nodes[m] == init[m]);
                    assert(prev.contains(k));
                    let p = choose|p: int| 0 <= p < prev.len() && prev[p] == k;
                    assert(cur[p] == prev[p]);
                } else {
                    if !prev.contains(k) {
                        assert(cur[cur.len() - 1] == k);
                    } else {
                        let p = choose|p: int| 0 <= p < prev.len() && prev[p] == k;
                        assert(cur[p] == prev[p]);
                    }
                }
            }
        }
    }
}

/// A free local that the selection assigns to (with `=` or a compound
/// assignment such as `+=`), borrows `&mut`, or calls a `&mut self` method
/// on, is passed by `&mut` when the local is used after the selection, and
/// moved into the new function when it is not.
pub proof fn law_mutated_locals(range: ByteRange, refs: Seq<NameRefFact>, k: int, i: int)
    requires
        0 <= k < refs.len(),
        is_free_ref(range, refs[k]),
        ({
            let f = refs[k];
            ||| f.parent@ == "BIN_EXPR"@ && f.first_operand && (f.operator@ == "="@ || f.operator@
                == "+="@ || f.operator@ == "-="@ || f.operator@ == "*="@ || f.operator@ == "/="@
                || f.operator@ == "%="@ || f.operator@ == "&="@ || f.operator@ == "|="@
                || f.operator@ == "^="@ || f.operator@ == "<<="@ || f.operator@ == ">>="@)
            ||| f.parent@ == "REF_EXPR"@ && f.operator@ == "&mut"@
            ||| f.parent@ == "METHOD_CALL_EXPR"@ && f.first_operand && f.mut_receiver
        }),
        0 <= i < free_vars_of(range, refs).len(),
        free_vars_of(range, refs)[i].name@ == refs[k].name@,
    ensures
        (exists|m: int| 0 <= m < refs[k].local_ref_starts@.len() && refs[k].local_ref_starts@[m]
            >= range.end) ==> free_vars_of(range, refs)[i].ownership == OwnershipKind::MutRef,
        (forall|j: int, m: int|
            0 <= j < refs.len() && is_free_ref(range, refs[j]) && refs[j].name@ == refs[k].name@ && 0
                <= m < refs[j].local_ref_starts@.len() ==> refs[j].local_ref_starts@[m] < range.end)
            ==> free_vars_of(range, refs)[i].ownership == OwnershipKind::Owned,
{
    law_free_variables(range, refs);
    let name = refs[k].name@;
    assert(free_ref_named(range, refs[k], name));
    assert(writes(refs[k]));
    assert(written_in(range, refs, name));
    if exists|m: int| 0 <= m < refs[k].local_ref_starts@.len() && refs[k].local_ref_starts@[m] >= range.end {
        assert(used_after(range, refs[k]));
        assert(live_after(range, refs, name));
    }
    if forall|j: int, m: int|
        0 <= j < refs.len() && is_free_ref(range, refs[j]) && refs[j].name@ == name && 0 <= m
            < refs[j].local_ref_starts@.len() ==> refs[j].local_ref_starts@[m] < range.end {
        if live_after(range, refs, name) {
            let j = choose|j: int| 0 <= j < refs.len() && free_ref_named(range, #[trigger] refs[j], name) && used_after(range, refs[j]);
            let m = choose|m: int| 0 <= m < refs[j].local_ref_starts@.len() && (#[trigger] refs[j].local_ref_starts@[m]) >= range.end;
            assert(refs[j].local_ref_starts@[m] < range.end);
        }
    }
}

} // verus!
