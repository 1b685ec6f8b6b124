//! Rewriting of an extracted body so that every variable now received by
//! reference is dereferenced (`x` becomes `*x`).
//!
//! The body is wrapped in a dummy function and parsed; the rewrite walks the
//! syntax tree of that function's block, copies its tokens and puts a `*`
//! before each name reference to such a variable, unless the context (as a
//! `DerefRule` tells it) already dereferences the name or takes it as is.

use vstd::prelude::*;
use crate::ports::FreeVariable;
use crate::syntax::{parsable_len, rust_syntax_walk, syntax_walk, SyntaxStep};
use crate::text::{chars_of, owned, push_char, push_str, trim_nl_sp, trimmed_range, views};
use crate::value_objects::OwnershipKind;

verus! {

/// The syntax kinds the rewrite tells apart.
#[derive(Debug, Clone, Copy, PartialEq, Eq, Structural)]
pub enum NodeTag {
    Fn,
    BlockExpr,
    NameRef,
    PrefixExpr,
    Star,
    PathExpr,
    MethodCallExpr,
    Other,
}

/// The tag of a kind name.
pub open spec fn tag_of(kind: Seq<char>) -> NodeTag {
    if kind == "FN"@ {
        NodeTag::Fn
    } else if kind == "BLOCK_EXPR"@ {
        NodeTag::BlockExpr
    } else if kind == "NAME_REF"@ {
        NodeTag::NameRef
    } else if kind == "PREFIX_EXPR"@ {
        NodeTag::PrefixExpr
    } else if kind == "STAR"@ {
        NodeTag::Star
    } else if kind == "PATH_EXPR"@ {
        NodeTag::PathExpr
    } else if kind == "METHOD_CALL_EXPR"@ {
        NodeTag::MethodCallExpr
    } else {
        NodeTag::Other
    }
}

/// An open node of the walk: its tag and, for a prefix expression, whether
/// its operator (its first child, a token) is the dereference `*`.
#[derive(Debug, Clone, Copy)]
pub struct Frame {
    pub tag: NodeTag,
    pub deref_op: bool,
}

/// Where the walk stands relative to the dummy function.
pub open spec fn seeking_fn() -> nat { 0 }
pub open spec fn seeking_body() -> nat { 1 }
pub open spec fn in_body() -> nat { 2 }
pub open spec fn body_done() -> nat { 3 }
pub open spec fn no_body() -> nat { 4 }

/// The state of the walk.
pub struct ScanModel {
    pub phase: nat,
    /// Number of open nodes once the function was entered.
    pub fn_len: int,
    /// Number of open nodes once its block was entered.
    pub body_len: int,
    /// The open nodes, outermost first.
    pub stack: Seq<Frame>,
    /// The previous event entered a node (so this event is its first child).
    pub fresh: bool,
    /// The block's text so far, with the inserted `*`.
    pub out: Seq<char>,
}

/// The walk's state before the first event.
pub open spec fn scan_start() -> ScanModel {
    ScanModel {
        phase: seeking_fn(),
        fn_len: 0,
        body_len: 0,
        stack: Seq::empty(),
        fresh: false,
        out: Seq::empty(),
    }
}

/// The names of the variables received by reference, in order.
pub open spec fn ref_names(vars: Seq<FreeVariable>) -> Seq<Seq<char>>
    decreases vars.len(),
{
    if vars.len() == 0 {
        Seq::empty()
    } else if vars.last().ownership != OwnershipKind::Owned {
        ref_names(vars.drop_last()).push(vars.last().name@)
    } else {
        ref_names(vars.drop_last())
    }
}

/// Which syntactic contexts already dereference a name, or take it as it is.
/// Under both rules a name reference is rewritten only when it is a bare
/// path expression: one with no path expression among its six closest
/// ancestors (a field or method name) is left alone.
#[derive(Debug, Clone, Copy, PartialEq, Eq, Structural)]
pub enum DerefRule {
    /// The name is also skipped when its path expression sits under `*`.
    PathUnderDeref,
    /// The name is also skipped when its path expression sits under `*`
    /// or is the receiver of a method call.
    PathExprContext,
}

/// Index, in the open nodes, of the nearest path expression among the
/// `6 - d` ancestors after the `d` closest ones.
pub open spec fn path_expr_at(stack: Seq<Frame>, d: int) -> Option<int>
    decreases 6 - d,
{
    if d < 0 || d >= 6 || d >= stack.len() {
        None
    } else if stack[stack.len() - 1 - d].tag == NodeTag::PathExpr {
        Some(stack.len() - 1 - d)
    } else {
        path_expr_at(stack, d + 1)
    }
}

/// The frame is a prefix expression whose operator is `*`.
pub open spec fn is_deref(f: Frame) -> bool {
    f.tag == NodeTag::PrefixExpr && f.deref_op
}

/// The name reference about to be entered needs no `*` under the rule.
pub open spec fn keeps_name(rule: DerefRule, stack: Seq<Frame>) -> bool {
    match path_expr_at(stack, 0) {
        None => true,
        Some(k) => k >= 1 && (is_deref(stack[k - 1]) || (rule == DerefRule::PathExprContext
            && stack[k - 1].tag == NodeTag::MethodCallExpr)),
    }
}

/// The open nodes once a first child is entered: a prefix expression whose
/// first child is a `*` token records its dereference operator.
pub open spec fn note_operator(m: ScanModel, st: SyntaxStep) -> Seq<Frame> {
    if m.fresh && m.stack.len() > 0 && m.stack.last().tag == NodeTag::PrefixExpr && !st.is_node
        && tag_of(st.kind@) == NodeTag::Star {
        m.stack.update(m.stack.len() - 1, Frame { tag: NodeTag::PrefixExpr, deref_op: true })
    } else {
        m.stack
    }
}

/// The state after entering an element.
pub open spec fn scan_enter(m: ScanModel, st: SyntaxStep, targets: Seq<Seq<char>>, rule: DerefRule) -> ScanModel {
    let tag = tag_of(st.kind@);
    let stack = note_operator(m, st);
    if !st.is_node {
        ScanModel {
            phase: m.phase,
            fn_len: m.fn_len,
            body_len: m.body_len,
            stack,
            fresh: false,
            out: if m.phase == in_body() { m.out + st.text@ } else { m.out },
        }
    } else {
        let pushed = stack.push(Frame { tag, deref_op: false });
        if m.phase == seeking_fn() && tag == NodeTag::Fn {
            ScanModel {
                phase: seeking_body(),
                fn_len: pushed.len() as int,
                body_len: m.body_len,
                stack: pushed,
                fresh: true,
                out: m.out,
            }
        } else if m.phase == seeking_body() && tag == NodeTag::BlockExpr && stack.len() == m.fn_len {
            ScanModel {
                phase: in_body(),
                fn_len: m.fn_len,
                body_len: pushed.len() as int,
                stack: pushed,
                fresh: true,
                out: m.out,
            }
        } else {
            ScanModel {
                phase: m.phase,
                fn_len: m.fn_len,
                body_len: m.body_len,
                stack: pushed,
                fresh: true,
                out: if m.phase == in_body() && tag == NodeTag::NameRef && targets.contains(st.text@)
                    && !keeps_name(rule, stack) {
                    m.out.push('*')
                } else {
                    m.out
                },
            }
        }
    }
}

/// The state after leaving an element.
pub open spec fn scan_leave(m: ScanModel, st: SyntaxStep) -> ScanModel {
    if st.is_node {
        ScanModel {
            phase: if m.phase == in_body() && m.stack.len() == m.body_len {
                body_done()
            } else if m.phase == seeking_body() && m.stack.len() == m.fn_len {
                no_body()
            } else {
                m.phase
            },
            fn_len: m.fn_len,
            body_len: m.body_len,
            stack: if m.stack.len() > 0 { m.stack.drop_last() } else { m.stack },
            fresh: false,
            out: m.out,
        }
    } else {
        ScanModel {
            phase: m.phase,
            fn_len: m.fn_len,
            body_len: m.body_len,
            stack: m.stack,
            fresh: false,
            out: m.out,
        }
    }
}

/// The state after one event.
pub open spec fn scan_step(m: ScanModel, st: SyntaxStep, targets: Seq<Seq<char>>, rule: DerefRule) -> ScanModel {
    if st.enter {
        scan_enter(m, st, targets, rule)
    } else {
        scan_leave(m, st)
    }
}

/// The state after a whole walk.
pub open spec fn scan(steps: Seq<SyntaxStep>, targets: Seq<Seq<char>>, rule: DerefRule) -> ScanModel
    decreases steps.len(),
{
    if steps.len() == 0 {
        scan_start()
    } else {
        scan_step(scan(steps.drop_last(), targets, rule), steps.last(), targets, rule)
    }
}

/// The dummy function that wraps a body for parsing.
pub open spec fn dummy_source(body: Seq<char>) -> Seq<char> {
    "fn _dummy() {\n"@ + body + "\n}"@
}

/// The block's text without its first and last character (its braces).
pub open spec fn between_braces(s: Seq<char>) -> Seq<char> {
    if s.len() >= 2 {
        s.subrange(1, s.len() - 1)
    } else {
        Seq::empty()
    }
}

/// The text of the dummy function's block as the walk `steps` rewrites it
/// for `targets` under `rule`, without its braces and trimmed of
/// surrounding newlines and spaces; `None` when the walk meets no block of
/// a function.
pub open spec fn walk_rewrite(steps: Seq<SyntaxStep>, targets: Seq<Seq<char>>, rule: DerefRule) -> Option<Seq<char>> {
    let m = scan(steps, targets, rule);
    if m.phase == in_body() || m.phase == body_done() {
        Some(trim_nl_sp(between_braces(m.out)))
    } else {
        None
    }
}

/// The body with every name reference to one of `targets` prefixed by `*`
/// (unless the rule keeps it), trimmed of surrounding newlines and spaces.
/// With no target the body is returned as it is; so it is when the dummy
/// function has no block in the parse, or is too long for the parser.
pub open spec fn rewrite_text(body: Seq<char>, targets: Seq<Seq<char>>, rule: DerefRule) -> Seq<char> {
    if targets.len() == 0 || dummy_source(body).len() > parsable_len() {
        body
    } else {
        match walk_rewrite(rust_syntax_walk(dummy_source(body)), targets, rule) {
            Some(r) => r,
            None => body,
        }
    }
}

/// The body with every bare name reference (a path expression) to a
/// variable received by reference prefixed by `*`, except a name already
/// written as `*name`; field and method names are left alone.
pub open spec fn deref_rewrite(body: Seq<char>, vars: Seq<FreeVariable>) -> Seq<char> {
    rewrite_text(body, ref_names(vars), DerefRule::PathUnderDeref)
}

/// The kind names the walk compares against.
struct KindNames {
    fn_kind: String,
    block: String,
    name_ref: String,
    prefix: String,
    star: String,
    path_expr: String,
    method_call: String,
}

impl KindNames {
    spec fn wf(&self) -> bool {
        &&& self.fn_kind@ == "FN"@
        &&& self.block@ == "BLOCK_EXPR"@
        &&& self.name_ref@ == "NAME_REF"@
        &&& self.prefix@ == "PREFIX_EXPR"@
        &&& self.star@ == "STAR"@
        &&& self.path_expr@ == "PATH_EXPR"@
        &&& self.method_call@ == "METHOD_CALL_EXPR"@
    }

    fn new() -> (k: Self)
        ensures
            k.wf(),
    {
        KindNames {
            fn_kind: owned("FN"),
            block: owned("BLOCK_EXPR"),
            name_ref: owned("NAME_REF"),
            prefix: owned("PREFIX_EXPR"),
            star: owned("STAR"),
            path_expr: owned("PATH_EXPR"),
            method_call: owned("METHOD_CALL_EXPR"),
        }
    }

    fn tag(&self, kind: &String) -> (t: NodeTag)
        requires
            self.wf(),
        ensures
            t == tag_of(kind@),
    {
        if *kind == self.fn_kind {
            NodeTag::Fn
        } else if *kind == self.block {
            NodeTag::BlockExpr
        } else if *kind == self.name_ref {
            NodeTag::NameRef
        } else if *kind == self.prefix {
            NodeTag::PrefixExpr
        } else if *kind == self.star {
            NodeTag::Star
        } else if *kind == self.path_expr {
            NodeTag::PathExpr
        } else if *kind == self.method_call {
            NodeTag::MethodCallExpr
        } else {
            NodeTag::Other
        }
    }
}

fn contains_name(targets: &[String], name: &String) -> (b: bool)
    ensures
        b == views(targets@).contains(name@),
{
    let mut i: usize = 0;
    while i < targets.len()
        invariant
            i <= targets.len(),
            forall|k: int| 0 <= k < i ==> (#[trigger] targets@[k])@ != name@,
        decreases targets.len() - i,
    {
        if targets[i] == *name {
            proof {
                assert(views(targets@)[i as int] == name@);
            }
            return true;
        }
        i += 1;
    }
    proof {
        if views(targets@).contains(name@) {
            let k = choose|k: int| 0 <= k < views(targets@).len() && views(targets@)[k] == name@;
            assert(targets@[k]@ == name@);
        }
    }
    false
}

fn keeps(rule: DerefRule, stack: &Vec<Frame>) -> (b: bool)
    ensures
        b == keeps_name(rule, stack@),
{
    let n = stack.len();
    let mut d: usize = 0;
    while d < 6 && d < n
        invariant
            n == stack@.len(),
            d <= 6,
            path_expr_at(stack@, 0) == path_expr_at(stack@, d as int),
        decreases 6 - d,
    {
        let k = n - 1 - d;
        if stack[k].tag == NodeTag::PathExpr {
            proof {
                assert(path_expr_at(stack@, d as int) == Some(k as int));
            }
            if k == 0 {
                return false;
            }
            let up = stack[k - 1];
            let under_deref = up.tag == NodeTag::PrefixExpr && up.deref_op;
            let receiver = rule == DerefRule::PathExprContext && up.tag == NodeTag::MethodCallExpr;
            return under_deref || receiver;
        }
        d += 1;
    }
    true
}

/// The executable walk state.
struct Scanner {
    phase: u8,
    fn_len: usize,
    body_len: usize,
    stack: Vec<Frame>,
    fresh: bool,
    out: String,
}

impl Scanner {
    spec fn model(&self) -> ScanModel {
        ScanModel {
            phase: self.phase as nat,
            fn_len: self.fn_len as int,
            body_len: self.body_len as int,
            stack: self.stack@,
            fresh: self.fresh,
            out: self.out@,
        }
    }

    fn start() -> (s: Self)
        ensures
            s.model() == scan_start(),
    {
        Scanner { phase: 0, fn_len: 0, body_len: 0, stack: Vec::new(), fresh: false, out: String::new() }
    }

    fn step(&mut self, st: &SyntaxStep, targets: &[String], rule: DerefRule, kinds: &KindNames)
        requires
            kinds.wf(),
            old(self).phase <= 4,
        ensures
            final(self).model() == scan_step(old(self).model(), *st, views(targets@), rule),
            final(self).phase <= 4,
    {
        let ghost m = self.model();
        let tag = kinds.tag(&st.kind);
        if st.enter {
            let n = self.stack.len();
            if self.fresh && n > 0 && !st.is_node && matches!(tag, NodeTag::Star) {
                if matches!(self.stack[n - 1].tag, NodeTag::PrefixExpr) {
                    self.stack.set(n - 1, Frame { tag: NodeTag::PrefixExpr, deref_op: true });
                }
            }
            proof {
                assert(self.stack@ == note_operator(m, *st));
            }
            if !st.is_node {
                if self.phase == 2 {
                    push_str(&mut self.out, st.text.as_str());
                }
                self.fresh = false;
            } else {
                let before = self.stack.len();
                let already = keeps(rule, &self.stack);
                self.stack.push(Frame { tag, deref_op: false });
                if self.phase == 0 && matches!(tag, NodeTag::Fn) {
                    self.phase = 1;
                    self.fn_len = self.stack.len();
                } else if self.phase == 1 && matches!(tag, NodeTag::BlockExpr) && before == self.fn_len {
                    self.phase = 2;
                    self.body_len = self.stack.len();
                } else if self.phase == 2 && matches!(tag, NodeTag::NameRef) && !already {
                    if contains_name(targets, &st.text) {
                        push_char(&mut self.out, '*');
                    }
                }
                self.fresh = true;
            }
        } else {
            if st.is_node {
                let n = self.stack.len();
                if self.phase == 2 && n == self.body_len {
                    self.phase = 3;
                } else if self.phase == 1 && n == self.fn_len {
                    self.phase = 4;
                }
                if n > 0 {
                    self.stack.pop();
                }
            }
            self.fresh = false;
        }
    }
}

/// Rewrites the block of the function that the walk `steps` meets first:
/// its tokens, with a `*` before each name reference to one of `targets`
/// that `rule` does not keep, without the braces and trimmed of
/// surrounding newlines and spaces.
pub fn rewrite_from_walk(steps: &Vec<SyntaxStep>, targets: &[String], rule: DerefRule) -> (r: Option<String>)
    ensures
        r matches Some(t) ==> walk_rewrite(steps@, views(targets@), rule) == Some(t@),
        r is None ==> walk_rewrite(steps@, views(targets@), rule) is None,
{
    let kinds = KindNames::new();
    let mut scanner = Scanner::start();
    let mut i: usize = 0;
    while i < steps.len()
        invariant
            i <= steps.len(),
            kinds.wf(),
            scanner.phase <= 4,
            scanner.model() == scan(steps@.take(i as int), views(targets@), rule),
        decreases steps.len() - i,
    {
        proof {
            assert(steps@.take(i + 1).drop_last() == steps@.take(i as int));
        }
        scanner.step(&steps[i], targets, rule, &kinds);
        i += 1;
    }
    proof {
        assert(steps@.take(steps@.len() as int) == steps@);
    }
    if scanner.phase == 2 || scanner.phase == 3 {
        let cs = chars_of(scanner.out.as_str());
        if cs.len() >= 2 {
            Some(trimmed_range(&cs, 1, cs.len() - 1))
        } else {
            proof {
                assert(trim_nl_sp(Seq::<char>::empty()) == Seq::<char>::empty());
            }
            Some(String::new())
        }
    } else {
        None
    }
}

/// The rewrite of `body` for the names `targets` under `rule`.
pub fn rewrite_names(body: &str, targets: &[String], rule: DerefRule) -> (r: String)
    ensures
        r@ == rewrite_text(body@, views(targets@), rule),
{
    if targets.len() == 0 {
        return owned(body);
    }
    let body_chars = chars_of(body);
    if body_chars.len() > 0x3fff_ffef {
        proof {
            reveal_strlit("fn _dummy() {\n");
            reveal_strlit("\n}");
        }
        return owned(body);
    }
    let mut dummy = owned("fn _dummy() {\n");
    push_str(&mut dummy, body);
    push_str(&mut dummy, "\n}");
    proof {
        reveal_strlit("fn _dummy() {\n");
        reveal_strlit("\n}");
        assert(dummy@ == dummy_source(body@));
    }
    let steps = syntax_walk(dummy.as_str());
    match rewrite_from_walk(&steps, targets, rule) {
        Some(t) => t,
        None => owned(body),
    }
}

/// The names of the variables received by reference.
fn reference_names(vars: &[FreeVariable]) -> (r: Vec<String>)
    ensures
        views(r@) == ref_names(vars@),
{
    let mut r: Vec<String> = Vec::new();
    let mut i: usize = 0;
    while i < vars.len()
        invariant
            i <= vars.len(),
            views(r@) == ref_names(vars@.take(i as int)),
        decreases vars.len() - i,
    {
        proof {
            assert(vars@.take(i + 1).drop_last() == vars@.take(i as int));
        }
        if !matches!(vars[i].ownership, OwnershipKind::Owned) {
            r.push(vars[i].name.clone());
            proof {
                assert(views(r@) =~= ref_names(vars@.take(i as int)).push(vars@[i as int].name@));
            }
        }
        i += 1;
    }
    proof {
        assert(vars@.take(vars@.len() as int) == vars@);
    }
    r
}

/// Inserts `*` before every bare reference, in `body`, to a variable that
/// the extracted function receives by reference, unless it is already
/// written `*name`; field and method names are left alone.
pub fn rewrite_body_with_derefs(body: &str, vars: &[FreeVariable]) -> (r: String)
    ensures
        r@ == deref_rewrite(body@, vars@),
{
    let targets = reference_names(vars);
    rewrite_names(body, targets.as_slice(), DerefRule::PathUnderDeref)
}

/// Entering a name reference to a target, inside the block, whose path
/// expression is held by a prefix expression: the name gets a `*` unless
/// that expression's operator is `*` itself; so `!flag` becomes `!*flag`
/// and `-x` becomes `-*x`, while `*y` stays.
pub proof fn law_only_a_star_prefix_keeps_a_name(
    m: ScanModel,
    st: SyntaxStep,
    targets: Seq<Seq<char>>,
    rule: DerefRule,
    k: int,
)
    requires
        m.phase == in_body(),
        st.enter,
        st.is_node,
        st.kind@ == "NAME_REF"@,
        targets.contains(st.text@),
        path_expr_at(m.stack, 0) == Some(k),
        k >= 1,
        m.stack[k - 1].tag == NodeTag::PrefixExpr,
    ensures
        m.stack[k - 1].deref_op ==> scan_step(m, st, targets, rule).out == m.out,
        !m.stack[k - 1].deref_op ==> scan_step(m, st, targets, rule).out == m.out.push('*'),
{
    reveal_strlit("NAME_REF");
    reveal_strlit("FN");
    reveal_strlit("BLOCK_EXPR");
    assert(st.kind@.len() == 8);
    assert(st.kind@ != "FN"@);
    assert(st.kind@ != "BLOCK_EXPR"@);
    assert(tag_of(st.kind@) == NodeTag::NameRef);
}

/// A prefix expression is taken as a dereference exactly when its first
/// child, its operator token, is `*`.
pub proof fn law_deref_operator_is_the_star(
    m: ScanModel,
    st: SyntaxStep,
    targets: Seq<Seq<char>>,
    rule: DerefRule,
)
    requires
        m.fresh,
        m.stack.len() > 0,
        m.stack.last() == (Frame { tag: NodeTag::PrefixExpr, deref_op: false }),
        st.enter,
        !st.is_node,
    ensures
        scan_step(m, st, targets, rule).stack.len() == m.stack.len(),
        scan_step(m, st, targets, rule).stack.last().deref_op == (st.kind@ == "STAR"@),
{
    reveal_strlit("STAR");
    if st.kind@ == "STAR"@ {
        reveal_strlit("FN");
        reveal_strlit("BLOCK_EXPR");
        reveal_strlit("NAME_REF");
        reveal_strlit("PREFIX_EXPR");
        assert(st.kind@.len() == 4);
        assert(("FN"@).len() == 2);
        assert(("PREFIX_EXPR"@).len() == 11);
        assert(st.kind@ != "FN"@);
        assert(st.kind@ != "BLOCK_EXPR"@);
        assert(st.kind@ != "NAME_REF"@);
        assert(st.kind@ != "PREFIX_EXPR"@);
        assert(tag_of(st.kind@) == NodeTag::Star);
    }
}

} // verus!
