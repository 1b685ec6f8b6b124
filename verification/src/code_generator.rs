//! Source text of an extraction: the new function and the call that
//! replaces the selected fragment.

use vstd::prelude::*;
use crate::control_flow_analyzer::ControlFlowReification;
use crate::deref_rewrite::{deref_rewrite, rewrite_body_with_derefs};
use crate::ports::{FreeVariable, OutputVariable, SelectionAnalysis};
use crate::value_objects::FunctionName;
use crate::text::{chars_of, join, join_strings, owned, push_char, push_str, views, ascii_alnum, is_ascii_alnum};
use crate::value_objects::OwnershipKind;

verus! {

/// The parameter declaration of a free variable.
pub open spec fn param_text(v: FreeVariable) -> Seq<char> {
    match v.ownership {
        OwnershipKind::Owned => v.name@ + ": "@ + v.ty@,
        OwnershipKind::SharedRef => v.name@ + ": &"@ + v.ty@,
        OwnershipKind::MutRef => v.name@ + ": &mut "@ + v.ty@,
    }
}

/// The argument that passes a free variable at the call site.
pub open spec fn arg_text(v: FreeVariable) -> Seq<char> {
    match v.ownership {
        OwnershipKind::Owned => v.name@,
        OwnershipKind::SharedRef => "&"@ + v.name@,
        OwnershipKind::MutRef => "&mut "@ + v.name@,
    }
}

/// The parameter list of the extracted function.
pub open spec fn param_list(vars: Seq<FreeVariable>) -> Seq<char> {
    join(vars.map_values(|v: FreeVariable| param_text(v)), ", "@)
}

/// The argument list of the call.
pub open spec fn arg_list(vars: Seq<FreeVariable>) -> Seq<char> {
    join(vars.map_values(|v: FreeVariable| arg_text(v)), ", "@)
}

/// The return type: nothing, the single output's type, or a tuple.
pub open spec fn return_type_text(outs: Seq<OutputVariable>) -> Seq<char> {
    if outs.len() == 0 {
        Seq::empty()
    } else if outs.len() == 1 {
        outs[0].ty@
    } else {
        "("@ + join(outs.map_values(|o: OutputVariable| o.ty@), ", "@) + ")"@
    }
}

/// The pattern that binds the outputs at the call site.
pub open spec fn output_lhs_text(outs: Seq<OutputVariable>) -> Seq<char> {
    if outs.len() == 1 {
        outs[0].name@
    } else {
        "("@ + join(outs.map_values(|o: OutputVariable| o.name@), ", "@) + ")"@
    }
}

fn param_of(v: &FreeVariable) -> (s: String)
    ensures
        s@ == param_text(*v),
{
    let mut s = owned(v.name.as_str());
    match v.ownership {
        OwnershipKind::Owned => push_str(&mut s, ": "),
        OwnershipKind::SharedRef => push_str(&mut s, ": &"),
        OwnershipKind::MutRef => push_str(&mut s, ": &mut "),
    }
    push_str(&mut s, v.ty.as_str());
    s
}

fn arg_of(v: &FreeVariable) -> (s: String)
    ensures
        s@ == arg_text(*v),
{
    let mut s = String::new();
    match v.ownership {
        OwnershipKind::Owned => {},
        OwnershipKind::SharedRef => push_str(&mut s, "&"),
        OwnershipKind::MutRef => push_str(&mut s, "&mut "),
    }
    push_str(&mut s, v.name.as_str());
    s
}

fn build_param_list(vars: &[FreeVariable]) -> (s: String)
    ensures
        s@ == param_list(vars@),
{
    let mut parts: Vec<String> = Vec::new();
    let mut i: usize = 0;
    while i < vars.len()
        invariant
            i <= vars.len(),
            parts@.len() == i,
            forall|k: int| 0 <= k < i ==> (#[trigger] parts@[k])@ == param_text(vars@[k]),
        decreases vars.len() - i,
    {
        parts.push(param_of(&vars[i]));
        i += 1;
    }
    proof {
        assert(views(parts@) =~= vars@.map_values(|v: FreeVariable| param_text(v)));
    }
    join_strings(&parts, ", ")
}

fn build_arg_list(vars: &[FreeVariable]) -> (s: String)
    ensures
        s@ == arg_list(vars@),
{
    let mut parts: Vec<String> = Vec::new();
    let mut i: usize = 0;
    while i < vars.len()
        invariant
            i <= vars.len(),
            parts@.len() == i,
            forall|k: int| 0 <= k < i ==> (#[trigger] parts@[k])@ == arg_text(vars@[k]),
        decreases vars.len() - i,
    {
        parts.push(arg_of(&vars[i]));
        i += 1;
    }
    proof {
        assert(views(parts@) =~= vars@.map_values(|v: FreeVariable| arg_text(v)));
    }
    join_strings(&parts, ", ")
}

fn output_types(outs: &Vec<OutputVariable>) -> (v: Vec<String>)
    ensures
        views(v@) == outs@.map_values(|o: OutputVariable| o.ty@),
{
    let mut parts: Vec<String> = Vec::new();
    let mut i: usize = 0;
    while i < outs.len()
        invariant
            i <= outs.len(),
            parts@.len() == i,
            forall|k: int| 0 <= k < i ==> (#[trigger] parts@[k])@ == outs@[k].ty@,
        decreases outs.len() - i,
    {
        parts.push(outs[i].ty.clone());
        i += 1;
    }
    proof {
        assert(views(parts@) =~= outs@.map_values(|o: OutputVariable| o.ty@));
    }
    parts
}

fn output_names(outs: &Vec<OutputVariable>) -> (v: Vec<String>)
    ensures
        views(v@) == outs@.map_values(|o: OutputVariable| o.name@),
{
    let mut parts: Vec<String> = Vec::new();
    let mut i: usize = 0;
    while i < outs.len()
        invariant
            i <= outs.len(),
            parts@.len() == i,
            forall|k: int| 0 <= k < i ==> (#[trigger] parts@[k])@ == outs@[k].name@,
        decreases outs.len() - i,
    {
        parts.push(outs[i].name.clone());
        i += 1;
    }
    proof {
        assert(views(parts@) =~= outs@.map_values(|o: OutputVariable| o.name@));
    }
    parts
}

fn build_return_type(analysis: &SelectionAnalysis) -> (s: String)
    ensures
        s@ == return_type_text(analysis.output_variables@),
{
    let outs = &analysis.output_variables;
    if outs.len() == 0 {
        String::new()
    } else if outs.len() == 1 {
        outs[0].ty.clone()
    } else {
        let tys = output_types(outs);
        let mut s = owned("(");
        let inner = join_strings(&tys, ", ");
        push_str(&mut s, inner.as_str());
        push_str(&mut s, ")");
        s
    }
}

fn build_output_lhs(outs: &Vec<OutputVariable>) -> (s: String)
    ensures
        s@ == output_lhs_text(outs@),
{
    if outs.len() == 1 {
        outs[0].name.clone()
    } else {
        let names = output_names(outs);
        let mut s = owned("(");
        let inner = join_strings(&names, ", ");
        push_str(&mut s, inner.as_str());
        push_str(&mut s, ")");
        s
    }
}

/// A character that may continue a lifetime name.
pub open spec fn is_lifetime_char(c: char) -> bool {
    is_ascii_alnum(c) || c == '_'
}

/// The end of the run of lifetime-name characters starting at `i`.
pub open spec fn name_run_end(s: Seq<char>, i: int) -> int
    decreases s.len() - i,
{
    if i < 0 || i >= s.len() || !is_lifetime_char(s[i]) {
        i
    } else {
        name_run_end(s, i + 1)
    }
}

/// The lifetimes named in `s` from position `i` on, in order: each `'`
/// followed by its run of name characters, except a bare `'` and `'static`.
pub open spec fn lifetimes_from(s: Seq<char>, i: int) -> Seq<Seq<char>>
    decreases s.len() - i,
{
    if i < 0 || i >= s.len() {
        Seq::empty()
    } else if s[i] == '\'' {
        let j = name_run_end(s, i + 1);
        proof {
            lemma_name_run_end_bounds(s, i + 1);
        }
        let lt = s.subrange(i, j);
        if j > i + 1 && lt != "'static"@ {
            seq![lt] + lifetimes_from(s, j)
        } else {
            lifetimes_from(s, j)
        }
    } else {
        lifetimes_from(s, i + 1)
    }
}

pub proof fn lemma_name_run_end_bounds(s: Seq<char>, i: int)
    requires
        0 <= i,
    ensures
        i <= name_run_end(s, i),
        i <= s.len() ==> name_run_end(s, i) <= s.len(),
        forall|k: int| i <= k < name_run_end(s, i) ==> is_lifetime_char(#[trigger] s[k]),
        name_run_end(s, i) < s.len() ==> !is_lifetime_char(s[name_run_end(s, i)]),
    decreases s.len() - i,
{
    if i < s.len() && is_lifetime_char(s[i]) {
        lemma_name_run_end_bounds(s, i + 1);
    }
}

/// Pulls the `'name` lifetimes out of a type's text.
fn extract_lifetimes(ty: &str) -> (r: Vec<String>)
    ensures
        views(r@) == lifetimes_from(ty@, 0),
{
    let cs = chars_of(ty);
    let n = cs.len();
    let stat = owned("'static");
    let mut out: Vec<String> = Vec::new();
    let mut i: usize = 0;
    while i < n
        invariant
            i <= n,
            n == cs@.len(),
            cs@ == ty@,
            stat@ == "'static"@,
            views(out@) + lifetimes_from(ty@, i as int) == lifetimes_from(ty@, 0),
        decreases n - i,
    {
        if cs[i] == '\'' {
            let start = i;
            i += 1;
            proof {
                lemma_name_run_end_bounds(ty@, i as int);
            }
            while i < n && (ascii_alnum(cs[i]) || cs[i] == '_')
                invariant
                    start < i <= n,
                    n == cs@.len(),
                    cs@ == ty@,
                    i <= name_run_end(ty@, start + 1),
                    name_run_end(ty@, i as int) == name_run_end(ty@, start + 1),
                decreases n - i,
            {
                proof {
                    lemma_name_run_end_bounds(ty@, i + 1);
                }
                i += 1;
            }
            proof {
                lemma_name_run_end_bounds(ty@, i as int);
            }
            let mut lt = String::new();
            let mut k: usize = start;
            while k < i
                invariant
                    start <= k <= i <= n,
                    n == cs@.len(),
                    lt@ == cs@.subrange(start as int, k as int),
                decreases i - k,
            {
                push_char(&mut lt, cs[k]);
                proof {
                    assert(cs@.subrange(start as int, k + 1) == cs@.subrange(start as int, k as int).push(cs@[k as int]));
                }
                k += 1;
            }
            let ghost prev = views(out@);
            if i - start > 1 && !(lt == stat) {
                out.push(lt);
                proof {
                    assert(views(out@) == prev.push(cs@.subrange(start as int, i as int)));
                    assert(views(out@) + lifetimes_from(ty@, i as int) == prev + lifetimes_from(ty@, start as int));
                }
            }
        } else {
            i += 1;
        }
    }
    proof {
        assert(views(out@) + Seq::<Seq<char>>::empty() == views(out@));
    }
    out
}


/// Every lifetime named in the types of `vars`, in order, repeats included.
pub open spec fn all_lifetimes(vars: Seq<FreeVariable>) -> Seq<Seq<char>>
    decreases vars.len(),
{
    if vars.len() == 0 {
        Seq::empty()
    } else {
        all_lifetimes(vars.drop_last()) + lifetimes_from(vars.last().ty@, 0)
    }
}

/// `s` without repeats, each item kept at its first occurrence.
pub open spec fn dedup(s: Seq<Seq<char>>) -> Seq<Seq<char>>
    decreases s.len(),
{
    if s.len() == 0 {
        Seq::empty()
    } else if dedup(s.drop_last()).contains(s.last()) {
        dedup(s.drop_last())
    } else {
        dedup(s.drop_last()).push(s.last())
    }
}

/// The generic parameters of the extracted function: the distinct lifetimes
/// of the free variables' types, then the referenced generics.
pub open spec fn generic_items(analysis: SelectionAnalysis, vars: Seq<FreeVariable>) -> Seq<
    Seq<char>,
> {
    dedup(all_lifetimes(vars)) + views(analysis.referenced_generics@)
}

/// The generic parameter list, or nothing when there is none.
pub open spec fn generics_text(analysis: SelectionAnalysis, vars: Seq<FreeVariable>) -> Seq<char> {
    let items = generic_items(analysis, vars);
    if items.len() == 0 {
        Seq::empty()
    } else {
        "<"@ + join(items, ", "@) + ">"@
    }
}

fn contains_string(v: &Vec<String>, x: &String) -> (b: bool)
    ensures
        b == views(v@).contains(x@),
{
    let mut i: usize = 0;
    while i < v.len()
        invariant
            i <= v.len(),
            forall|k: int| 0 <= k < i ==> (#[trigger] v@[k])@ != x@,
        decreases v.len() - i,
    {
        if v[i] == *x {
            proof {
                assert(views(v@)[i as int] == x@);
            }
            return true;
        }
        i += 1;
    }
    proof {
        if views(v@).contains(x@) {
            let k = choose|k: int| 0 <= k < views(v@).len() && views(v@)[k] == x@;
            assert(v@[k]@ == x@);
        }
    }
    false
}

fn build_generic_params(analysis: &SelectionAnalysis, vars: &[FreeVariable]) -> (s: String)
    ensures
        s@ == generics_text(*analysis, vars@),
{
    let mut all: Vec<String> = Vec::new();
    let mut i: usize = 0;
    while i < vars.len()
        invariant
            i <= vars.len(),
            views(all@) == dedup(all_lifetimes(vars@.take(i as int))),
        decreases vars.len() - i,
    {
        let lts = extract_lifetimes(vars[i].ty.as_str());
        let ghost base = all_lifetimes(vars@.take(i as int));
        proof {
            assert(vars@.take(i + 1).drop_last() == vars@.take(i as int));
        }
        let mut j: usize = 0;
        while j < lts.len()
            invariant
                j <= lts.len(),
                views(all@) == dedup(base + views(lts@).take(j as int)),
            decreases lts.len() - j,
        {
            let ghost prev = base + views(lts@).take(j as int);
            proof {
                assert((base + views(lts@).take(j + 1)).drop_last() == prev);
                assert((base + views(lts@).take(j + 1)).last() == lts@[j as int]@);
            }
            if !contains_string(&all, &lts[j]) {
                all.push(lts[j].clone());
                proof {
                    assert(views(all@) =~= dedup(prev).push(lts@[j as int]@));
                }
            }
            j += 1;
        }
        proof {
            assert(views(lts@).take(lts@.len() as int) == views(lts@));
        }
        i += 1;
    }
    proof {
        assert(vars@.take(vars@.len() as int) == vars@);
    }
    let gens = &analysis.referenced_generics;
    let mut k: usize = 0;
    while k < gens.len()
        invariant
            k <= gens.len(),
            views(all@) == dedup(all_lifetimes(vars@)) + views(gens@).take(k as int),
        decreases gens.len() - k,
    {
        let ghost prev = views(all@);
        all.push(gens[k].clone());
        proof {
            assert(views(all@) =~= prev.push(gens@[k as int]@));
            assert(views(gens@).take(k + 1) =~= views(gens@).take(k as int).push(gens@[k as int]@));
            assert(views(all@) =~= dedup(all_lifetimes(vars@)) + views(gens@).take(k + 1));
        }
        k += 1;
    }
    proof {
        assert(views(gens@).take(gens@.len() as int) == views(gens@));
    }
    if all.len() == 0 {
        String::new()
    } else {
        let mut s = owned("<");
        let inner = join_strings(&all, ", ");
        push_str(&mut s, inner.as_str());
        push_str(&mut s, ">");
        s
    }
}


/// Pure code-generation service.
pub struct CodeGenerator;

/// All generated text for one extraction.
#[derive(Debug, Clone)]
pub struct GeneratedExtraction {
    /// Full source text of the extracted function.
    pub extracted_fn_source: String,
    /// What replaces the selected fragment in the caller.
    pub call_site_replacement: String,
    /// The auxiliary control-flow enum, when reification is needed.
    pub cf_enum_source: Option<String>,
}

/// ` -> T` for a non-empty return type, else nothing.
pub open spec fn ret_clause(outs: Seq<OutputVariable>) -> Seq<char> {
    if return_type_text(outs).len() == 0 {
        Seq::empty()
    } else {
        " -> "@ + return_type_text(outs)
    }
}

/// The tail expression that hands the outputs back: a line with the
/// output variable, or the tuple of them; nothing without outputs.
pub open spec fn tail_text(outs: Seq<OutputVariable>) -> Seq<char> {
    if outs.len() == 0 {
        Seq::empty()
    } else {
        "\n"@ + output_lhs_text(outs)
    }
}

/// The extracted function: qualifiers, name, generics, parameters, return
/// type, the rewritten body and, when there are outputs, the tail
/// expression that returns them.
pub open spec fn extracted_fn_text(
    name: Seq<char>,
    body: Seq<char>,
    analysis: SelectionAnalysis,
    vars: Seq<FreeVariable>,
) -> Seq<char> {
    (if analysis.is_const { "const "@ } else { Seq::empty() }) + (if analysis.is_async {
        "async "@
    } else {
        Seq::empty()
    }) + "fn "@ + name + generics_text(analysis, vars) + "("@ + param_list(vars) + ")"@ + ret_clause(
        analysis.output_variables@,
    ) + " {\n"@ + deref_rewrite(body, vars) + tail_text(analysis.output_variables@) + "\n}"@
}

/// The call of the extracted function, awaited in an async context; its
/// generic arguments are left to inference.
pub open spec fn call_expr_text(
    name: Seq<char>,
    analysis: SelectionAnalysis,
    vars: Seq<FreeVariable>,
) -> Seq<char> {
    name + "("@ + arg_list(vars) + ")"@ + (if analysis.is_async {
        ".await"@
    } else {
        Seq::empty()
    })
}

/// What replaces the selection: the call, bound to the outputs when there
/// are some, and wrapped in the reification match when there is one.
pub open spec fn call_site_text(
    name: Seq<char>,
    analysis: SelectionAnalysis,
    vars: Seq<FreeVariable>,
    cf_match: Option<Seq<char>>,
) -> Seq<char> {
    let outs = analysis.output_variables@;
    let call = call_expr_text(name, analysis, vars);
    match cf_match {
        None => if outs.len() == 0 {
            call + ";"@
        } else {
            "let "@ + output_lhs_text(outs) + " = "@ + call + ";"@
        },
        Some(m) => "let "@ + (if outs.len() == 0 { "_"@ } else { output_lhs_text(outs) })
            + " = {\n    let result = "@ + call + ";\n    "@ + m + "\n};"@,
    }
}

impl CodeGenerator {
    /// The source text of one extraction.
    pub fn generate(
        fn_name: &FunctionName,
        body: &str,
        analysis: &SelectionAnalysis,
        free_vars: &[FreeVariable],
        cf_reification: Option<&ControlFlowReification>,
    ) -> (g: GeneratedExtraction)
        ensures
            g.extracted_fn_source@ == extracted_fn_text(fn_name@, body@, *analysis, free_vars@),
            g.call_site_replacement@ == call_site_text(
                fn_name@,
                *analysis,
                free_vars@,
                match cf_reification {
                    Some(c) => Some(c.caller_match@),
                    None => None,
                },
            ),
            cf_reification is None ==> g.cf_enum_source is None,
            cf_reification matches Some(c) ==> (g.cf_enum_source matches Some(e)
                && e@ == c.enum_definition@),
    {
        let rewritten_body = rewrite_body_with_derefs(body, free_vars);
        let params = build_param_list(free_vars);
        let args = build_arg_list(free_vars);
        let ret = build_return_type(analysis);
        let generics = build_generic_params(analysis, free_vars);
        let name = fn_name.as_str();

        let mut src = String::new();
        if analysis.is_const {
            push_str(&mut src, "const ");
        }
        if analysis.is_async {
            push_str(&mut src, "async ");
        }
        push_str(&mut src, "fn ");
        push_str(&mut src, name);
        push_str(&mut src, generics.as_str());
        push_str(&mut src, "(");
        push_str(&mut src, params.as_str());
        push_str(&mut src, ")");
        if !ret.as_str().is_empty() {
            push_str(&mut src, " -> ");
            push_str(&mut src, ret.as_str());
        }
        push_str(&mut src, " {\n");
        push_str(&mut src, rewritten_body.as_str());
        let outs = &analysis.output_variables;
        if outs.len() > 0 {
            push_str(&mut src, "\n");
            let tail = build_output_lhs(outs);
            push_str(&mut src, tail.as_str());
        }
        push_str(&mut src, "\n}");

        let mut call = owned(name);
        push_str(&mut call, "(");
        push_str(&mut call, args.as_str());
        push_str(&mut call, ")");
        if analysis.is_async {
            push_str(&mut call, ".await");
        }

        let replacement = match cf_reification {
            None => {
                if outs.len() == 0 {
                    let mut r = owned(call.as_str());
                    push_str(&mut r, ";");
                    r
                } else {
                    let lhs = build_output_lhs(outs);
                    let mut r = owned("let ");
                    push_str(&mut r, lhs.as_str());
                    push_str(&mut r, " = ");
                    push_str(&mut r, call.as_str());
                    push_str(&mut r, ";");
                    r
                }
            },
            Some(cf) => {
                let lhs = if outs.len() == 0 {
                    owned("_")
                } else {
                    build_output_lhs(outs)
                };
                let mut r = owned("let ");
                push_str(&mut r, lhs.as_str());
                push_str(&mut r, " = {\n    let result = ");
                push_str(&mut r, call.as_str());
                push_str(&mut r, ";\n    ");
                push_str(&mut r, cf.caller_match.as_str());
                push_str(&mut r, "\n};");
                r
            },
        };
        let cf_enum_source = match cf_reification {
            Some(cf) => Some(owned(cf.enum_definition.as_str())),
            None => None,
        };
        GeneratedExtraction {
            extracted_fn_source: src,
            call_site_replacement: replacement,
            cf_enum_source,
        }
    }
}

/// The outputs are bound at the call site whether or not control flow is
/// reified: with a single output `x` the replacement starts `let x = `,
/// and with several outputs the reified and the plain replacement start
/// with the same binding.
pub proof fn law_outputs_are_bound_at_the_call_site(
    name: Seq<char>,
    a: SelectionAnalysis,
    vars: Seq<FreeVariable>,
    m: Seq<char>,
)
    requires
        a.output_variables@.len() > 0,
    ensures
        ({
            let p = 7 + output_lhs_text(a.output_variables@).len() as int;
            call_site_text(name, a, vars, Some(m)).take(p) == call_site_text(name, a, vars, None).take(p)
        }),
        a.output_variables@.len() == 1 ==> ({
            let x = a.output_variables@[0].name@;
            &&& call_site_text(name, a, vars, None).take(7 + x.len() as int) == "let "@ + x + " = "@
            &&& call_site_text(name, a, vars, Some(m)).take(7 + x.len() as int) == "let "@ + x + " = "@
        }),
{
    reveal_strlit("let ");
    reveal_strlit(" = ");
    reveal_strlit(" = {\n    let result = ");
    let outs = a.output_variables@;
    let lhs = output_lhs_text(outs);
    let p = 7 + lhs.len() as int;
    let call = call_expr_text(name, a, vars);
    let plain = call_site_text(name, a, vars, None);
    let reified = call_site_text(name, a, vars, Some(m));
    assert(plain == "let "@ + lhs + " = "@ + call + ";"@);
    assert(plain.take(p) =~= "let "@ + lhs + " = "@);
    assert(reified == "let "@ + lhs + " = {\n    let result = "@ + call + ";\n    "@ + m + "\n};"@);
    assert(reified.take(p) =~= "let "@ + lhs + " = "@);
}

} // verus!
