//! The lifetime-repair feedback loop: check the patched source with the
//! compiler, read the first actionable diagnostic, mutate the source, retry.

use vstd::prelude::*;
use crate::errors::{domain_error_text, DomainError, ExtractionFailure};
use crate::ports::{CompilerDiagnostic, LifetimeRepairPort, RepairOutcome};
use crate::search::{
    find, find_in, lemma_find_from, lemma_words_nonempty, replace_all, replace_all_exec,
    replace_first, split_exec, split_on, words_exec, words_of,
};
use crate::text::{chars_of, decimal, is_ascii_alpha, owned, push_decimal, push_str, string_of_range};
use crate::value_objects::FilePath;

verus! {

/// Maximum number of repair iterations before giving up.
pub const MAX_REPAIR_ITERATIONS: u32 = 12;

/// What `char::is_alphabetic` answers (the Unicode `Alphabetic` property).
pub uninterp spec fn is_alphabetic_char(c: char) -> bool;

/// std's `char::is_alphabetic`. Its contract names the result and states
/// the documented ASCII case: of the ASCII characters, exactly the letters
/// are alphabetic.
#[verifier::external_body]
fn alphabetic(c: char) -> (b: bool)
    ensures
        b == is_alphabetic_char(c),
        (c as u32) < 128 ==> b == is_ascii_alpha(c),
{
    c.is_alphabetic()
}

/// Whether `c` is alphabetic: decided by the ASCII ranges for an ASCII
/// character, by the Unicode property otherwise.
pub open spec fn char_alphabetic(c: char) -> bool {
    if (c as u32) < 128 {
        is_ascii_alpha(c)
    } else {
        is_alphabetic_char(c)
    }
}

/// The fresh lifetime of iteration `n`: `'remN`.
pub open spec fn rem_lifetime(n: u32) -> Seq<char> {
    "'rem"@ + decimal(n as nat)
}

/// The fallback repair, on the first function after `fn `: when a `<`
/// comes before its `(` (its own generic list), `'remN, ` is added right
/// after that `<`; otherwise the function gets a generic list `<'remN>`
/// before its `(`. A source without `fn `, or with neither `<` nor `(`
/// after it, is left alone.
pub open spec fn lifetime_heuristic(src: Seq<char>, n: u32) -> Seq<char> {
    let lt = rem_lifetime(n);
    match find(src, "fn "@) {
        Some(p) => {
            let rest = src.subrange(p, src.len() as int);
            let into_generics = |q: int|
                src.subrange(0, p + q + 1) + lt + ", "@ + src.subrange(p + q + 1, src.len() as int);
            let new_generics = |q: int|
                src.subrange(0, p + q) + "<"@ + lt + ">"@ + src.subrange(p + q, src.len() as int);
            match (find(rest, "<"@), find(rest, "("@)) {
                (Some(q), None) => into_generics(q),
                (Some(q), Some(r)) => if q < r {
                    into_generics(q)
                } else {
                    new_generics(r)
                },
                (None, Some(r)) => new_generics(r),
                (None, None) => src,
            }
        },
        None => src,
    }
}

/// Words of a diagnostic that never name the parameter to annotate.
pub open spec fn excluded_word(w: Seq<char>) -> bool {
    w == "static"@ || w == "i32"@ || w == "u32"@ || w == "str"@ || w == "String"@ || w == "Self"@
}

/// The first of `parts[k]`, `parts[k + 2]`, ... that is not excluded.
pub open spec fn pick_target(parts: Seq<Seq<char>>, k: int) -> Option<Seq<char>>
    decreases parts.len() + 2 - k,
{
    if k < 0 || k >= parts.len() {
        None
    } else if !excluded_word(parts[k]) {
        Some(parts[k])
    } else {
        pick_target(parts, k + 2)
    }
}

/// The parameter a missing-lifetime message points at: the first word
/// quoted in backticks that is not excluded (splitting the message at
/// backticks, the quoted words are the pieces 1, 3, 5, ...).
pub open spec fn missing_lifetime_target(msg: Seq<char>) -> Option<Seq<char>> {
    pick_target(split_on(msg, '`'), 1)
}

/// `target: &` in the source gets the lifetime: `target: &'remN `.
pub open spec fn annotate_param(src: Seq<char>, target: Seq<char>, n: u32) -> Option<Seq<char>> {
    let pat = target + ": &"@;
    match find(src, pat) {
        Some(pos) => Some(
            src.subrange(0, pos + pat.len()) + rem_lifetime(n) + " "@ + src.subrange(
                pos + pat.len(),
                src.len() as int,
            ),
        ),
        None => None,
    }
}

/// Repair of a missing lifetime (`E0106`).
pub open spec fn missing_lifetime_repair(src: Seq<char>, msg: Seq<char>, n: u32) -> Seq<char> {
    match missing_lifetime_target(msg) {
        Some(t) => match annotate_param(src, t, n) {
            Some(r) => r,
            None => lifetime_heuristic(src, n),
        },
        None => lifetime_heuristic(src, n),
    }
}

/// A word of an offending span that gets dereferenced: it starts with a
/// letter and is not a keyword.
pub open spec fn should_deref_word(w: Seq<char>) -> bool {
    &&& w.len() > 0
    &&& char_alphabetic(w[0])
    &&& !(w == "for"@ || w == "in"@ || w == "if"@ || w == "while"@ || w == "return"@ || w
        == "matches"@)
}

/// The span with each such word, in turn, replaced everywhere by `*word`.
pub open spec fn deref_words(p: Seq<char>, ws: Seq<Seq<char>>) -> Seq<char>
    decreases ws.len(),
{
    if ws.len() == 0 {
        p
    } else {
        let q = deref_words(p, ws.drop_last());
        if should_deref_word(ws.last()) {
            replace_all(q, ws.last(), "*"@ + ws.last())
        } else {
            q
        }
    }
}

/// Repair of an operator applied to references (`E0369`, `E0368`): the
/// first occurrence of the span gets its words dereferenced.
pub open spec fn operator_repair(src: Seq<char>, span: Option<String>, n: u32) -> Seq<char> {
    match span {
        Some(sp) => if find(src, sp@) is Some {
            replace_first(src, sp@, deref_words(sp@, words_of(sp@)))
        } else {
            lifetime_heuristic(src, n)
        },
        None => lifetime_heuristic(src, n),
    }
}

/// The source after repairing the diagnostic `d` in iteration `n`.
pub open spec fn smarter_repair(src: Seq<char>, d: CompilerDiagnostic, n: u32) -> Seq<char> {
    if d.error_code@ == "E0106"@ {
        missing_lifetime_repair(src, d.message@, n)
    } else if d.error_code@ == "E0369"@ || d.error_code@ == "E0368"@ {
        operator_repair(src, d.span_text, n)
    } else {
        lifetime_heuristic(src, n)
    }
}

/// A compiler error code (`E0...`), the ones the loop acts on.
pub open spec fn is_actionable(d: CompilerDiagnostic) -> bool {
    d.error_code@.len() >= 2 && d.error_code@[0] == 'E' && d.error_code@[1] == '0'
}

/// The first actionable diagnostic.
pub open spec fn first_actionable(ds: Seq<CompilerDiagnostic>) -> Option<CompilerDiagnostic>
    decreases ds.len(),
{
    if ds.len() == 0 {
        None
    } else if is_actionable(ds[0]) {
        Some(ds[0])
    } else {
        first_actionable(ds.drop_first())
    }
}

/// The source after the repairs of `ds`, the k-th in iteration k + 1.
pub open spec fn repaired(src: Seq<char>, ds: Seq<CompilerDiagnostic>) -> Seq<char>
    decreases ds.len(),
{
    if ds.len() == 0 {
        src
    } else {
        smarter_repair(repaired(src, ds.drop_last()), ds.last(), ds.len() as u32)
    }
}

fn pattern(s: &str) -> (v: Vec<char>)
    ensures
        v@ == s@,
{
    chars_of(s)
}

fn apply_lifetime_heuristic(src: String, n: u32) -> (r: String)
    ensures
        r@ == lifetime_heuristic(src@, n),
{
    let cs = chars_of(src.as_str());
    let len = cs.len();
    let fn_pat = pattern("fn ");
    proof {
        reveal_strlit("<");
        reveal_strlit("(");
    }
    match find_in(&cs, &fn_pat, 0) {
        Some(p) => {
            proof {
                lemma_find_from(cs@, fn_pat@, 0);
            }
            let rest = string_of_range(&cs, p, cs.len());
            let rest_cs = chars_of(rest.as_str());
            let lt_pat = pattern("<");
            let paren = pattern("(");
            let mut lt = owned("'rem");
            push_decimal(&mut lt, n as u64);
            let lt_at = find_in(&rest_cs, &lt_pat, 0);
            let paren_at = find_in(&rest_cs, &paren, 0);
            proof {
                lemma_find_from(rest_cs@, lt_pat@, 0);
                lemma_find_from(rest_cs@, paren@, 0);
            }
            let generic_pos: Option<usize> = match (lt_at, paren_at) {
                (Some(q), None) => Some(q),
                (Some(q), Some(r)) => if q < r {
                    Some(q)
                } else {
                    None
                },
                _ => None,
            };
            match generic_pos {
                Some(q) => {
                    let mut r = string_of_range(&cs, 0, p + q + 1);
                    push_str(&mut r, lt.as_str());
                    push_str(&mut r, ", ");
                    let tail = string_of_range(&cs, p + q + 1, cs.len());
                    push_str(&mut r, tail.as_str());
                    r
                },
                None => match paren_at {
                    Some(q) => {
                        let mut r = string_of_range(&cs, 0, p + q);
                        push_str(&mut r, "<");
                        push_str(&mut r, lt.as_str());
                        push_str(&mut r, ">");
                        let tail = string_of_range(&cs, p + q, cs.len());
                        push_str(&mut r, tail.as_str());
                        r
                    },
                    None => src,
                },
            }
        },
        None => src,
    }
}

fn is_excluded(w: &Vec<char>) -> (b: bool)
    ensures
        b == excluded_word(w@),
{
    let s = string_of_range(w, 0, w.len());
    proof {
        assert(w@.subrange(0, w@.len() as int) == w@);
    }
    s == owned("static") || s == owned("i32") || s == owned("u32") || s == owned("str") || s
        == owned("String") || s == owned("Self")
}

fn is_keyword(w: &Vec<char>) -> (b: bool)
    ensures
        b == (w@ == "for"@ || w@ == "in"@ || w@ == "if"@ || w@ == "while"@ || w@ == "return"@
            || w@ == "matches"@),
{
    let s = string_of_range(w, 0, w.len());
    proof {
        assert(w@.subrange(0, w@.len() as int) == w@);
    }
    s == owned("for") || s == owned("in") || s == owned("if") || s == owned("while") || s
        == owned("return") || s == owned("matches")
}

fn target_of(msg: &str) -> (t: Option<String>)
    ensures
        t matches Some(w) ==> missing_lifetime_target(msg@) == Some(w@),
        t is None ==> missing_lifetime_target(msg@) is None,
{
    let cs = chars_of(msg);
    let parts = split_exec(&cs, '`');
    let ghost ps = split_on(msg@, '`');
    let mut k: usize = 1;
    while k < parts.len()
        invariant
            ps == split_on(msg@, '`'),
            parts@.len() == ps.len(),
            forall|m: int| 0 <= m < parts@.len() ==> (#[trigger] parts@[m])@ == ps[m],
            k >= 1,
            pick_target(ps, 1) == pick_target(ps, k as int),
        decreases parts.len() + 2 - k,
    {
        if !is_excluded(&parts[k]) {
            let w = string_of_range(&parts[k], 0, parts[k].len());
            proof {
                assert(parts@[k as int]@.subrange(0, parts@[k as int]@.len() as int)
                    == parts@[k as int]@);
                assert(pick_target(ps, k as int) == Some(ps[k as int]));
            }
            return Some(w);
        }
        if parts.len() - k <= 2 {
            proof {
                assert(pick_target(ps, k + 2) is None);
                assert(pick_target(ps, k as int) == pick_target(ps, k + 2));
            }
            return None;
        }
        proof {
            assert(pick_target(ps, k as int) == pick_target(ps, k + 2));
        }
        k += 2;
    }
    None
}

fn deref_span(sp: &String) -> (r: String)
    ensures
        r@ == deref_words(sp@, words_of(sp@)),
{
    let cs = chars_of(sp.as_str());
    let words = words_exec(&cs);
    proof {
        lemma_words_nonempty(sp@);
    }
    let ghost ws = words_of(sp@);
    let mut patched = owned(sp.as_str());
    let mut i: usize = 0;
    while i < words.len()
        invariant
            i <= words@.len(),
            words@.len() == ws.len(),
            forall|m: int| 0 <= m < words@.len() ==> (#[trigger] words@[m])@ == ws[m],
            forall|m: int| 0 <= m < ws.len() ==> (#[trigger] ws[m]).len() > 0,
            patched@ == deref_words(sp@, ws.take(i as int)),
        decreases words.len() - i,
    {
        proof {
            assert(ws.take(i + 1).drop_last() == ws.take(i as int));
            assert(ws.take(i + 1).last() == ws[i as int]);
        }
        let w = &words[i];
        if alphabetic(w[0]) && !is_keyword(w) {
            let mut rep = owned("*");
            let wt = string_of_range(w, 0, w.len());
            proof {
                assert(w@.subrange(0, w@.len() as int) == w@);
            }
            push_str(&mut rep, wt.as_str());
            let pcs = chars_of(patched.as_str());
            patched = replace_all_exec(&pcs, w, rep.as_str());
        }
        i += 1;
    }
    proof {
        assert(ws.take(ws.len() as int) == ws);
    }
    patched
}

fn apply_smarter_repair(src: &str, diagnostic: &CompilerDiagnostic, n: u32) -> (r: String)
    ensures
        r@ == smarter_repair(src@, *diagnostic, n),
{
    let code = &diagnostic.error_code;
    if *code == owned("E0106") {
        match target_of(diagnostic.message.as_str()) {
            Some(target) => {
                let cs = chars_of(src);
                let len = cs.len();
                let mut pat = chars_of(target.as_str());
                pat.push(':');
                pat.push(' ');
                pat.push('&');
                proof {
                    reveal_strlit(": &");
                    assert(pat@ =~= target@ + ": &"@);
                    assert(len == cs@.len());
                }
                match find_in(&cs, &pat, 0) {
                    Some(pos) => {
                        proof {
                            lemma_find_from(cs@, pat@, 0);
                        }
                        let insert = pos + pat.len();
                        let mut r = string_of_range(&cs, 0, insert);
                        push_str(&mut r, "'rem");
                        push_decimal(&mut r, n as u64);
                        push_str(&mut r, " ");
                        let tail = string_of_range(&cs, insert, cs.len());
                        push_str(&mut r, tail.as_str());
                        r
                    },
                    None => apply_lifetime_heuristic(owned(src), n),
                }
            },
            None => apply_lifetime_heuristic(owned(src), n),
        }
    } else if *code == owned("E0369") || *code == owned("E0368") {
        match &diagnostic.span_text {
            Some(span) => {
                let cs = chars_of(src);
                let len = cs.len();
                let sp = chars_of(span.as_str());
                match find_in(&cs, &sp, 0) {
                    Some(pos) => {
                        proof {
                            lemma_find_from(cs@, sp@, 0);
                        }
                        let patched = deref_span(span);
                        let mut r = string_of_range(&cs, 0, pos);
                        push_str(&mut r, patched.as_str());
                        let tail = string_of_range(&cs, pos + sp.len(), cs.len());
                        push_str(&mut r, tail.as_str());
                        r
                    },
                    None => apply_lifetime_heuristic(owned(src), n),
                }
            },
            None => apply_lifetime_heuristic(owned(src), n),
        }
    } else {
        apply_lifetime_heuristic(owned(src), n)
    }
}


/// What one compiler answer makes of the loop.
#[derive(Debug, Clone)]
pub enum RepairStep {
    /// The compiler accepts the current source.
    Accept,
    /// Repair `error_code`, giving `patch`, and check again.
    Retry { patch: String, error_code: String },
    /// No diagnostic can be acted on.
    GiveUp(ExtractionFailure),
}

/// `step` is what the loop does with the compiler's answer on `current` in
/// iteration `n`: stop on acceptance, repair the first actionable
/// diagnostic, or give up when there is none.
pub open spec fn is_repair_step(step: RepairStep, current: Seq<char>, n: u32, outcome: RepairOutcome) -> bool {
    match outcome {
        RepairOutcome::Accepted => step is Accept,
        RepairOutcome::Rejected { diagnostics } => match first_actionable(diagnostics@) {
            Some(d) => step matches RepairStep::Retry { patch, error_code }
                && patch@ == smarter_repair(current, d, n) && error_code@ == d.error_code@,
            None => step matches RepairStep::GiveUp(
                ExtractionFailure::LifetimeRepairExhausted { iterations, last_error },
            ) && iterations == n && last_error@ == "no actionable diagnostic found"@,
        },
    }
}

fn actionable(d: &CompilerDiagnostic) -> (b: bool)
    ensures
        b == is_actionable(*d),
{
    let cs = chars_of(d.error_code.as_str());
    cs.len() >= 2 && cs[0] == 'E' && cs[1] == '0'
}

fn find_actionable(ds: &Vec<CompilerDiagnostic>) -> (r: Option<usize>)
    ensures
        r matches Some(i) ==> i < ds@.len() && first_actionable(ds@) == Some(ds@[i as int]),
        r is None ==> first_actionable(ds@) is None,
{
    let mut i: usize = 0;
    proof {
        assert(ds@.skip(0) == ds@);
    }
    while i < ds.len()
        invariant
            i <= ds@.len(),
            first_actionable(ds@) == first_actionable(ds@.skip(i as int)),
        decreases ds.len() - i,
    {
        proof {
            assert(ds@.skip(i as int).drop_first() == ds@.skip(i + 1));
            assert(ds@.skip(i as int)[0] == ds@[i as int]);
        }
        if actionable(&ds[i]) {
            return Some(i);
        }
        i += 1;
    }
    None
}

/// The repair loop's decision on one compiler answer.
pub fn next_repair_step(current: &str, iteration: u32, outcome: &RepairOutcome) -> (step: RepairStep)
    ensures
        is_repair_step(step, current@, iteration, *outcome),
{
    match outcome {
        RepairOutcome::Accepted => RepairStep::Accept,
        RepairOutcome::Rejected { diagnostics } => match find_actionable(diagnostics) {
            Some(i) => {
                let d = &diagnostics[i];
                let patch = apply_smarter_repair(current, d, iteration);
                RepairStep::Retry { patch, error_code: d.error_code.clone() }
            },
            None => RepairStep::GiveUp(
                ExtractionFailure::LifetimeRepairExhausted {
                    iterations: iteration,
                    last_error: owned("no actionable diagnostic found"),
                },
            ),
        },
    }
}

/// Pure orchestration service driving the lifetime-repair feedback loop.
pub struct LifetimeRepairer;

/// Every diagnostic is actionable.
pub open spec fn all_actionable(ds: Seq<CompilerDiagnostic>) -> bool {
    forall|k: int| 0 <= k < ds.len() ==> is_actionable(#[trigger] ds[k])
}

/// What the repair loop may end with, whatever the compiler answers.
pub open spec fn is_repair_failure(e: ExtractionFailure) -> bool {
    ||| (e matches ExtractionFailure::AnalysisFailed(m) && exists|d: DomainError|
        m@ == domain_error_text(d))
    ||| (e matches ExtractionFailure::LifetimeRepairExhausted { iterations, last_error }
        && 1 <= iterations <= MAX_REPAIR_ITERATIONS && last_error@
        == "no actionable diagnostic found"@)
    ||| (e matches ExtractionFailure::LifetimeRepairExhausted { iterations, last_error }
        && iterations == MAX_REPAIR_ITERATIONS && last_error@ == "budget exhausted"@)
}

/// The loop's reading of the compiler port's answer: the outcome, or for
/// the port's error `e` the failure `AnalysisFailed` with `e`'s message.
pub fn after_check(answer: Result<RepairOutcome, DomainError>) -> (r: Result<RepairOutcome, ExtractionFailure>)
    ensures
        answer is Ok ==> r is Ok && r->Ok_0 == answer->Ok_0,
        answer is Err ==> r is Err && r->Err_0 is AnalysisFailed && r->Err_0->AnalysisFailed_0@
            == domain_error_text(answer->Err_0),
{
    match answer {
        Ok(o) => Ok(o),
        Err(e) => Err(ExtractionFailure::AnalysisFailed(e.message())),
    }
}

/// A repair failure reports how many compiler checks it took: the budget
/// runs out only after `MAX_REPAIR_ITERATIONS` checks, each rejecting with
/// an actionable diagnostic that was repaired; a rejection without one at
/// check `n` follows `n - 1` repaired rejections.
pub open spec fn exhausted_after_checks(e: ExtractionFailure) -> bool {
    e matches ExtractionFailure::LifetimeRepairExhausted { iterations, last_error } ==> exists|
        ds: Seq<CompilerDiagnostic>,
    |
        #[trigger] all_actionable(ds) && (last_error@ == "budget exhausted"@ ==> ds.len()
            == MAX_REPAIR_ITERATIONS) && (last_error@ == "no actionable diagnostic found"@ ==> ds.len()
            == iterations - 1)
}

impl LifetimeRepairer {
    /// Runs the repair loop: at most `MAX_REPAIR_ITERATIONS` compiler checks.
    /// Whatever the compiler answers, an accepted source is the initial patch
    /// after the repairs of the diagnostics acted on (fewer than the budget),
    /// and a failure is a port error, a rejection without actionable
    /// diagnostic, or the exhausted budget.
    pub fn repair<F: FnMut(u32, &str), P: LifetimeRepairPort>(
        project_root: &str,
        file: &FilePath,
        initial_patch: String,
        port: &P,
        on_iteration: F,
    ) -> (r: Result<String, ExtractionFailure>)
        requires
            forall|iteration: u32, error_code: &str| call_requires(on_iteration, (iteration, error_code)),
        ensures
            r matches Ok(s) ==> exists|ds: Seq<CompilerDiagnostic>|
                ds.len() < MAX_REPAIR_ITERATIONS && all_actionable(ds) && s@ == repaired(
                    initial_patch@,
                    ds,
                ),
            r matches Err(e) ==> is_repair_failure(e),
            r matches Err(e) ==> exhausted_after_checks(e),
    {
        match Self::repair_counting(project_root, file, initial_patch, port, on_iteration) {
            Ok((s, _)) => Ok(s),
            Err(e) => Err(e),
        }
    }

    /// `repair`, also answering how many repairs were made (the number of
    /// the last iteration that called `on_iteration`, or 0).
    pub fn repair_counting<F: FnMut(u32, &str), P: LifetimeRepairPort>(
        project_root: &str,
        file: &FilePath,
        initial_patch: String,
        port: &P,
        on_iteration: F,
    ) -> (r: Result<(String, u32), ExtractionFailure>)
        requires
            forall|iteration: u32, error_code: &str| call_requires(on_iteration, (iteration, error_code)),
        ensures
            r matches Ok((s, n)) ==> exists|ds: Seq<CompilerDiagnostic>|
                ds.len() == n && n < MAX_REPAIR_ITERATIONS && all_actionable(ds) && s@ == repaired(
                    initial_patch@,
                    ds,
                ),
            r matches Err(e) ==> is_repair_failure(e),
            r matches Err(e) ==> exhausted_after_checks(e),
    {
        let ghost callback = on_iteration;
        let mut on_iteration = on_iteration;
        let mut current = initial_patch;
        let ghost mut ds: Seq<CompilerDiagnostic> = Seq::empty();
        let mut repairs: u32 = 0;
        let mut iteration: u32 = 1;
        while iteration <= MAX_REPAIR_ITERATIONS
            invariant
                on_iteration == callback,
                forall|it: u32, code: &str| call_requires(callback, (it, code)),
                1 <= iteration <= MAX_REPAIR_ITERATIONS + 1,
                ds.len() == iteration - 1,
                repairs == ds.len(),
                all_actionable(ds),
                current@ == repaired(initial_patch@, ds),
            decreases MAX_REPAIR_ITERATIONS + 1 - iteration,
        {
            let outcome = match after_check(port.check(project_root, file, current.as_str())) {
                Ok(o) => o,
                Err(f) => return Err(f),
            };
            match next_repair_step(current.as_str(), iteration, &outcome) {
                RepairStep::Accept => return Ok((current, repairs)),
                RepairStep::GiveUp(f) => {
                    proof {
                        reveal_strlit("budget exhausted");
                        reveal_strlit("no actionable diagnostic found");
                        assert(("no actionable diagnostic found"@).len() != ("budget exhausted"@).len());
                        assert(exhausted_after_checks(f)) by {
                            assert(all_actionable(ds));
                        }
                    }
                    return Err(f);
                },
                RepairStep::Retry { patch, error_code } => {
                    let code = error_code.as_str();
                    proof {
                        assert(call_requires(on_iteration, (iteration, code)));
                    }
                    on_iteration(iteration, code);
                    repairs = iteration;
                    proof {
                        let d = match outcome {
                            RepairOutcome::Rejected { diagnostics } => first_actionable(diagnostics@)->0,
                            RepairOutcome::Accepted => arbitrary(),
                        };
                        lemma_first_actionable(outcome);
                        let ds2 = ds.push(d);
                        assert(ds2.drop_last() == ds);
                        ds = ds2;
                    }
                    current = patch;
                },
            }
            iteration += 1;
        }
        let failure = ExtractionFailure::LifetimeRepairExhausted {
            iterations: MAX_REPAIR_ITERATIONS,
            last_error: owned("budget exhausted"),
        };
        proof {
            reveal_strlit("budget exhausted");
            reveal_strlit("no actionable diagnostic found");
            assert(("no actionable diagnostic found"@).len() != ("budget exhausted"@).len());
            assert(ds.len() == MAX_REPAIR_ITERATIONS);
            assert(all_actionable(ds));
            assert(exhausted_after_checks(failure));
        }
        Err(failure)
    }
}

pub proof fn lemma_first_actionable_is(ds: Seq<CompilerDiagnostic>)
    ensures
        first_actionable(ds) matches Some(d) ==> is_actionable(d),
    decreases ds.len(),
{
    if ds.len() > 0 && !is_actionable(ds[0]) {
        lemma_first_actionable_is(ds.drop_first());
    }
}

pub proof fn lemma_first_actionable(outcome: RepairOutcome)
    ensures
        outcome matches RepairOutcome::Rejected { diagnostics } ==> (first_actionable(
            diagnostics@,
        ) matches Some(d) ==> is_actionable(d)),
{
    if let RepairOutcome::Rejected { diagnostics } = outcome {
        lemma_first_actionable_is(diagnostics@);
    }
}

} // verus!
