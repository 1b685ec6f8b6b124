//! Properties of the library that span its functions.

use vstd::prelude::*;
use crate::deref_rewrite::{deref_rewrite, ref_names};
use crate::code_generator::{call_site_text, extracted_fn_text, GeneratedExtraction};
use crate::control_flow_analyzer::{caller_match_text, enum_definition_text, enum_name_text};
use crate::dto::ExtractFunctionResponse;
use crate::errors::ExtractionFailure;
use crate::lifetime_repairer::{lifetime_heuristic, rem_lifetime};
use crate::analysis::{free_vars_of, live_after, moved_in, written_in, NameRefFact};
use crate::ownership_oracle::{is_used_after, refined_ownership, refined_vars};
use crate::value_objects::ByteRange;
use crate::ports::{FreeVariable, OutputVariable, SelectionAnalysis};
use crate::search::{find, lemma_find_from};
use crate::use_cases::{extraction_patch, is_failure_response};
use crate::value_objects::OwnershipKind;

verus! {

/// Refining passing conventions twice gives the same as refining once.
pub proof fn law_refine_idempotent(vars: Seq<FreeVariable>, outputs: Seq<OutputVariable>)
    ensures
        refined_vars(refined_vars(vars, outputs), outputs) == refined_vars(vars, outputs),
{
    let once = refined_vars(vars, outputs);
    assert forall|i: int| 0 <= i < vars.len() implies refined_ownership(#[trigger] once[i], outputs)
        == once[i].ownership by {
    }
    assert(refined_vars(once, outputs) =~= once);
}

/// The oracle's rules on the variables the analysis found: one mutated
/// inside the selection and used after it is passed by `&mut`; one mutated
/// but not used after (and not rebound inside under a name live after) is
/// moved; one only read is passed by `&`.
pub proof fn law_ownership_by_use(
    range: ByteRange,
    refs: Seq<NameRefFact>,
    outputs: Seq<OutputVariable>,
    i: int,
)
    requires
        0 <= i < free_vars_of(range, refs).len(),
    ensures
        ({
            let v = free_vars_of(range, refs)[i];
            let o = refined_vars(free_vars_of(range, refs), outputs)[i].ownership;
            &&& written_in(range, refs, v.name@) && live_after(range, refs, v.name@) ==> o
                == OwnershipKind::MutRef
            &&& written_in(range, refs, v.name@) && !live_after(range, refs, v.name@)
                && !is_used_after(v.name@, outputs) ==> o == OwnershipKind::Owned
            &&& !written_in(range, refs, v.name@) && !moved_in(range, refs, v.name@) ==> o
                == OwnershipKind::SharedRef
        }),
{
}

/// When no free variable is received by reference, the extracted body is
/// the selected text unchanged.
pub proof fn law_moved_variables_keep_body(body: Seq<char>, vars: Seq<FreeVariable>)
    requires
        forall|i: int| 0 <= i < vars.len() ==> (#[trigger] vars[i]).ownership == OwnershipKind::Owned,
    ensures
        deref_rewrite(body, vars) == body,
    decreases vars.len(),
{
    lemma_no_ref_names(vars);
}

proof fn lemma_no_ref_names(vars: Seq<FreeVariable>)
    requires
        forall|i: int| 0 <= i < vars.len() ==> (#[trigger] vars[i]).ownership == OwnershipKind::Owned,
    ensures
        ref_names(vars).len() == 0,
    decreases vars.len(),
{
    if vars.len() > 0 {
        assert forall|i: int| 0 <= i < vars.drop_last().len() implies (#[trigger] vars.drop_last()[i]).ownership
            == OwnershipKind::Owned by {
            assert(vars.drop_last()[i] == vars[i]);
        }
        lemma_no_ref_names(vars.drop_last());
    }
}

/// The patched source keeps the text before the selection as it was.
pub proof fn law_patch_keeps_prefix(
    source: Seq<char>,
    i: int,
    j: int,
    name: Seq<char>,
    a: SelectionAnalysis,
)
    requires
        0 <= i <= j <= source.len(),
    ensures
        extraction_patch(source, i, j, name, a).subrange(0, i) == source.subrange(0, i),
{
    let p = extraction_patch(source, i, j, name, a);
    assert(p.subrange(0, i) =~= source.subrange(0, i));
}

/// The fallback lifetime repair leaves a source without a function alone,
/// and otherwise inserts the fresh lifetime and two separator characters,
/// keeping every other character.
pub proof fn law_heuristic_inserts_lifetime(src: Seq<char>, n: u32)
    ensures
        find(src, "fn "@) is None ==> lifetime_heuristic(src, n) == src,
        find(src, "fn "@) is Some && lifetime_heuristic(src, n) != src ==> lifetime_heuristic(
            src,
            n,
        ).len() == src.len() + rem_lifetime(n).len() + 2,
{
    reveal_strlit(", ");
    reveal_strlit("<");
    reveal_strlit(">");
    reveal_strlit("(");
    reveal_strlit("fn ");
    lemma_find_from(src, "fn "@, 0);
    if let Some(p) = find(src, "fn "@) {
        let rest = src.subrange(p, src.len() as int);
        lemma_find_from(rest, "<"@, 0);
        lemma_find_from(rest, "("@, 0);
    }
}

/// A failed extraction reports its reason twice: as the error, and after
/// the `extraction failed: ` prefix of the summary; it carries no content.
pub proof fn law_failure_reports_reason(resp: ExtractFunctionResponse, reason: ExtractionFailure)
    requires
        is_failure_response(resp, reason),
    ensures
        resp.error matches Some(e) && resp.summary@ == "extraction failed: "@ + e@,
        resp.new_file_content is None,
{
}


/// The patch the extraction hands to the compiler first is the source with
/// the selection replaced by the generator's call site, followed by the
/// control-flow enum (when there is one) and the extracted function: for
/// any output of `CodeGenerator::generate` on the selected text, the
/// refined variables and the plan of `ControlFlowAnalyzer::plan`.
pub proof fn law_patch_is_generated_text(
    source: Seq<char>,
    i: int,
    j: int,
    name: Seq<char>,
    a: SelectionAnalysis,
    g: GeneratedExtraction,
)
    requires
        0 <= i <= j <= source.len(),
        g.extracted_fn_source@ == extracted_fn_text(
            name,
            source.subrange(i, j),
            a,
            refined_vars(a.free_variables@, a.output_variables@),
        ),
        g.call_site_replacement@ == call_site_text(
            name,
            a,
            refined_vars(a.free_variables@, a.output_variables@),
            if a.control_flow_exits@.len() == 0 {
                None
            } else {
                Some(caller_match_text(enum_name_text(name, 0), a.control_flow_exits@))
            },
        ),
        a.control_flow_exits@.len() == 0 ==> g.cf_enum_source is None,
        a.control_flow_exits@.len() > 0 ==> (g.cf_enum_source matches Some(e) && e@
            == enum_definition_text(enum_name_text(name, 0), a.control_flow_exits@)),
    ensures
        extraction_patch(source, i, j, name, a) == source.subrange(0, i) + g.call_site_replacement@
            + source.subrange(j, source.len() as int) + (match g.cf_enum_source {
            Some(e) => "\n"@ + e@,
            None => Seq::empty(),
        }) + "\n"@ + g.extracted_fn_source@,
{
}

} // verus!
