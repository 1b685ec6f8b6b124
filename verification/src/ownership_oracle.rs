//! Passing convention of each free variable at the new function boundary.

use vstd::prelude::*;
use crate::ports::{FreeVariable, OutputVariable, SelectionAnalysis};
use crate::value_objects::OwnershipKind;

verus! {

/// Policy service: the refined passing convention of free variables.
pub struct OwnershipOracle;

/// Some output variable (live after the selection) has this name.
pub open spec fn is_used_after(name: Seq<char>, outputs: Seq<OutputVariable>) -> bool {
    exists|j: int| 0 <= j < outputs.len() && (#[trigger] outputs[j]).name@ == name
}

/// The convention a free variable ends up with. The analysis has already
/// passed a mutated variable by `&mut` exactly when it is live after the
/// selection, and moved one that is not; the oracle keeps that, and
/// promotes a moved variable to `&mut` when a binding of its name inside
/// the selection is live after it. A read-only variable stays shared.
pub open spec fn refined_ownership(v: FreeVariable, outputs: Seq<OutputVariable>) -> OwnershipKind {
    match v.ownership {
        OwnershipKind::MutRef => OwnershipKind::MutRef,
        OwnershipKind::Owned => if is_used_after(v.name@, outputs) {
            OwnershipKind::MutRef
        } else {
            OwnershipKind::Owned
        },
        OwnershipKind::SharedRef => OwnershipKind::SharedRef,
    }
}

/// `vars` with every convention refined against `outputs`.
pub open spec fn refined_vars(vars: Seq<FreeVariable>, outputs: Seq<OutputVariable>) -> Seq<FreeVariable> {
    vars.map_values(
        |v: FreeVariable| FreeVariable { name: v.name, ty: v.ty, ownership: refined_ownership(v, outputs) },
    )
}

/// `r` is `vars` with every convention refined against `outputs`.
pub open spec fn is_refinement_of(
    r: Seq<FreeVariable>,
    vars: Seq<FreeVariable>,
    outputs: Seq<OutputVariable>,
) -> bool {
    &&& r.len() == vars.len()
    &&& forall|i: int|
        0 <= i < vars.len() ==> {
            &&& (#[trigger] r[i]).name@ == vars[i].name@
            &&& r[i].ty@ == vars[i].ty@
            &&& r[i].ownership == refined_ownership(vars[i], outputs)
        }
}

fn used_after(name: &String, outputs: &Vec<OutputVariable>) -> (b: bool)
    ensures
        b == is_used_after(name@, outputs@),
{
    let mut j: usize = 0;
    while j < outputs.len()
        invariant
            j <= outputs.len(),
            forall|k: int| 0 <= k < j ==> (#[trigger] outputs@[k]).name@ != name@,
        decreases outputs.len() - j,
    {
        if outputs[j].name == *name {
            return true;
        }
        j += 1;
    }
    false
}

impl OwnershipOracle {
    /// Refines the convention of each free variable of the analysis, in order.
    pub fn refine(analysis: &SelectionAnalysis) -> (r: Vec<FreeVariable>)
        ensures
            r@ == refined_vars(analysis.free_variables@, analysis.output_variables@),
            is_refinement_of(r@, analysis.free_variables@, analysis.output_variables@),
    {
        let vars = &analysis.free_variables;
        let mut out: Vec<FreeVariable> = Vec::new();
        let mut i: usize = 0;
        while i < vars.len()
            invariant
                i <= vars.len(),
                out@.len() == i,
                forall|k: int|
                    0 <= k < i ==> {
                        &&& (#[trigger] out@[k]).name == vars@[k].name
                        &&& out@[k].ty == vars@[k].ty
                        &&& out@[k].name@ == vars@[k].name@
                        &&& out@[k].ty@ == vars@[k].ty@
                        &&& out@[k].ownership == refined_ownership(
                            vars@[k],
                            analysis.output_variables@,
                        )
                    },
            decreases vars.len() - i,
        {
            let v = &vars[i];
            let ownership = match v.ownership {
                OwnershipKind::MutRef => OwnershipKind::MutRef,
                OwnershipKind::Owned => {
                    if used_after(&v.name, &analysis.output_variables) {
                        OwnershipKind::MutRef
                    } else {
                        OwnershipKind::Owned
                    }
                },
                OwnershipKind::SharedRef => OwnershipKind::SharedRef,
            };
            out.push(FreeVariable { name: v.name.clone(), ty: v.ty.clone(), ownership });
            i += 1;
        }
        proof {
            assert(out@ =~= refined_vars(vars@, analysis.output_variables@));
        }
        out
    }
}

} // verus!
