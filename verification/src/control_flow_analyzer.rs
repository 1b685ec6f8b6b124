//! Reification of non-local control flow (`return`, `break`, `continue`, `?`)
//! that leaves an extracted fragment: an auxiliary enum and the caller's match.

use vstd::prelude::*;
use crate::errors::ExtractionFailure;
use crate::ports::SelectionAnalysis;
use crate::text::{ascii_upper, decimal, owned, push_char, push_decimal, push_str, push_uppercase, chars_of, uppercase_of};
use crate::value_objects::ControlFlowKind;

verus! {

/// Pure service planning the control-flow reification of one extraction.
pub struct ControlFlowAnalyzer;

/// The reification needed for one extraction.
#[derive(Debug, Clone)]
pub struct ControlFlowReification {
    /// Name of the auxiliary enum, e.g. `ComputeValueCf0`.
    pub enum_name: String,
    /// Source text of the enum definition.
    pub enum_definition: String,
    /// Source text of the match the caller uses on the result.
    pub caller_match: String,
}

/// The text that the character at `i` contributes to the PascalCase form:
/// underscores vanish, the first character of each `_`-separated word is
/// upper-cased, the others are kept.
pub open spec fn pascal_piece(s: Seq<char>, i: int) -> Seq<char> {
    if s[i] == '_' {
        Seq::empty()
    } else if i == 0 || s[i - 1] == '_' {
        uppercase_of(s[i])
    } else {
        seq![s[i]]
    }
}

/// `snake_case` to `PascalCase`.
pub open spec fn pascal_of(s: Seq<char>) -> Seq<char>
    decreases s.len(),
{
    if s.len() == 0 {
        Seq::empty()
    } else {
        pascal_of(s.drop_last()) + pascal_piece(s, s.len() - 1)
    }
}

/// `pascal_piece` for an ASCII name, whose upper-case mapping is known.
pub open spec fn ascii_pascal_piece(s: Seq<char>, i: int) -> Seq<char> {
    if s[i] == '_' {
        Seq::empty()
    } else if i == 0 || s[i - 1] == '_' {
        seq![ascii_upper(s[i])]
    } else {
        seq![s[i]]
    }
}

/// `snake_case` to `PascalCase` for an ASCII name: `_` dropped, the first
/// letter of each word mapped from `a`-`z` to `A`-`Z`.
pub open spec fn ascii_pascal_of(s: Seq<char>) -> Seq<char>
    decreases s.len(),
{
    if s.len() == 0 {
        Seq::empty()
    } else {
        ascii_pascal_of(s.drop_last()) + ascii_pascal_piece(s, s.len() - 1)
    }
}

/// The PascalCase form of a name, stated by the ASCII mapping where the
/// name is ASCII.
pub open spec fn pascal_text(s: Seq<char>) -> Seq<char> {
    if is_ascii_text(s) {
        ascii_pascal_of(s)
    } else {
        pascal_of(s)
    }
}

proof fn lemma_pascal_piece_prefix(s: Seq<char>, i: int)
    requires
        0 <= i < s.len(),
    ensures
        pascal_piece(s.take(i + 1), i) == pascal_piece(s, i),
        ascii_pascal_piece(s.take(i + 1), i) == ascii_pascal_piece(s, i),
{
}

/// Number of characters of `s` other than `_`.
pub open spec fn non_underscores(s: Seq<char>) -> nat
    decreases s.len(),
{
    if s.len() == 0 {
        0
    } else {
        non_underscores(s.drop_last()) + if s.last() == '_' { 0nat } else { 1nat }
    }
}

/// All characters of `s` are ASCII.
pub open spec fn is_ascii_text(s: Seq<char>) -> bool {
    forall|i: int| 0 <= i < s.len() ==> (#[trigger] s[i] as u32) < 128
}

/// Converts `snake_case` to `PascalCase` for enum naming. An ASCII name
/// loses every `_` and keeps one character per other character.
pub fn pascal(s: &str) -> (r: String)
    ensures
        r@ == pascal_of(s@),
        r@ == pascal_text(s@),
        is_ascii_text(s@) ==> r@ == ascii_pascal_of(s@),
        is_ascii_text(s@) ==> !r@.contains('_') && r@.len() == non_underscores(s@),
{
    let cs = chars_of(s);
    let mut r = String::new();
    let mut i: usize = 0;
    while i < cs.len()
        invariant
            i <= cs.len(),
            cs@ == s@,
            r@ == pascal_of(s@.take(i as int)),
            is_ascii_text(s@) ==> !r@.contains('_') && r@.len() == non_underscores(s@.take(i as int)),
            is_ascii_text(s@) ==> r@ == ascii_pascal_of(s@.take(i as int)),
        decreases cs.len() - i,
    {
        let c = cs[i];
        let ghost before = r@;
        proof {
            lemma_pascal_piece_prefix(s@, i as int);
            assert(s@.take(i + 1).drop_last() == s@.take(i as int));
        }
        if c == '_' {
        } else if i == 0 || cs[i - 1] == '_' {
            push_uppercase(&mut r, c);
        } else {
            push_char(&mut r, c);
        }
        proof {
            if is_ascii_text(s@) {
                assert((c as u32) < 128);
                assert(r@ == before + ascii_pascal_piece(s@, i as int));
                if c != '_' {
                    assert(r@ == before.push(if i == 0 || cs@[i - 1] == '_' { ascii_upper(c) } else { c }));
                    assert(ascii_upper(c) != '_');
                    assert(r@.last() != '_');
                }
                assert(!r@.contains('_')) by {
                    if r@.contains('_') {
                        let k = choose|k: int| 0 <= k < r@.len() && r@[k] == '_';
                        if k < before.len() {
                            assert(before[k] == '_');
                        }
                    }
                }
            }
        }
        i += 1;
    }
    proof {
        assert(s@.take(cs.len() as int) == s@);
    }
    r
}

/// The enum variant line for one exit kind.
pub open spec fn variant_line(k: ControlFlowKind) -> Seq<char> {
    match k {
        ControlFlowKind::Return => "    Return(R)"@,
        ControlFlowKind::Break => "    Break"@,
        ControlFlowKind::Continue => "    Continue"@,
        ControlFlowKind::Try => "    Err(E)"@,
    }
}

/// The variant lines of the enum, `Normal(T)` first, separated by `,\n`.
pub open spec fn variant_lines(exits: Seq<ControlFlowKind>) -> Seq<char>
    decreases exits.len(),
{
    if exits.len() == 0 {
        "    Normal(T)"@
    } else {
        variant_lines(exits.drop_last()) + ",\n"@ + variant_line(exits.last())
    }
}

/// The generic parameters of the enum: `T`, then `R` if some exit returns,
/// then `E` if some exit propagates with `?`.
pub open spec fn enum_generics(exits: Seq<ControlFlowKind>) -> Seq<char> {
    "T"@ + (if exits.contains(ControlFlowKind::Return) { ", R"@ } else { Seq::empty() }) + (
    if exits.contains(ControlFlowKind::Try) {
        ", E"@
    } else {
        Seq::empty()
    })
}

/// Source text of the auxiliary enum.
pub open spec fn enum_definition_text(name: Seq<char>, exits: Seq<ControlFlowKind>) -> Seq<char> {
    "#[allow(dead_code)]\nenum "@ + name + "<"@ + enum_generics(exits) + "> {\n"@ + variant_lines(
        exits,
    ) + "\n}"@
}

/// The match arm of the caller for one exit kind.
pub open spec fn match_arm(name: Seq<char>, k: ControlFlowKind) -> Seq<char> {
    match k {
        ControlFlowKind::Return => "    "@ + name + "::Return(r) => return r,"@,
        ControlFlowKind::Break => "    "@ + name + "::Break => break,"@,
        ControlFlowKind::Continue => "    "@ + name + "::Continue => continue,"@,
        ControlFlowKind::Try => "    "@ + name + "::Err(e) => return Err(e),"@,
    }
}

/// The match arms, the `Normal` arm first, one per line.
pub open spec fn match_arms(name: Seq<char>, exits: Seq<ControlFlowKind>) -> Seq<char>
    decreases exits.len(),
{
    if exits.len() == 0 {
        "    "@ + name + "::Normal(v) => v,"@
    } else {
        match_arms(name, exits.drop_last()) + "\n"@ + match_arm(name, exits.last())
    }
}

/// Source text of the caller's match on `result`.
pub open spec fn caller_match_text(name: Seq<char>, exits: Seq<ControlFlowKind>) -> Seq<char> {
    "match result {\n"@ + match_arms(name, exits) + "\n}"@
}

/// Name of the auxiliary enum of an extracted function.
pub open spec fn enum_name_text(fn_name: Seq<char>, serial: u32) -> Seq<char> {
    pascal_text(fn_name) + "Cf"@ + decimal(serial as nat)
}

fn push_variant_line(s: &mut String, k: ControlFlowKind)
    ensures
        final(s)@ == old(s)@ + variant_line(k),
{
    match k {
        ControlFlowKind::Return => push_str(s, "    Return(R)"),
        ControlFlowKind::Break => push_str(s, "    Break"),
        ControlFlowKind::Continue => push_str(s, "    Continue"),
        ControlFlowKind::Try => push_str(s, "    Err(E)"),
    }
}

fn push_match_arm(s: &mut String, name: &str, k: ControlFlowKind)
    ensures
        final(s)@ == old(s)@ + match_arm(name@, k),
{
    push_str(s, "    ");
    push_str(s, name);
    match k {
        ControlFlowKind::Return => push_str(s, "::Return(r) => return r,"),
        ControlFlowKind::Break => push_str(s, "::Break => break,"),
        ControlFlowKind::Continue => push_str(s, "::Continue => continue,"),
        ControlFlowKind::Try => push_str(s, "::Err(e) => return Err(e),"),
    }
}

fn contains_kind(exits: &Vec<ControlFlowKind>, k: ControlFlowKind) -> (b: bool)
    ensures
        b == exits@.contains(k),
{
    let mut i: usize = 0;
    while i < exits.len()
        invariant
            i <= exits.len(),
            forall|j: int| 0 <= j < i ==> exits@[j] != k,
        decreases exits.len() - i,
    {
        if exits[i] == k {
            return true;
        }
        i += 1;
    }
    false
}

impl ControlFlowAnalyzer {
    /// The reification plan: none when the selection has no non-local exit,
    /// else the auxiliary enum (named after the extracted function and the
    /// serial number) and the caller's match. It never fails.
    pub fn plan(analysis: &SelectionAnalysis, extracted_fn_name: &str, serial: u32) -> (r: Result<
        Option<ControlFlowReification>,
        ExtractionFailure,
    >)
        ensures
            analysis.control_flow_exits@.len() == 0 ==> r matches Ok(None),
            analysis.control_flow_exits@.len() > 0 ==> (r matches Ok(Some(plan)) && {
                let name = enum_name_text(extracted_fn_name@, serial);
                &&& plan.enum_name@ == name
                &&& plan.enum_definition@ == enum_definition_text(
                    name,
                    analysis.control_flow_exits@,
                )
                &&& plan.caller_match@ == caller_match_text(name, analysis.control_flow_exits@)
            }),
    {
        let exits = &analysis.control_flow_exits;
        if exits.len() == 0 {
            return Ok(None);
        }
        let mut enum_name = pascal(extracted_fn_name);
        push_str(&mut enum_name, "Cf");
        push_decimal(&mut enum_name, serial as u64);
        let ghost name = enum_name@;

        let mut variants = owned("    Normal(T)");
        let mut arms = owned("    ");
        push_str(&mut arms, enum_name.as_str());
        push_str(&mut arms, "::Normal(v) => v,");
        let mut i: usize = 0;
        while i < exits.len()
            invariant
                i <= exits.len(),
                enum_name@ == name,
                variants@ == variant_lines(exits@.take(i as int)),
                arms@ == match_arms(name, exits@.take(i as int)),
            decreases exits.len() - i,
        {
            proof {
                assert(exits@.take(i + 1).drop_last() == exits@.take(i as int));
            }
            push_str(&mut variants, ",\n");
            push_variant_line(&mut variants, exits[i]);
            push_str(&mut arms, "\n");
            push_match_arm(&mut arms, enum_name.as_str(), exits[i]);
            i += 1;
        }
        proof {
            assert(exits@.take(exits@.len() as int) == exits@);
        }

        let mut enum_definition = owned("#[allow(dead_code)]\nenum ");
        push_str(&mut enum_definition, enum_name.as_str());
        push_str(&mut enum_definition, "<T");
        if contains_kind(exits, ControlFlowKind::Return) {
            push_str(&mut enum_definition, ", R");
        }
        if contains_kind(exits, ControlFlowKind::Try) {
            push_str(&mut enum_definition, ", E");
        }
        push_str(&mut enum_definition, "> {\n");
        push_str(&mut enum_definition, variants.as_str());
        push_str(&mut enum_definition, "\n}");

        let mut caller_match = owned("match result {\n");
        push_str(&mut caller_match, arms.as_str());
        push_str(&mut caller_match, "\n}");
        proof {
            reveal_strlit("<T");
            reveal_strlit("<");
            reveal_strlit("T");
            assert(enum_definition@ == enum_definition_text(name, exits@));
        }
        Ok(Some(ControlFlowReification { enum_name, enum_definition, caller_match }))
    }
}

} // verus!
