//! The parts of the outside-world adapters that decide rather than do:
//! the syntax rewrite adapter, the verdict on a failed CHARON run, the
//! reading of cargo's compiler messages, and the placeholder target of a
//! verification result.

use vstd::prelude::*;
use crate::deref_rewrite::{rewrite_names, rewrite_text, DerefRule};
use crate::entities::{ExtractionTarget, VerificationVerdict};
use crate::ports::{CompilerDiagnostic, SyntaxRewritePort};
use crate::search::{find, find_in, lemma_find_from};
use crate::text::{chars_of, join, join_strings, owned, push_str, string_of_range, views};
use crate::value_objects::{is_rust_ident, ByteRange, FilePath, FunctionName};

verus! {

/// Adapter: syntax-level body rewriting through `ra_ap_syntax`.
pub struct SyntaxRewriteAdapter;

impl SyntaxRewritePort for SyntaxRewriteAdapter {
    /// Puts `*` before each bare reference (a path expression) to a listed
    /// variable, except a method receiver or a name already under `*`;
    /// field and method names are left alone.
    fn rewrite_body_with_derefs(&self, body: &str, ref_var_names: &[String]) -> (r: String)
        ensures
            r@ == rewrite_text(body@, views(ref_var_names@), DerefRule::PathExprContext),
    {
        rewrite_names(body, ref_var_names, DerefRule::PathExprContext)
    }
}

/// Adapter settings for the CHARON + AENEAS verification pipeline.
#[derive(Debug, Clone)]
pub struct CharonAeneasAdapter {
    /// Path to the `charon` binary.
    pub charon_bin: String,
    /// Path to the `aeneas` binary.
    pub aeneas_bin: String,
}

impl CharonAeneasAdapter {
    pub fn new(charon_bin: String, aeneas_bin: String) -> (a: Self)
        ensures
            a.charon_bin == charon_bin,
            a.aeneas_bin == aeneas_bin,
    {
        CharonAeneasAdapter { charon_bin, aeneas_bin }
    }
}

/// The first line of `s`, as `str::lines` gives it: up to the first `\n`
/// (a `\r` just before it is dropped), or the whole text when there is no
/// `\n`; `None` for an empty text.
pub open spec fn first_line(s: Seq<char>) -> Option<Seq<char>> {
    if s.len() == 0 {
        None
    } else {
        match find(s, "\n"@) {
            Some(k) => if k > 0 && s[k - 1] == '\r' {
                Some(s.subrange(0, k - 1))
            } else {
                Some(s.subrange(0, k))
            },
            None => Some(s),
        }
    }
}

/// The verdict on a failed CHARON run: out of scope when its error output
/// mentions `unsupported` or `dyn` (with the first line as reason), else a
/// pipeline failure carrying the whole output.
pub open spec fn is_charon_failure_verdict(v: VerificationVerdict, stderr: Seq<char>) -> bool {
    if find(stderr, "unsupported"@) is Some || find(stderr, "dyn"@) is Some {
        v matches VerificationVerdict::OutOfScope { reason } && reason@ == "CHARON: "@ + match first_line(stderr) {
            Some(l) => l,
            None => "unsupported"@,
        }
    } else {
        v matches VerificationVerdict::PipelineFailed { detail } && detail@ == stderr
    }
}

/// The verdict of the last stage of the proof pipeline that ran (AENEAS
/// when it failed, else `coqc`): proved when that stage succeeded, else a
/// pipeline failure carrying its error output.
pub fn stage_verdict(succeeded: bool, stderr: String) -> (v: VerificationVerdict)
    ensures
        succeeded ==> v is Proved,
        !succeeded ==> (v matches VerificationVerdict::PipelineFailed { detail } && detail == stderr),
{
    if succeeded {
        VerificationVerdict::Proved
    } else {
        VerificationVerdict::PipelineFailed { detail: stderr }
    }
}

/// Classifies a failed CHARON run from its error output.
pub fn charon_failure_verdict(stderr: String) -> (v: VerificationVerdict)
    ensures
        is_charon_failure_verdict(v, stderr@),
{
    let cs = chars_of(stderr.as_str());
    let unsupported = chars_of("unsupported");
    let dyn_word = chars_of("dyn");
    if find_in(&cs, &unsupported, 0).is_some() || find_in(&cs, &dyn_word, 0).is_some() {
        let mut reason = owned("CHARON: ");
        if cs.len() == 0 {
            push_str(&mut reason, "unsupported");
        } else {
            let nl = chars_of("\n");
            let line_end = match find_in(&cs, &nl, 0) {
                Some(k) => {
                    proof {
                        lemma_find_from(cs@, nl@, 0);
                    }
                    if k > 0 && cs[k - 1] == '\r' {
                        k - 1
                    } else {
                        k
                    }
                },
                None => cs.len(),
            };
            let line = string_of_range(&cs, 0, line_end);
            push_str(&mut reason, line.as_str());
            proof {
                assert(cs@.subrange(0, cs@.len() as int) == cs@);
            }
        }
        VerificationVerdict::OutOfScope { reason }
    } else {
        VerificationVerdict::PipelineFailed { detail: stderr }
    }
}

/// Placeholder target of a verification result: the file, the range
/// `0..1` and the name `extracted`.
pub fn make_dummy_target(file: &FilePath) -> (t: ExtractionTarget)
    ensures
        t.source_file == *file,
        t.range == (ByteRange { start: 0, end: 1 }),
        t.extracted_name@ == "extracted"@,
{
    proof {
        reveal_strlit("extracted");
        assert(is_rust_ident("extracted"@));
    }
    let range = ByteRange::new(0, 1).unwrap();
    let name = FunctionName::new("extracted").unwrap();
    ExtractionTarget::new(file.clone(), range, name).unwrap()
}


/// One JSON message of `cargo check --message-format=json`, as far as the
/// repair loop reads it.
#[derive(Debug, Clone)]
pub struct CargoMessage {
    pub reason: String,
    pub message: Option<MessageDetail>,
}

#[derive(Debug, Clone)]
pub struct MessageDetail {
    pub code: Option<CodeDetail>,
    pub message: String,
    pub spans: Vec<SpanDetail>,
    pub children: Vec<ChildDetail>,
}

#[derive(Debug, Clone)]
pub struct ChildDetail {
    pub message: String,
}

#[derive(Debug, Clone)]
pub struct CodeDetail {
    pub code: String,
}

#[derive(Debug, Clone)]
pub struct SpanDetail {
    pub text: Vec<SpanText>,
}

#[derive(Debug, Clone)]
pub struct SpanText {
    pub text: String,
}

/// A compiler message that carries an error code.
pub open spec fn is_coded_compiler_message(m: CargoMessage) -> bool {
    &&& m.reason@ == "compiler-message"@
    &&& m.message matches Some(d) && d.code is Some
}

/// The coded compiler messages among `ms`, in order.
pub open spec fn coded_messages(ms: Seq<CargoMessage>) -> Seq<MessageDetail>
    decreases ms.len(),
{
    if ms.len() == 0 {
        Seq::empty()
    } else if is_coded_compiler_message(ms.last()) {
        coded_messages(ms.drop_last()).push(ms.last().message->0)
    } else {
        coded_messages(ms.drop_last())
    }
}

/// The help text of a message: its children's messages, one per line.
pub open spec fn help_of(m: MessageDetail) -> Seq<char> {
    join(m.children@.map_values(|c: ChildDetail| c.message@), "\n"@)
}

/// `d` is the diagnostic of the coded message `m`: its code and message,
/// the first text of its first span, and its help text when not empty.
pub open spec fn is_diagnostic_of(d: CompilerDiagnostic, m: MessageDetail) -> bool {
    &&& m.code matches Some(c) && d.error_code@ == c.code@
    &&& d.message@ == m.message@
    &&& if m.spans@.len() > 0 && m.spans@[0].text@.len() > 0 {
        d.span_text matches Some(t) && t@ == m.spans@[0].text@[0].text@
    } else {
        d.span_text is None
    }
    &&& if help_of(m).len() == 0 {
        d.help_text is None
    } else {
        d.help_text matches Some(h) && h@ == help_of(m)
    }
}

fn diagnostic_of(m: &MessageDetail) -> (d: CompilerDiagnostic)
    requires
        m.code is Some,
    ensures
        is_diagnostic_of(d, *m),
{
    let mut msgs: Vec<String> = Vec::new();
    let mut i: usize = 0;
    while i < m.children.len()
        invariant
            i <= m.children@.len(),
            msgs@.len() == i,
            forall|k: int| 0 <= k < i ==> (#[trigger] msgs@[k])@ == m.children@[k].message@,
        decreases m.children.len() - i,
    {
        msgs.push(m.children[i].message.clone());
        i += 1;
    }
    proof {
        assert(views(msgs@) =~= m.children@.map_values(|c: ChildDetail| c.message@));
    }
    let help = join_strings(&msgs, "\n");
    let span_text = if m.spans.len() > 0 && m.spans[0].text.len() > 0 {
        Some(m.spans[0].text[0].text.clone())
    } else {
        None
    };
    let code = match &m.code {
        Some(c) => c.code.clone(),
        None => String::new(),
    };
    CompilerDiagnostic {
        error_code: code,
        message: m.message.clone(),
        span_text,
        help_text: if help.as_str().is_empty() { None } else { Some(help) },
    }
}

/// The diagnostics of cargo's coded compiler messages, in order.
pub fn diagnostics_from_messages(messages: &Vec<CargoMessage>) -> (r: Vec<CompilerDiagnostic>)
    ensures
        r@.len() == coded_messages(messages@).len(),
        forall|k: int| 0 <= k < r@.len() ==> is_diagnostic_of(#[trigger] r@[k], coded_messages(messages@)[k]),
{
    let compiler_message = owned("compiler-message");
    let mut r: Vec<CompilerDiagnostic> = Vec::new();
    let mut i: usize = 0;
    while i < messages.len()
        invariant
            i <= messages@.len(),
            compiler_message@ == "compiler-message"@,
            r@.len() == coded_messages(messages@.take(i as int)).len(),
            forall|k: int| 0 <= k < r@.len() ==> is_diagnostic_of(#[trigger] r@[k], coded_messages(messages@.take(i as int))[k]),
        decreases messages.len() - i,
    {
        proof {
            assert(messages@.take(i + 1).drop_last() == messages@.take(i as int));
        }
        let m = &messages[i];
        if m.reason == compiler_message {
            match &m.message {
                Some(d) => {
                    if d.code.is_some() {
                        r.push(diagnostic_of(d));
                    }
                },
                None => {},
            }
        }
        i += 1;
    }
    proof {
        assert(messages@.take(messages@.len() as int) == messages@);
    }
    r
}

} // verus!
