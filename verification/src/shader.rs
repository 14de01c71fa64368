//! The shader-program build life cycle.
//!
//! Compiling and linking happen inside the GL driver; the driver answers
//! each step with a status flag and an info log. This module holds the
//! verified half of the exchange: given the driver's answers for the
//! vertex stage, the fragment stage and the link step, it decides whether
//! the build produced a usable program or a diagnostic, and it pins down
//! exactly which diagnostic that is.

use vstd::prelude::*;

use crate::commands::GlCommand;

verus! {

/// The longest driver log a diagnostic carries, in bytes.
pub const LOG_LIMIT: usize = 1024;

/// A linked GPU program object, identified by the driver-issued handle.
#[derive(Debug)]
pub struct Shader {
    pub id: u32,
}

/// What the GL driver reported for one build step: the status flag and
/// the raw info log read back from the driver.
#[derive(Debug)]
pub struct StageOutcome {
    pub ok: bool,
    pub log: Vec<u8>,
}

impl View for StageOutcome {
    type V = (bool, Seq<u8>);

    open spec fn view(&self) -> (bool, Seq<u8>) {
        (self.ok, self.log@)
    }
}

/// Which build step a diagnostic speaks of: one of the two compile
/// stages, or the link step of the whole program.
#[derive(Clone, Copy, Debug, PartialEq, Eq, Structural)]
pub enum DiagnosticTag {
    Vertex,
    Fragment,
    Program,
}

/// A recoverable build failure: the step that failed and the driver log,
/// truncated to `LOG_LIMIT` bytes.
#[derive(Debug)]
pub struct Diagnostic {
    pub tag: DiagnosticTag,
    pub log: Vec<u8>,
}

/// The label a diagnostic is reported under.
pub open spec fn tag_label(tag: DiagnosticTag) -> Seq<char> {
    match tag {
        DiagnosticTag::Vertex => "VERTEX"@,
        DiagnosticTag::Fragment => "FRAGMENT"@,
        DiagnosticTag::Program => "PROGRAM"@,
    }
}

/// A driver log as a diagnostic carries it: cut off at `LOG_LIMIT` bytes.
pub open spec fn truncated_log(log: Seq<u8>) -> Seq<u8> {
    if log.len() <= LOG_LIMIT {
        log
    } else {
        log.subrange(0, LOG_LIMIT as int)
    }
}

/// What a whole build comes to, given the driver's three answers and the
/// handle the program object was created under. The first failing step
/// decides the diagnostic; only a build whose every step succeeded yields
/// a program.
pub open spec fn build_spec(
    vertex: (bool, Seq<u8>),
    fragment: (bool, Seq<u8>),
    link: (bool, Seq<u8>),
    program_id: u32,
) -> Result<u32, (DiagnosticTag, Seq<u8>)> {
    if !vertex.0 {
        Err((DiagnosticTag::Vertex, truncated_log(vertex.1)))
    } else if !fragment.0 {
        Err((DiagnosticTag::Fragment, truncated_log(fragment.1)))
    } else if !link.0 {
        Err((DiagnosticTag::Program, truncated_log(link.1)))
    } else {
        Ok(program_id)
    }
}

/// The mathematical content of a build result: the handle on success,
/// the tag and log on failure.
pub open spec fn build_result_view(r: Result<Shader, Diagnostic>) -> Result<
    u32,
    (DiagnosticTag, Seq<u8>),
> {
    match r {
        Ok(s) => Ok(s.id),
        Err(d) => Err((d.tag, d.log@)),
    }
}

/// Cuts a driver log down to `LOG_LIMIT` bytes.
pub fn truncate_log(log: Vec<u8>) -> (r: Vec<u8>)
    ensures
        r@ == truncated_log(log@),
{
    let mut r = log;
    r.truncate(LOG_LIMIT);
    r
}

/// Turns the driver's answer for one step into a diagnostic, or into
/// nothing when the step succeeded.
pub fn stage_diagnostic(tag: DiagnosticTag, outcome: StageOutcome) -> (r: Option<Diagnostic>)
    ensures
        outcome.ok ==> r is None,
        !outcome.ok ==> (r matches Some(d) && d.tag == tag && d.log@ == truncated_log(
            outcome.log@,
        )),
{
    if outcome.ok {
        None
    } else {
        Some(Diagnostic { tag, log: truncate_log(outcome.log) })
    }
}

impl Shader {
    /// Decides what a build produced. The driver has already been asked
    /// to compile both stages and link the program; this function takes
    /// its three answers and the handle of the program object. Every step
    /// succeeding yields the linked program; otherwise the first failing
    /// step's diagnostic is returned and no program is.
    pub fn new(
        vertex: StageOutcome,
        fragment: StageOutcome,
        link: StageOutcome,
        program_id: u32,
    ) -> (r: Result<Shader, Diagnostic>)
        ensures
            build_result_view(r) == build_spec(vertex@, fragment@, link@, program_id),
            r is Ok <==> (vertex.ok && fragment.ok && link.ok),
    {
        if let Some(d) = stage_diagnostic(DiagnosticTag::Vertex, vertex) {
            return Err(d);
        }
        if let Some(d) = stage_diagnostic(DiagnosticTag::Fragment, fragment) {
            return Err(d);
        }
        if let Some(d) = stage_diagnostic(DiagnosticTag::Program, link) {
            return Err(d);
        }
        Ok(Shader { id: program_id })
    }

    /// The driver handle the program was linked under.
    pub fn program_id(&self) -> (r: u32)
        ensures
            r == self.id,
    {
        self.id
    }

    /// The command that binds this program as the active pipeline.
    pub fn use_program(&self) -> (c: GlCommand)
        ensures
            c == (GlCommand::UseProgram { program: self.id }),
    {
        GlCommand::UseProgram { program: self.id }
    }
}

impl Diagnostic {
    /// The label of the step this diagnostic reports on: the stage name
    /// for a compile failure, `"PROGRAM"` for a link failure.
    pub fn label(&self) -> (r: &'static str)
        ensures
            r@ == tag_label(self.tag),
    {
        match self.tag {
            DiagnosticTag::Vertex => "VERTEX",
            DiagnosticTag::Fragment => "FRAGMENT",
            DiagnosticTag::Program => "PROGRAM",
        }
    }
}

/// Rebuilding is deterministic in the driver's answers: two builds that
/// the driver answered alike, handed the same program handle, come to the
/// same result — and when every step succeeded, each build yields the
/// linked program under the handle it was given.
pub proof fn lemma_build_deterministic(
    vertex: (bool, Seq<u8>),
    fragment: (bool, Seq<u8>),
    link: (bool, Seq<u8>),
    id1: u32,
    id2: u32,
)
    ensures
        id1 == id2 ==> build_spec(vertex, fragment, link, id1) == build_spec(
            vertex,
            fragment,
            link,
            id2,
        ),
        (vertex.0 && fragment.0 && link.0) ==> {
            &&& build_spec(vertex, fragment, link, id1) == Ok::<u32, (DiagnosticTag, Seq<u8>)>(id1)
            &&& build_spec(vertex, fragment, link, id2) == Ok::<u32, (DiagnosticTag, Seq<u8>)>(id2)
        },
{
}

} // verus!
