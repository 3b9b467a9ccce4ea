//! The GPU shader-program lifecycle: which build outcomes leave a program
//! usable for drawing, and the diagnostic text reported for a failed stage
//! compilation or a failed link.
//!
//! The GL calls themselves (compile, link, status and log queries, binding,
//! uniform writes) are driver work and live in the embedding program; it
//! feeds each step's success flag and log text through these functions and
//! records the outcome in a `Shader` value.

use vstd::prelude::*;
use vstd::string::StringExecFns;

verus! {

/// One of the two compiled stages of a shader program.
#[derive(Clone, Copy, PartialEq, Eq, Structural, Debug)]
pub enum ShaderStage {
    /// The vertex stage.
    Vertex,
    /// The fragment stage.
    Fragment,
}

/// The header line of a stage-compilation failure report.
pub open spec fn compile_failure_header(stage: ShaderStage) -> Seq<char> {
    match stage {
        ShaderStage::Vertex => "VERTEX SHADER COMPILATION FAILED\n"@,
        ShaderStage::Fragment => "FRAGMENT SHADER COMPILATION FAILED\n"@,
    }
}

/// The header line of a program-link failure report.
pub open spec fn link_failure_header() -> Seq<char> {
    "SHADER PROGRAM LINKING FAILED\n"@
}

/// The diagnostic to report for one stage compilation: nothing on success,
/// and the stage's failure header followed by the driver's log on failure.
pub fn compile_diagnostic(stage: ShaderStage, success: bool, log: &str) -> (r: Option<String>)
    ensures
        success ==> r is None,
        !success ==> r is Some && r->Some_0@ == compile_failure_header(stage) + log@,
{
    if success {
        None
    } else {
        let mut report = match stage {
            ShaderStage::Vertex => String::from_str("VERTEX SHADER COMPILATION FAILED\n"),
            ShaderStage::Fragment => String::from_str("FRAGMENT SHADER COMPILATION FAILED\n"),
        };
        report.append(log);
        Some(report)
    }
}

/// The diagnostic to report for linking: nothing on success, and the link
/// failure header followed by the driver's log on failure.
pub fn link_diagnostic(success: bool, log: &str) -> (r: Option<String>)
    ensures
        success ==> r is None,
        !success ==> r is Some && r->Some_0@ == link_failure_header() + log@,
{
    if success {
        None
    } else {
        let mut report = String::from_str("SHADER PROGRAM LINKING FAILED\n");
        report.append(log);
        Some(report)
    }
}

/// A linked GPU program handle together with its build outcome. The handle
/// always exists (the driver allocates it before compiling or linking can
/// fail), but a correct caller draws with it only when `usable` holds.
pub struct Shader {
    /// The driver-assigned program handle.
    pub id: u32,
    /// Whether the vertex stage compiled.
    pub vertex_ok: bool,
    /// Whether the fragment stage compiled.
    pub fragment_ok: bool,
    /// Whether the program linked.
    pub link_ok: bool,
}

impl Shader {
    /// Records the outcome of building one program: the handle and the
    /// success flags of both stage compilations and the link.
    pub fn new(id: u32, vertex_ok: bool, fragment_ok: bool, link_ok: bool) -> (s: Shader)
        ensures
            s.id == id,
            s.vertex_ok == vertex_ok,
            s.fragment_ok == fragment_ok,
            s.link_ok == link_ok,
    {
        Shader { id, vertex_ok, fragment_ok, link_ok }
    }

    /// Whether the program may be used for drawing: both stages compiled and
    /// the link succeeded. A program that fails any step keeps its handle
    /// but must not be drawn with.
    pub fn usable(&self) -> (r: bool)
        ensures
            r == (self.vertex_ok && self.fragment_ok && self.link_ok),
    {
        self.vertex_ok && self.fragment_ok && self.link_ok
    }
}

} // verus!
