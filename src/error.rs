use vstd::prelude::*;

use crate::stage::Stage;

verus! {

/// Why a shader program could not be built.
#[derive(Debug, PartialEq, Eq)]
pub enum CompilationError {
    /// A stage did not compile; `log` is the compiler's diagnostic text.
    StageCompilationFailed { stage: Stage, log: String },
    /// The stages compiled but did not link; `log` is the linker's diagnostic text.
    ProgramLinkFailed { log: String },
    /// The diagnostic text that came back was not valid UTF-8.
    DiagnosticDecodeFailed,
    /// A stage's source text holds a NUL byte and cannot be handed over as a C string.
    SourceContainsNul { stage: Stage },
    /// No shader object could be created for a stage.
    ShaderCreationFailed { stage: Stage },
    /// No program object could be created.
    ProgramCreationFailed,
}

/// The mathematical content of a `CompilationError`.
pub enum ErrorView {
    StageCompilationFailed { stage: Stage, log: Seq<char> },
    ProgramLinkFailed { log: Seq<char> },
    DiagnosticDecodeFailed,
    SourceContainsNul { stage: Stage },
    ShaderCreationFailed { stage: Stage },
    ProgramCreationFailed,
}

impl View for CompilationError {
    type V = ErrorView;

    open spec fn view(&self) -> ErrorView {
        match self {
            CompilationError::StageCompilationFailed { stage, log } => ErrorView::StageCompilationFailed {
                stage: *stage,
                log: log@,
            },
            CompilationError::ProgramLinkFailed { log } => ErrorView::ProgramLinkFailed { log: log@ },
            CompilationError::DiagnosticDecodeFailed => ErrorView::DiagnosticDecodeFailed,
            CompilationError::SourceContainsNul { stage } => ErrorView::SourceContainsNul { stage: *stage },
            CompilationError::ShaderCreationFailed { stage } => ErrorView::ShaderCreationFailed { stage: *stage },
            CompilationError::ProgramCreationFailed => ErrorView::ProgramCreationFailed,
        }
    }
}

impl CompilationError {
    /// The label of the step that failed: a stage's label, or "PROGRAM" for a link failure.
    pub fn step_label(&self) -> (r: &'static str)
        ensures
            r@ == match self@ {
                ErrorView::StageCompilationFailed { stage, .. } => stage.spec_label(),
                ErrorView::SourceContainsNul { stage } => stage.spec_label(),
                ErrorView::ShaderCreationFailed { stage } => stage.spec_label(),
                _ => "PROGRAM"@,
            },
    {
        match self {
            CompilationError::StageCompilationFailed { stage, .. } => stage.label(),
            CompilationError::SourceContainsNul { stage } => stage.label(),
            CompilationError::ShaderCreationFailed { stage } => stage.label(),
            _ => "PROGRAM",
        }
    }
}

} // verus!
