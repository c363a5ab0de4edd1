use vstd::prelude::*;
use vstd::string::StringSliceAdditionalSpecFns;

use crate::bytes::{contains_nul, copied, has_nul, nul_terminated, text_before_nul};
use crate::diagnostic::{decode_log, decoded_log};
use crate::error::{CompilationError, ErrorView};
use crate::program::Shader;
use crate::stage::Stage;

verus! {

/// The status the driver reports for a stage that compiled or a program that linked.
pub const STATUS_OK: i32 = 1;

/// Where a construction stands.
#[derive(Clone, Copy, Debug, PartialEq, Eq, Structural)]
pub enum Phase {
    /// A stage is being compiled: the next stage in order, after those already compiled.
    Compiling,
    /// The last stage created failed to compile; its log is being read.
    StageLog,
    /// All stages compiled; the program is being linked.
    Linking,
    /// The program did not link; its log is being read.
    ProgramLog { program: u32 },
    /// The construction is over: a `Finish` action has been handed out.
    Done,
}

/// The mathematical content of a construction.
pub struct BuildView {
    /// The stages to compile, in order.
    pub stages: Seq<Stage>,
    /// Each stage's source, NUL-terminated.
    pub sources: Seq<Seq<u8>>,
    /// The shader objects created so far, in stage order.
    pub shaders: Seq<u32>,
    pub phase: Phase,
}

/// The stages of a program: vertex and fragment, then geometry where there is one.
pub open spec fn stage_list(has_geometry: bool) -> Seq<Stage> {
    if has_geometry {
        seq![Stage::Vertex, Stage::Fragment, Stage::Geometry]
    } else {
        seq![Stage::Vertex, Stage::Fragment]
    }
}

impl BuildView {
    pub open spec fn wf(self) -> bool {
        &&& (self.stages == stage_list(false) || self.stages == stage_list(true))
        &&& self.sources.len() == self.stages.len()
        &&& self.shaders.len() <= self.stages.len()
        &&& forall|i: int| 0 <= i < self.shaders.len() ==> self.shaders[i] != 0
        &&& match self.phase {
            Phase::Compiling => self.shaders.len() < self.stages.len(),
            Phase::StageLog => 1 <= self.shaders.len(),
            Phase::Linking => self.shaders.len() == self.stages.len(),
            Phase::ProgramLog { program } => self.shaders.len() == self.stages.len() && program != 0,
            Phase::Done => true,
        }
    }
}

/// The mathematical content of an `Action`.
pub enum ActionView {
    CompileStage { stage: Stage, source: Seq<u8> },
    ReadStageLog { shader: u32 },
    LinkProgram { shaders: Seq<u32> },
    ReadProgramLog { program: u32 },
    Finish { delete_shaders: Seq<u32>, delete_program: Option<u32>, result: Result<Shader, ErrorView> },
}

/// What the driver is to do next on behalf of a construction.
pub enum Action {
    /// Create a shader object for `stage`, hand it `source` (NUL-terminated) and compile
    /// it; then report through `ShaderBuild::stage_compiled`.
    CompileStage { stage: Stage, source: Vec<u8> },
    /// Read the info log of shader object `shader`, its length queried first (see
    /// `log_buffer`); then report through `ShaderBuild::log_read`.
    ReadStageLog { shader: u32 },
    /// Create a program object, attach `shaders` in order and link; then report through
    /// `ShaderBuild::link_done`.
    LinkProgram { shaders: Vec<u32> },
    /// Read the info log of program object `program`; then report through
    /// `ShaderBuild::log_read`.
    ReadProgramLog { program: u32 },
    /// Delete the shader objects `delete_shaders` and the program `delete_program`, and
    /// hand `result` to the caller. The construction is over.
    Finish {
        delete_shaders: Vec<u32>,
        delete_program: Option<u32>,
        result: Result<Shader, CompilationError>,
    },
}

impl View for Action {
    type V = ActionView;

    open spec fn view(&self) -> ActionView {
        match self {
            Action::CompileStage { stage, source } => ActionView::CompileStage {
                stage: *stage,
                source: source@,
            },
            Action::ReadStageLog { shader } => ActionView::ReadStageLog { shader: *shader },
            Action::LinkProgram { shaders } => ActionView::LinkProgram { shaders: shaders@ },
            Action::ReadProgramLog { program } => ActionView::ReadProgramLog { program: *program },
            Action::Finish { delete_shaders, delete_program, result } => ActionView::Finish {
                delete_shaders: delete_shaders@,
                delete_program: *delete_program,
                result: match result {
                    Ok(s) => Ok(*s),
                    Err(e) => Err(e@),
                },
            },
        }
    }
}

/// The first stage, in order, whose source holds a NUL byte.
pub open spec fn first_nul_stage(sources: Seq<Seq<u8>>) -> Option<Stage> {
    if has_nul(sources[0]) {
        Some(Stage::Vertex)
    } else if has_nul(sources[1]) {
        Some(Stage::Fragment)
    } else if sources.len() == 3 && has_nul(sources[2]) {
        Some(Stage::Geometry)
    } else {
        None
    }
}

/// The start of a construction from the stages' sources (vertex, fragment, and
/// geometry where there are three): a source holding a NUL byte ends it at once;
/// otherwise the vertex stage is compiled first.
pub open spec fn spec_start(sources: Seq<Seq<u8>>) -> (BuildView, ActionView) {
    let stages = stage_list(sources.len() == 3);
    let framed = sources.map_values(|s: Seq<u8>| s.push(0u8));
    match first_nul_stage(sources) {
        Some(stage) => (
            BuildView { stages, sources: framed, shaders: Seq::empty(), phase: Phase::Done },
            ActionView::Finish {
                delete_shaders: Seq::empty(),
                delete_program: None,
                result: Err(ErrorView::SourceContainsNul { stage }),
            },
        ),
        None => (
            BuildView { stages, sources: framed, shaders: Seq::empty(), phase: Phase::Compiling },
            ActionView::CompileStage { stage: Stage::Vertex, source: framed[0] },
        ),
    }
}

/// The step after the stage being compiled reported shader object `shader` (0 when
/// none could be created) and compile status `status`.
pub open spec fn spec_stage_compiled(b: BuildView, shader: u32, status: i32) -> (BuildView, ActionView) {
    let i = b.shaders.len() as int;
    let shaders = b.shaders.push(shader);
    if shader == 0 {
        (
            BuildView { phase: Phase::Done, ..b },
            ActionView::Finish {
                delete_shaders: b.shaders,
                delete_program: None,
                result: Err(ErrorView::ShaderCreationFailed { stage: b.stages[i] }),
            },
        )
    } else if status != STATUS_OK {
        (BuildView { shaders, phase: Phase::StageLog, ..b }, ActionView::ReadStageLog { shader })
    } else if i + 1 < b.stages.len() {
        (
            BuildView { shaders, ..b },
            ActionView::CompileStage { stage: b.stages[i + 1], source: b.sources[i + 1] },
        )
    } else {
        (BuildView { shaders, phase: Phase::Linking, ..b }, ActionView::LinkProgram { shaders })
    }
}

/// The step after linking reported program object `program` (0 when none could be
/// created) and link status `status`.
pub open spec fn spec_link_done(b: BuildView, program: u32, status: i32) -> (BuildView, ActionView) {
    if program == 0 {
        (
            BuildView { phase: Phase::Done, ..b },
            ActionView::Finish {
                delete_shaders: b.shaders,
                delete_program: None,
                result: Err(ErrorView::ProgramCreationFailed),
            },
        )
    } else if status != STATUS_OK {
        (
            BuildView { phase: Phase::ProgramLog { program }, ..b },
            ActionView::ReadProgramLog { program },
        )
    } else {
        (
            BuildView { phase: Phase::Done, ..b },
            ActionView::Finish {
                delete_shaders: b.shaders,
                delete_program: None,
                result: Ok(Shader { id: program, live: true }),
            },
        )
    }
}

/// The step after the log asked for was read into `buffer`: the construction ends with
/// the failure of the stage (or of the link) and the log's text.
pub open spec fn spec_log_read(b: BuildView, buffer: Seq<u8>) -> (BuildView, ActionView) {
    let error = match decoded_log(buffer) {
        Some(log) => match b.phase {
            Phase::ProgramLog { .. } => ErrorView::ProgramLinkFailed { log },
            _ => ErrorView::StageCompilationFailed { stage: b.stages[b.shaders.len() - 1], log },
        },
        None => ErrorView::DiagnosticDecodeFailed,
    };
    let delete_program = match b.phase {
        Phase::ProgramLog { program } => Some(program),
        _ => None,
    };
    (
        BuildView { phase: Phase::Done, ..b },
        ActionView::Finish { delete_shaders: b.shaders, delete_program, result: Err(error) },
    )
}

/// Sources that compile and link give a usable program: the vertex stage is compiled,
/// then the fragment stage, the two are linked, and the construction hands over a held
/// program, deleting both shader objects and keeping the program.
pub proof fn lemma_valid_sources_link(
    vertex: Seq<u8>,
    fragment: Seq<u8>,
    v: u32,
    f: u32,
    program: u32,
)
    requires
        !has_nul(vertex),
        !has_nul(fragment),
        v != 0,
        f != 0,
        program != 0,
    ensures
        ({
            let (b0, a0) = spec_start(seq![vertex, fragment]);
            let (b1, a1) = spec_stage_compiled(b0, v, STATUS_OK);
            let (b2, a2) = spec_stage_compiled(b1, f, STATUS_OK);
            let (b3, a3) = spec_link_done(b2, program, STATUS_OK);
            &&& a0 == ActionView::CompileStage { stage: Stage::Vertex, source: vertex.push(0u8) }
            &&& a1 == ActionView::CompileStage { stage: Stage::Fragment, source: fragment.push(0u8) }
            &&& a2 == ActionView::LinkProgram { shaders: seq![v, f] }
            &&& a3 == ActionView::Finish {
                delete_shaders: seq![v, f],
                delete_program: None,
                result: Ok(Shader { id: program, live: true }),
            }
            &&& b3.phase == Phase::Done
        }),
{
    let srcs = seq![vertex, fragment];
    assert(srcs[0] == vertex && srcs[1] == fragment);
    let (b0, a0) = spec_start(srcs);
    let (b1, a1) = spec_stage_compiled(b0, v, STATUS_OK);
    assert(b1.shaders =~= seq![v]);
    let (b2, a2) = spec_stage_compiled(b1, f, STATUS_OK);
    assert(b2.shaders =~= seq![v, f]);
}

/// A vertex stage that does not compile ends the construction with the failure of the
/// vertex stage and its log's text, which is not empty when the log is not; the shader
/// object created for it is deleted.
pub proof fn lemma_vertex_failure_reported(
    vertex: Seq<u8>,
    fragment: Seq<u8>,
    v: u32,
    status: i32,
    buffer: Seq<u8>,
)
    requires
        !has_nul(vertex),
        !has_nul(fragment),
        v != 0,
        status != STATUS_OK,
        decoded_log(buffer) is Some,
    ensures
        ({
            let (b0, a0) = spec_start(seq![vertex, fragment]);
            let (b1, a1) = spec_stage_compiled(b0, v, status);
            let (b2, a2) = spec_log_read(b1, buffer);
            let log = decoded_log(buffer)->0;
            &&& a1 == ActionView::ReadStageLog { shader: v }
            &&& a2 == ActionView::Finish {
                delete_shaders: seq![v],
                delete_program: None,
                result: Err(ErrorView::StageCompilationFailed { stage: Stage::Vertex, log }),
            }
            &&& text_before_nul(buffer).len() > 0 ==> log.len() > 0
        }),
{
    let srcs = seq![vertex, fragment];
    assert(srcs[0] == vertex && srcs[1] == fragment);
    let (b0, a0) = spec_start(srcs);
    let (b1, a1) = spec_stage_compiled(b0, v, status);
    assert(b1.shaders =~= seq![v]);
}

/// Stages that compile but do not link end the construction with the link failure and
/// the link log's text, which is not empty when the log is not; both shader objects
/// and the program object are deleted.
pub proof fn lemma_link_failure_reported(
    vertex: Seq<u8>,
    fragment: Seq<u8>,
    v: u32,
    f: u32,
    program: u32,
    status: i32,
    buffer: Seq<u8>,
)
    requires
        !has_nul(vertex),
        !has_nul(fragment),
        v != 0,
        f != 0,
        program != 0,
        status != STATUS_OK,
        decoded_log(buffer) is Some,
    ensures
        ({
            let (b0, a0) = spec_start(seq![vertex, fragment]);
            let (b1, a1) = spec_stage_compiled(b0, v, STATUS_OK);
            let (b2, a2) = spec_stage_compiled(b1, f, STATUS_OK);
            let (b3, a3) = spec_link_done(b2, program, status);
            let (b4, a4) = spec_log_read(b3, buffer);
            let log = decoded_log(buffer)->0;
            &&& a3 == ActionView::ReadProgramLog { program }
            &&& a4 == ActionView::Finish {
                delete_shaders: seq![v, f],
                delete_program: Some(program),
                result: Err(ErrorView::ProgramLinkFailed { log }),
            }
            &&& text_before_nul(buffer).len() > 0 ==> log.len() > 0
        }),
{
    let srcs = seq![vertex, fragment];
    assert(srcs[0] == vertex && srcs[1] == fragment);
    let (b0, a0) = spec_start(srcs);
    let (b1, a1) = spec_stage_compiled(b0, v, STATUS_OK);
    assert(b1.shaders =~= seq![v]);
    let (b2, a2) = spec_stage_compiled(b1, f, STATUS_OK);
    assert(b2.shaders =~= seq![v, f]);
}

/// The construction of a shader program from its stages' sources. It decides each
/// step; the driver carries the steps out and reports what came of them.
pub struct ShaderBuild {
    stages: Vec<Stage>,
    sources: Vec<Vec<u8>>,
    shaders: Vec<u32>,
    phase: Phase,
}

impl View for ShaderBuild {
    type V = BuildView;

    closed spec fn view(&self) -> BuildView {
        BuildView {
            stages: self.stages@,
            sources: self.sources@.map_values(|v: Vec<u8>| v@),
            shaders: self.shaders@,
            phase: self.phase,
        }
    }
}

impl ShaderBuild {
    /// Begins a construction whose stages have these NUL-terminated sources; `nul_at`
    /// is the first stage whose source held a NUL byte.
    fn begin(stages: Vec<Stage>, sources: Vec<Vec<u8>>, nul_at: Option<Stage>) -> (r: (
        ShaderBuild,
        Action,
    ))
        requires
            stages@ == stage_list(false) || stages@ == stage_list(true),
            sources@.len() == stages@.len(),
        ensures
            r.0@ == (BuildView {
                stages: stages@,
                sources: sources@.map_values(|v: Vec<u8>| v@),
                shaders: Seq::empty(),
                phase: if nul_at is Some {
                    Phase::Done
                } else {
                    Phase::Compiling
                },
            }),
            r.1@ == match nul_at {
                Some(stage) => ActionView::Finish {
                    delete_shaders: Seq::empty(),
                    delete_program: None,
                    result: Err(ErrorView::SourceContainsNul { stage }),
                },
                None => ActionView::CompileStage { stage: Stage::Vertex, source: sources@[0]@ },
            },
            r.0@.wf(),
    {
        match nul_at {
            Some(stage) => {
                let build = ShaderBuild { stages, sources, shaders: Vec::new(), phase: Phase::Done };
                let action = Action::Finish {
                    delete_shaders: Vec::new(),
                    delete_program: None,
                    result: Err(CompilationError::SourceContainsNul { stage }),
                };
                (build, action)
            },
            None => {
                let source = copied(&sources[0]);
                let build = ShaderBuild {
                    stages,
                    sources,
                    shaders: Vec::new(),
                    phase: Phase::Compiling,
                };
                (build, Action::CompileStage { stage: Stage::Vertex, source })
            },
        }
    }

    /// Begins the construction of a program from a vertex and a fragment stage.
    pub fn new(vertex: &str, fragment: &str) -> (r: (ShaderBuild, Action))
        ensures
            (r.0@, r.1@) == spec_start(seq![vertex.spec_bytes(), fragment.spec_bytes()]),
            r.0@.wf(),
    {
        let v = vertex.as_bytes();
        let f = fragment.as_bytes();
        let mut stages: Vec<Stage> = Vec::new();
        stages.push(Stage::Vertex);
        stages.push(Stage::Fragment);
        assert(stages@ =~= stage_list(false));
        let mut sources: Vec<Vec<u8>> = Vec::new();
        sources.push(nul_terminated(v));
        sources.push(nul_terminated(f));
        let nul_at = if contains_nul(v) {
            Some(Stage::Vertex)
        } else if contains_nul(f) {
            Some(Stage::Fragment)
        } else {
            None
        };
        let r = Self::begin(stages, sources, nul_at);
        proof {
            let srcs = seq![vertex.spec_bytes(), fragment.spec_bytes()];
            assert(stage_list(false) =~= seq![Stage::Vertex, Stage::Fragment]);
            assert(r.0@.sources =~= srcs.map_values(|s: Seq<u8>| s.push(0u8)));
        }
        r
    }

    /// Begins the construction of a program from a vertex, a fragment and a geometry stage.
    pub fn with_geometry_shader(vertex: &str, fragment: &str, geometry: &str) -> (r: (
        ShaderBuild,
        Action,
    ))
        ensures
            (r.0@, r.1@) == spec_start(
                seq![vertex.spec_bytes(), fragment.spec_bytes(), geometry.spec_bytes()],
            ),
            r.0@.wf(),
    {
        let v = vertex.as_bytes();
        let f = fragment.as_bytes();
        let g = geometry.as_bytes();
        let mut stages: Vec<Stage> = Vec::new();
        stages.push(Stage::Vertex);
        stages.push(Stage::Fragment);
        stages.push(Stage::Geometry);
        assert(stages@ =~= stage_list(true));
        let mut sources: Vec<Vec<u8>> = Vec::new();
        sources.push(nul_terminated(v));
        sources.push(nul_terminated(f));
        sources.push(nul_terminated(g));
        let nul_at = if contains_nul(v) {
            Some(Stage::Vertex)
        } else if contains_nul(f) {
            Some(Stage::Fragment)
        } else if contains_nul(g) {
            Some(Stage::Geometry)
        } else {
            None
        };
        let r = Self::begin(stages, sources, nul_at);
        proof {
            let srcs = seq![vertex.spec_bytes(), fragment.spec_bytes(), geometry.spec_bytes()];
            assert(stage_list(true) =~= seq![Stage::Vertex, Stage::Fragment, Stage::Geometry]);
            assert(r.0@.sources =~= srcs.map_values(|s: Seq<u8>| s.push(0u8)));
        }
        r
    }

    /// Where the construction stands.
    pub fn phase(&self) -> (r: Phase)
        ensures
            r == self@.phase,
    {
        self.phase
    }

    /// Takes the report of the stage being compiled: the shader object created for it
    /// (0 when none could be), and its compile status.
    pub fn stage_compiled(&mut self, shader: u32, status: i32) -> (r: Action)
        requires
            old(self)@.wf(),
            old(self)@.phase == Phase::Compiling,
        ensures
            (final(self)@, r@) == spec_stage_compiled(old(self)@, shader, status),
            final(self)@.wf(),
    {
        let i = self.shaders.len();
        if shader == 0 {
            self.phase = Phase::Done;
            return Action::Finish {
                delete_shaders: copied(&self.shaders),
                delete_program: None,
                result: Err(CompilationError::ShaderCreationFailed { stage: self.stages[i] }),
            };
        }
        self.shaders.push(shader);
        if status != STATUS_OK {
            self.phase = Phase::StageLog;
            Action::ReadStageLog { shader }
        } else if i + 1 < self.stages.len() {
            Action::CompileStage { stage: self.stages[i + 1], source: copied(&self.sources[i + 1]) }
        } else {
            self.phase = Phase::Linking;
            Action::LinkProgram { shaders: copied(&self.shaders) }
        }
    }

    /// Takes the report of the link: the program object created (0 when none could be),
    /// and its link status.
    pub fn link_done(&mut self, program: u32, status: i32) -> (r: Action)
        requires
            old(self)@.wf(),
            old(self)@.phase == Phase::Linking,
        ensures
            (final(self)@, r@) == spec_link_done(old(self)@, program, status),
            final(self)@.wf(),
    {
        if program == 0 {
            self.phase = Phase::Done;
            Action::Finish {
                delete_shaders: copied(&self.shaders),
                delete_program: None,
                result: Err(CompilationError::ProgramCreationFailed),
            }
        } else if status != STATUS_OK {
            self.phase = Phase::ProgramLog { program };
            Action::ReadProgramLog { program }
        } else {
            self.phase = Phase::Done;
            Action::Finish {
                delete_shaders: copied(&self.shaders),
                delete_program: None,
                result: Ok(Shader { id: program, live: true }),
            }
        }
    }

    /// Takes the log that was asked for, as the driver wrote it into `buffer`.
    pub fn log_read(&mut self, buffer: &Vec<u8>) -> (r: Action)
        requires
            old(self)@.wf(),
            old(self)@.phase == Phase::StageLog || old(self)@.phase is ProgramLog,
        ensures
            (final(self)@, r@) == spec_log_read(old(self)@, buffer@),
            final(self)@.wf(),
    {
        let delete_program = match self.phase {
            Phase::ProgramLog { program } => Some(program),
            _ => None,
        };
        let error = match decode_log(buffer) {
            Some(log) => match self.phase {
                Phase::ProgramLog { .. } => CompilationError::ProgramLinkFailed { log },
                _ => CompilationError::StageCompilationFailed {
                    stage: self.stages[self.shaders.len() - 1],
                    log,
                },
            },
            None => CompilationError::DiagnosticDecodeFailed,
        };
        self.phase = Phase::Done;
        Action::Finish { delete_shaders: copied(&self.shaders), delete_program, result: Err(error) }
    }
}

} // verus!
