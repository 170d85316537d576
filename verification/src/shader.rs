//! Shader programs: the steps that build a program from a vertex and a
//! fragment shader source, and the commands a finished program issues.
//!
//! Building a program alternates OpenGL work with decisions. A
//! [`ShaderBuild`] says which work it needs next ([`ShaderBuild::request`]),
//! takes OpenGL's answer ([`ShaderBuild::advance`]) and hands back the
//! commands to issue before the next request.
use vstd::prelude::*;

use crate::command::{GlCommand, UniformValue};

verus! {

/// The stage of the pipeline a shader source is compiled for.
#[derive(Clone, Copy, Debug, PartialEq, Eq, Structural)]
pub enum ShaderKind {
    Vertex,
    Fragment,
}

impl ShaderKind {
    /// The OpenGL enumerant for this shader type.
    pub fn gl_value(self) -> (v: u32)
        ensures
            v == match self {
                ShaderKind::Vertex => 0x8B31u32,
                ShaderKind::Fragment => 0x8B30u32,
            },
    {
        match self {
            ShaderKind::Vertex => 0x8B31,  // GL_VERTEX_SHADER
            ShaderKind::Fragment => 0x8B30,  // GL_FRAGMENT_SHADER
        }
    }
}

/// Why building a program stopped, with the info log OpenGL gave.
#[derive(Debug, PartialEq, Eq)]
pub enum BuildFailure {
    /// The vertex shader did not compile.
    VertexCompile(String),
    /// The fragment shader did not compile.
    FragmentCompile(String),
    /// The program did not link.
    Link(String),
}

/// Where a program build stands, with the OpenGL names it has gathered.
#[derive(Debug, PartialEq, Eq)]
pub enum Stage {
    /// The vertex shader is to be compiled.
    CompileVertex,
    /// The fragment shader is to be compiled.
    CompileFragment { vertex: u32 },
    /// A program object is to be created.
    CreateProgram { vertex: u32, fragment: u32 },
    /// The program has been attached and linked; its link status is to be read.
    CheckLink { program: u32, vertex: u32 },
    /// The program linked.
    Linked { program: u32 },
    /// The build stopped.
    Failed(BuildFailure),
}

/// What OpenGL answered to a request.
#[derive(Debug, PartialEq, Eq)]
pub enum Reply {
    /// Outcome of compiling a shader: its name, or the info log.
    Compiled(Result<u32, String>),
    /// The name `glCreateProgram` returned.
    ProgramCreated(u32),
    /// Outcome of reading the link status: the program's name, or the info log.
    LinkChecked(Result<u32, String>),
}

/// The OpenGL work a build waits for.
#[derive(Clone, Copy, Debug, PartialEq, Eq)]
pub enum Request<'a> {
    /// Compile `source` as a shader of the given kind and report its status.
    Compile { kind: ShaderKind, source: &'a str },
    /// Create a program object.
    CreateProgram,
    /// Read the link status of `program`.
    LinkStatus { program: u32 },
}

/// Whether a build at `stage` takes `reply`: each waiting stage takes the
/// answer to its own request; a finished build takes none.
pub open spec fn accepts(stage: Stage, reply: Reply) -> bool {
    match stage {
        Stage::CompileVertex => reply is Compiled,
        Stage::CompileFragment { .. } => reply is Compiled,
        Stage::CreateProgram { .. } => reply is ProgramCreated,
        Stage::CheckLink { .. } => reply is LinkChecked,
        Stage::Linked { .. } => false,
        Stage::Failed(_) => false,
    }
}

/// The next stage after `reply`, and the commands to issue on the way.
///
/// A compiled vertex shader leads to compiling the fragment shader, and that
/// to creating a program. The created program gets both shaders attached and
/// is linked. A successful link deletes the vertex shader twice and leaves the
/// fragment shader as it is. A failed compile or link stops the build.
pub open spec fn step(stage: Stage, reply: Reply) -> (Stage, Seq<GlCommand>) {
    match stage {
        Stage::CompileVertex => match reply {
            Reply::Compiled(Ok(vertex)) => (Stage::CompileFragment { vertex }, Seq::empty()),
            Reply::Compiled(Err(log)) => (
                Stage::Failed(BuildFailure::VertexCompile(log)),
                Seq::empty(),
            ),
            _ => (stage, Seq::empty()),
        },
        Stage::CompileFragment { vertex } => match reply {
            Reply::Compiled(Ok(fragment)) => (
                Stage::CreateProgram { vertex, fragment },
                Seq::empty(),
            ),
            Reply::Compiled(Err(log)) => (
                Stage::Failed(BuildFailure::FragmentCompile(log)),
                Seq::empty(),
            ),
            _ => (stage, Seq::empty()),
        },
        Stage::CreateProgram { vertex, fragment } => match reply {
            Reply::ProgramCreated(program) => (
                Stage::CheckLink { program, vertex },
                seq![
                    GlCommand::AttachShader { program, shader: vertex },
                    GlCommand::AttachShader { program, shader: fragment },
                    GlCommand::LinkProgram { program },
                ],
            ),
            _ => (stage, Seq::empty()),
        },
        Stage::CheckLink { program, vertex } => match reply {
            Reply::LinkChecked(Ok(_)) => (
                Stage::Linked { program },
                seq![
                    GlCommand::DeleteShader { shader: vertex },
                    GlCommand::DeleteShader { shader: vertex },
                ],
            ),
            Reply::LinkChecked(Err(log)) => (
                Stage::Failed(BuildFailure::Link(log)),
                Seq::empty(),
            ),
            _ => (stage, Seq::empty()),
        },
        _ => (stage, Seq::empty()),
    }
}

/// The request a build at `stage` waits on; `None` once it has finished.
pub open spec fn request_of<'a>(stage: Stage, vertex_src: &'a str, fragment_src: &'a str) -> Option<
    Request<'a>,
> {
    match stage {
        Stage::CompileVertex => Some(Request::Compile { kind: ShaderKind::Vertex, source: vertex_src }),
        Stage::CompileFragment { .. } => Some(
            Request::Compile { kind: ShaderKind::Fragment, source: fragment_src },
        ),
        Stage::CreateProgram { .. } => Some(Request::CreateProgram),
        Stage::CheckLink { program, .. } => Some(Request::LinkStatus { program }),
        Stage::Linked { .. } => None,
        Stage::Failed(_) => None,
    }
}

/// Whether a build at `stage` has finished.
pub open spec fn is_finished(stage: Stage) -> bool {
    stage is Linked || stage is Failed
}

/// The stage a build reaches from `stage` after the replies in order, and
/// every command it issued on the way.
pub open spec fn run(stage: Stage, replies: Seq<Reply>) -> (Stage, Seq<GlCommand>)
    decreases replies.len(),
{
    if replies.len() == 0 {
        (stage, Seq::empty())
    } else {
        let first = step(stage, replies[0]);
        let rest = run(first.0, replies.drop_first());
        (rest.0, first.1 + rest.1)
    }
}

/// Every reply in order answers the request of the stage it reaches.
pub open spec fn accepted_run(stage: Stage, replies: Seq<Reply>) -> bool
    decreases replies.len(),
{
    replies.len() == 0 || (accepts(stage, replies[0]) && accepted_run(
        step(stage, replies[0]).0,
        replies.drop_first(),
    ))
}

/// The answers of a build in which both shaders compile and the program links.
pub open spec fn success_replies(vertex: u32, fragment: u32, program: u32, linked: u32) -> Seq<
    Reply,
> {
    seq![
        Reply::Compiled(Ok(vertex)),
        Reply::Compiled(Ok(fragment)),
        Reply::ProgramCreated(program),
        Reply::LinkChecked(Ok(linked)),
    ]
}

/// The commands such a build issues.
pub open spec fn success_commands(vertex: u32, fragment: u32, program: u32) -> Seq<GlCommand> {
    seq![
        GlCommand::AttachShader { program, shader: vertex },
        GlCommand::AttachShader { program, shader: fragment },
        GlCommand::LinkProgram { program },
        GlCommand::DeleteShader { shader: vertex },
        GlCommand::DeleteShader { shader: vertex },
    ]
}

/// The commands a build issues before its link fails.
pub open spec fn link_commands(vertex: u32, fragment: u32, program: u32) -> Seq<GlCommand> {
    seq![
        GlCommand::AttachShader { program, shader: vertex },
        GlCommand::AttachShader { program, shader: fragment },
        GlCommand::LinkProgram { program },
    ]
}

proof fn lemma_finished_run(stage: Stage, replies: Seq<Reply>)
    requires
        is_finished(stage),
        accepted_run(stage, replies),
    ensures
        replies.len() == 0,
        run(stage, replies) == (stage, Seq::<GlCommand>::empty()),
{
}

proof fn lemma_run_one(stage: Stage, replies: Seq<Reply>)
    requires
        replies.len() > 0,
    ensures
        run(stage, replies) == ({
            let first = step(stage, replies[0]);
            let rest = run(first.0, replies.drop_first());
            (rest.0, first.1 + rest.1)
        }),
        accepted_run(stage, replies) == (accepts(stage, replies[0]) && accepted_run(
            step(stage, replies[0]).0,
            replies.drop_first(),
        )),
{
}

proof fn lemma_check_link_run(program: u32, vertex: u32, replies: Seq<Reply>)
    requires
        accepted_run(Stage::CheckLink { program, vertex }, replies),
    ensures
        replies.len() <= 1,
        replies.len() == 1 ==> ({
            let r = run(Stage::CheckLink { program, vertex }, replies);
            match replies[0] {
                Reply::LinkChecked(Ok(_)) => r == (
                    Stage::Linked { program },
                    seq![
                        GlCommand::DeleteShader { shader: vertex },
                        GlCommand::DeleteShader { shader: vertex },
                    ],
                ),
                Reply::LinkChecked(Err(log)) => r == (
                    Stage::Failed(BuildFailure::Link(log)),
                    Seq::<GlCommand>::empty(),
                ),
                _ => false,
            }
        }),
{
    if replies.len() > 0 {
        let stage = Stage::CheckLink { program, vertex };
        lemma_run_one(stage, replies);
        lemma_finished_run(step(stage, replies[0]).0, replies.drop_first());
        let r = run(stage, replies);
        let first = step(stage, replies[0]);
        assert(first.1 + Seq::<GlCommand>::empty() =~= first.1);
    }
}

proof fn lemma_create_program_run(vertex: u32, fragment: u32, replies: Seq<Reply>)
    requires
        accepted_run(Stage::CreateProgram { vertex, fragment }, replies),
        replies.len() > 0,
    ensures
        replies[0] is ProgramCreated,
        replies.len() <= 2,
        ({
            let program = replies[0]->ProgramCreated_0;
            let r = run(Stage::CreateProgram { vertex, fragment }, replies);
            let tail = run(Stage::CheckLink { program, vertex }, replies.drop_first());
            &&& r.0 == tail.0
            &&& r.1 == link_commands(vertex, fragment, program) + tail.1
            &&& accepted_run(Stage::CheckLink { program, vertex }, replies.drop_first())
        }),
{
    let stage = Stage::CreateProgram { vertex, fragment };
    lemma_run_one(stage, replies);
    let program = replies[0]->ProgramCreated_0;
    lemma_check_link_run(program, vertex, replies.drop_first());
}

/// A build in which both shaders compile, the program is created and links
/// takes exactly those four answers, ends linked with that program, and issues
/// exactly: attach the vertex shader, attach the fragment shader, link, and
/// delete the vertex shader twice.
pub proof fn law_successful_build(vertex: u32, fragment: u32, program: u32, linked: u32)
    ensures
        accepted_run(Stage::CompileVertex, success_replies(vertex, fragment, program, linked)),
        run(Stage::CompileVertex, success_replies(vertex, fragment, program, linked)) == (
            Stage::Linked { program },
            success_commands(vertex, fragment, program),
        ),
        run(Stage::CompileVertex, success_replies(vertex, fragment, program, linked)).1 == seq![
            GlCommand::AttachShader { program, shader: vertex },
            GlCommand::AttachShader { program, shader: fragment },
            GlCommand::LinkProgram { program },
            GlCommand::DeleteShader { shader: vertex },
            GlCommand::DeleteShader { shader: vertex },
        ],
        run(
            Stage::CompileVertex,
            seq![
                Reply::Compiled(Ok(vertex)),
                Reply::Compiled(Ok(fragment)),
                Reply::ProgramCreated(program),
                Reply::LinkChecked(Ok(linked)),
            ],
        ).0 == (Stage::Linked { program }),
{
    let replies = success_replies(vertex, fragment, program, linked);
    let r1 = replies.drop_first();
    let r2 = r1.drop_first();
    let r3 = r2.drop_first();
    let r4 = r3.drop_first();
    assert(r4.len() == 0);
    lemma_run_one(Stage::CheckLink { program, vertex }, r3);
    lemma_run_one(Stage::CreateProgram { vertex, fragment }, r2);
    lemma_run_one(Stage::CompileFragment { vertex }, r1);
    lemma_run_one(Stage::CompileVertex, replies);
    assert(run(Stage::CompileVertex, replies).1 =~= success_commands(vertex, fragment, program));
}

/// A build ends linked only after both shaders compiled, a program was
/// created and its link succeeded, and then only with that program.
pub proof fn law_linked_only_after_success(replies: Seq<Reply>, program: u32)
    requires
        accepted_run(Stage::CompileVertex, replies),
        run(Stage::CompileVertex, replies).0 == (Stage::Linked { program }),
    ensures
        exists|vertex: u32, fragment: u32, linked: u32|
            replies == success_replies(vertex, fragment, program, linked),
        replies.len() == 4,
        replies[0] matches Reply::Compiled(Ok(_)),
        replies[1] matches Reply::Compiled(Ok(_)),
        replies[2] == Reply::ProgramCreated(program),
        replies[3] matches Reply::LinkChecked(Ok(_)),
{
    let s0 = Stage::CompileVertex;
    if replies.len() == 0 {
    } else {
        lemma_run_one(s0, replies);
        let r1 = replies.drop_first();
        match replies[0] {
            Reply::Compiled(Ok(vertex)) => {
                let s1 = Stage::CompileFragment { vertex };
                if r1.len() == 0 {
                } else {
                    lemma_run_one(s1, r1);
                    let r2 = r1.drop_first();
                    match r1[0] {
                        Reply::Compiled(Ok(fragment)) => {
                            if r2.len() == 0 {
                            } else {
                                lemma_create_program_run(vertex, fragment, r2);
                                let p = r2[0]->ProgramCreated_0;
                                let r3 = r2.drop_first();
                                if r3.len() == 0 {
                                } else {
                                    lemma_check_link_run(p, vertex, r3);
                                    let linked = r3[0]->LinkChecked_0->Ok_0;
                                    assert(replies =~= success_replies(vertex, fragment, p, linked));
                                }
                            }
                        },
                        _ => {
                            lemma_finished_run(step(s1, r1[0]).0, r2);
                        },
                    }
                }
            },
            _ => {
                lemma_finished_run(step(s0, replies[0]).0, r1);
            },
        }
    }
}

/// A build that stops on a failed compile has issued no command at all; one
/// that stops on a failed link has only attached both shaders to the program
/// and linked it, and deleted nothing.
pub proof fn law_failed_build_commands(replies: Seq<Reply>)
    requires
        accepted_run(Stage::CompileVertex, replies),
        run(Stage::CompileVertex, replies).0 is Failed,
    ensures
        !(run(Stage::CompileVertex, replies).0 matches Stage::Failed(BuildFailure::Link(_)))
            ==> run(Stage::CompileVertex, replies).1 == Seq::<GlCommand>::empty(),
        (run(Stage::CompileVertex, replies).0 matches Stage::Failed(BuildFailure::Link(_)))
            ==> exists|vertex: u32, fragment: u32, program: u32|
            run(Stage::CompileVertex, replies).1 == link_commands(vertex, fragment, program),
        (run(Stage::CompileVertex, replies).0 matches Stage::Failed(BuildFailure::Link(_)))
            ==> exists|vertex: u32, fragment: u32, program: u32|
            run(Stage::CompileVertex, replies).1 == seq![
                GlCommand::AttachShader { program, shader: vertex },
                GlCommand::AttachShader { program, shader: fragment },
                GlCommand::LinkProgram { program },
            ],
{
    let s0 = Stage::CompileVertex;
    lemma_run_one(s0, replies);
    let r1 = replies.drop_first();
    match replies[0] {
        Reply::Compiled(Ok(vertex)) => {
            let s1 = Stage::CompileFragment { vertex };
            if r1.len() == 0 {
            } else {
                lemma_run_one(s1, r1);
                let r2 = r1.drop_first();
                match r1[0] {
                    Reply::Compiled(Ok(fragment)) => {
                        if r2.len() == 0 {
                        } else {
                            lemma_create_program_run(vertex, fragment, r2);
                            let p = r2[0]->ProgramCreated_0;
                            let r3 = r2.drop_first();
                            if r3.len() == 0 {
                            } else {
                                lemma_check_link_run(p, vertex, r3);
                                let cmds = run(s0, replies).1;
                                assert(cmds =~= link_commands(vertex, fragment, p));
                            }
                        }
                    },
                    _ => {
                        lemma_finished_run(step(s1, r1[0]).0, r2);
                        assert(run(s0, replies).1 =~= Seq::<GlCommand>::empty());
                    },
                }
            }
        },
        _ => {
            lemma_finished_run(step(s0, replies[0]).0, r1);
            assert(run(s0, replies).1 =~= Seq::<GlCommand>::empty());
        },
    }
}

/// A build takes at most four answers: two compiles, a program, a link.
pub proof fn law_build_length(replies: Seq<Reply>)
    requires
        accepted_run(Stage::CompileVertex, replies),
    ensures
        replies.len() <= 4,
{
    let s0 = Stage::CompileVertex;
    if replies.len() > 0 {
        lemma_run_one(s0, replies);
        let r1 = replies.drop_first();
        match replies[0] {
            Reply::Compiled(Ok(vertex)) => {
                let s1 = Stage::CompileFragment { vertex };
                if r1.len() > 0 {
                    lemma_run_one(s1, r1);
                    let r2 = r1.drop_first();
                    match r1[0] {
                        Reply::Compiled(Ok(fragment)) => {
                            if r2.len() > 0 {
                                lemma_create_program_run(vertex, fragment, r2);
                            }
                        },
                        _ => {
                            lemma_finished_run(step(s1, r1[0]).0, r2);
                        },
                    }
                }
            },
            _ => {
                lemma_finished_run(step(s0, replies[0]).0, r1);
            },
        }
    }
}

/// Each unfinished stage takes exactly the answer to the request it makes:
/// a compile request takes a compile outcome, a program request the created
/// program, a link-status request the link outcome; a finished build makes no
/// request and takes nothing.
pub proof fn law_request_answered<'a>(
    stage: Stage,
    reply: Reply,
    vertex_src: &'a str,
    fragment_src: &'a str,
)
    ensures
        accepts(stage, reply) <==> match request_of(stage, vertex_src, fragment_src) {
            Some(Request::Compile { .. }) => reply is Compiled,
            Some(Request::CreateProgram) => reply is ProgramCreated,
            Some(Request::LinkStatus { .. }) => reply is LinkChecked,
            None => false,
        },
        request_of(stage, vertex_src, fragment_src) is None <==> is_finished(stage),
{
}

/// The request of a build names what it was started with: a build waiting
/// to compile its vertex shader asks to compile the vertex source as a vertex
/// shader, one waiting on its fragment shader asks to compile the fragment
/// source as a fragment shader, and one waiting on its link asks for the link
/// status of the program it just linked.
pub proof fn law_request_names_its_inputs<'a>(
    stage: Stage,
    vertex_src: &'a str,
    fragment_src: &'a str,
)
    ensures
        stage == Stage::CompileVertex ==> request_of(stage, vertex_src, fragment_src) == Some(
            Request::Compile { kind: ShaderKind::Vertex, source: vertex_src },
        ),
        stage is CompileFragment ==> request_of(stage, vertex_src, fragment_src) == Some(
            Request::Compile { kind: ShaderKind::Fragment, source: fragment_src },
        ),
        stage is CreateProgram ==> request_of(stage, vertex_src, fragment_src) == Some(
            Request::CreateProgram,
        ),
        stage matches Stage::CheckLink { program, .. } ==> request_of(
            stage,
            vertex_src,
            fragment_src,
        ) == Some(Request::LinkStatus { program }),
{
}

/// A linked shader program and the sources it was built from.
pub struct Shader<'a> {
    prog: u32,
    vertex_shader_src: &'a str,
    fragment_shader_src: &'a str,
}

/// A program being built from a vertex and a fragment shader source.
pub struct ShaderBuild<'a> {
    vertex_shader_src: &'a str,
    fragment_shader_src: &'a str,
    stage: Stage,
}

impl<'a> ShaderBuild<'a> {
    /// Where this build stands.
    pub closed spec fn spec_stage(&self) -> Stage {
        self.stage
    }

    /// The vertex shader source.
    pub closed spec fn spec_vertex_src(&self) -> &'a str {
        self.vertex_shader_src
    }

    /// The fragment shader source.
    pub closed spec fn spec_fragment_src(&self) -> &'a str {
        self.fragment_shader_src
    }

    /// Where this build stands.
    pub fn stage(&self) -> (s: &Stage)
        ensures
            *s == self.spec_stage(),
    {
        &self.stage
    }

    /// The OpenGL work this build waits for; `None` once it has finished.
    pub fn request(&self) -> (r: Option<Request<'a>>)
        ensures
            r == request_of(self.spec_stage(), self.spec_vertex_src(), self.spec_fragment_src()),
            r is None <==> is_finished(self.spec_stage()),
            self.spec_stage() == Stage::CompileVertex ==> r == Some(
                Request::Compile { kind: ShaderKind::Vertex, source: self.spec_vertex_src() },
            ),
            self.spec_stage() is CompileFragment ==> r == Some(
                Request::Compile { kind: ShaderKind::Fragment, source: self.spec_fragment_src() },
            ),
            self.spec_stage() is CreateProgram ==> r == Some(Request::CreateProgram),
            self.spec_stage() matches Stage::CheckLink { program, .. } ==> r == Some(
                Request::LinkStatus { program },
            ),
    {
        match &self.stage {
            Stage::CompileVertex => Some(
                Request::Compile { kind: ShaderKind::Vertex, source: self.vertex_shader_src },
            ),
            Stage::CompileFragment { .. } => Some(
                Request::Compile { kind: ShaderKind::Fragment, source: self.fragment_shader_src },
            ),
            Stage::CreateProgram { .. } => Some(Request::CreateProgram),
            Stage::CheckLink { program, .. } => Some(Request::LinkStatus { program: *program }),
            Stage::Linked { .. } => None,
            Stage::Failed(_) => None,
        }
    }

    /// Takes OpenGL's answer to the current request; returns the build's next
    /// state and the commands to issue before its next request.
    pub fn advance(self, reply: Reply) -> (res: (ShaderBuild<'a>, Vec<GlCommand>))
        requires
            accepts(self.spec_stage(), reply),
        ensures
            res.0.spec_stage() == step(self.spec_stage(), reply).0,
            res.1@ == step(self.spec_stage(), reply).1,
            res.0.spec_vertex_src() == self.spec_vertex_src(),
            res.0.spec_fragment_src() == self.spec_fragment_src(),
            self.spec_stage() == Stage::CompileVertex ==> (reply matches Reply::Compiled(Ok(v))
                ==> res.0.spec_stage() == (Stage::CompileFragment { vertex: v }) && res.1@.len()
                == 0),
            self.spec_stage() == Stage::CompileVertex ==> (reply matches Reply::Compiled(Err(log))
                ==> res.0.spec_stage() == Stage::Failed(BuildFailure::VertexCompile(log))
                && res.1@.len() == 0),
            self.spec_stage() matches Stage::CompileFragment { vertex } ==> (reply matches Reply::Compiled(
                Ok(f),
            ) ==> res.0.spec_stage() == (Stage::CreateProgram { vertex, fragment: f })
                && res.1@.len() == 0),
            self.spec_stage() is CompileFragment ==> (reply matches Reply::Compiled(Err(log))
                ==> res.0.spec_stage() == Stage::Failed(BuildFailure::FragmentCompile(log))
                && res.1@.len() == 0),
            self.spec_stage() matches Stage::CreateProgram { vertex, fragment } ==> (
            reply matches Reply::ProgramCreated(p) ==> res.0.spec_stage() == (Stage::CheckLink {
                program: p,
                vertex,
            }) && res.1@ == seq![
                GlCommand::AttachShader { program: p, shader: vertex },
                GlCommand::AttachShader { program: p, shader: fragment },
                GlCommand::LinkProgram { program: p },
            ]),
            self.spec_stage() matches Stage::CheckLink { program, vertex } ==> (
            reply matches Reply::LinkChecked(Ok(_)) ==> res.0.spec_stage() == (Stage::Linked {
                program,
            }) && res.1@ == seq![
                GlCommand::DeleteShader { shader: vertex },
                GlCommand::DeleteShader { shader: vertex },
            ]),
            self.spec_stage() is CheckLink ==> (reply matches Reply::LinkChecked(Err(log))
                ==> res.0.spec_stage() == Stage::Failed(BuildFailure::Link(log)) && res.1@.len()
                == 0),
    {
        let ShaderBuild { vertex_shader_src, fragment_shader_src, stage } = self;
        let mut cmds: Vec<GlCommand> = Vec::new();
        let next = match stage {
            Stage::CompileVertex => match reply {
                Reply::Compiled(Ok(vertex)) => Stage::CompileFragment { vertex },
                Reply::Compiled(Err(log)) => Stage::Failed(BuildFailure::VertexCompile(log)),
                _ => Stage::CompileVertex,
            },
            Stage::CompileFragment { vertex } => match reply {
                Reply::Compiled(Ok(fragment)) => Stage::CreateProgram { vertex, fragment },
                Reply::Compiled(Err(log)) => Stage::Failed(BuildFailure::FragmentCompile(log)),
                _ => Stage::CompileFragment { vertex },
            },
            Stage::CreateProgram { vertex, fragment } => match reply {
                Reply::ProgramCreated(program) => {
                    cmds.push(GlCommand::AttachShader { program, shader: vertex });
                    cmds.push(GlCommand::AttachShader { program, shader: fragment });
                    cmds.push(GlCommand::LinkProgram { program });
                    Stage::CheckLink { program, vertex }
                },
                _ => Stage::CreateProgram { vertex, fragment },
            },
            Stage::CheckLink { program, vertex } => match reply {
                Reply::LinkChecked(Ok(_)) => {
                    cmds.push(GlCommand::DeleteShader { shader: vertex });
                    cmds.push(GlCommand::DeleteShader { shader: vertex });
                    Stage::Linked { program }
                },
                Reply::LinkChecked(Err(log)) => Stage::Failed(BuildFailure::Link(log)),
                _ => Stage::CheckLink { program, vertex },
            },
            other => other,
        };
        (ShaderBuild { vertex_shader_src, fragment_shader_src, stage: next }, cmds)
    }

    /// Ends a finished build: the linked shader, or why it failed.
    pub fn finish(self) -> (r: Result<Shader<'a>, BuildFailure>)
        requires
            is_finished(self.spec_stage()),
        ensures
            self.spec_stage() matches Stage::Linked { program } ==> (r matches Ok(s) && s.spec_program()
                == program && s.spec_vertex_src() == self.spec_vertex_src()
                && s.spec_fragment_src() == self.spec_fragment_src()),
            self.spec_stage() matches Stage::Failed(f) ==> r == Err::<Shader<'a>, BuildFailure>(f),
    {
        let ShaderBuild { vertex_shader_src, fragment_shader_src, stage } = self;
        match stage {
            Stage::Failed(f) => Err(f),
            Stage::Linked { program } => Ok(
                Shader { prog: program, vertex_shader_src, fragment_shader_src },
            ),
            _ => {
                // ruled out by the precondition
                assert(false);
                Err(BuildFailure::Link(String::new()))
            },
        }
    }
}

impl<'a> Shader<'a> {
    /// The OpenGL name of the program.
    pub closed spec fn spec_program(&self) -> u32 {
        self.prog
    }

    /// The vertex shader source the program was built from.
    pub closed spec fn spec_vertex_src(&self) -> &'a str {
        self.vertex_shader_src
    }

    /// The fragment shader source the program was built from.
    pub closed spec fn spec_fragment_src(&self) -> &'a str {
        self.fragment_shader_src
    }

    /// Starts building a program from a vertex and a fragment shader source;
    /// the first request is to compile the vertex shader.
    pub fn new(vertex_shader_src: &'a str, fragment_shader_src: &'a str) -> (b: ShaderBuild<'a>)
        ensures
            b.spec_stage() == Stage::CompileVertex,
            b.spec_vertex_src() == vertex_shader_src,
            b.spec_fragment_src() == fragment_shader_src,
    {
        ShaderBuild { vertex_shader_src, fragment_shader_src, stage: Stage::CompileVertex }
    }

    /// The OpenGL name of the program.
    pub fn program(&self) -> (p: u32)
        ensures
            p == self.spec_program(),
    {
        self.prog
    }

    /// The vertex shader source the program was built from.
    pub fn vertex_shader_src(&self) -> (s: &'a str)
        ensures
            s == self.spec_vertex_src(),
    {
        self.vertex_shader_src
    }

    /// The fragment shader source the program was built from.
    pub fn fragment_shader_src(&self) -> (s: &'a str)
        ensures
            s == self.spec_fragment_src(),
    {
        self.fragment_shader_src
    }

    /// Makes this program the current one.
    pub fn activate(&self) -> (cmd: GlCommand)
        ensures
            cmd == (GlCommand::UseProgram { program: self.spec_program() }),
    {
        GlCommand::UseProgram { program: self.prog }
    }

    /// Releases the program when the shader goes away.
    pub fn drop_command(&self) -> (cmd: GlCommand)
        ensures
            cmd == (GlCommand::DeleteProgram { program: self.spec_program() }),
    {
        GlCommand::DeleteProgram { program: self.prog }
    }

    /// Sets the `uint` uniform at `location`, which OpenGL found for the
    /// uniform's name in this program.
    pub fn set_u32(&self, location: i32, data: (u32,)) -> (cmd: GlCommand)
        requires
            location != -1,
        ensures
            cmd == (GlCommand::Uniform { location, value: UniformValue::U32x1(data.0) }),
    {
        GlCommand::Uniform { location, value: UniformValue::U32x1(data.0) }
    }

    /// Sets the `int` uniform at `location`.
    pub fn set_i32(&self, location: i32, data: (i32,)) -> (cmd: GlCommand)
        requires
            location != -1,
        ensures
            cmd == (GlCommand::Uniform { location, value: UniformValue::I32x1(data.0) }),
    {
        GlCommand::Uniform { location, value: UniformValue::I32x1(data.0) }
    }

    /// Sets the `uvec2` uniform at `location`.
    pub fn set_vec2ui(&self, location: i32, data: (u32, u32)) -> (cmd: GlCommand)
        requires
            location != -1,
        ensures
            cmd == (GlCommand::Uniform { location, value: UniformValue::U32x2(data.0, data.1) }),
    {
        GlCommand::Uniform { location, value: UniformValue::U32x2(data.0, data.1) }
    }

    /// Sets the `ivec2` uniform at `location`.
    pub fn set_vec2i(&self, location: i32, data: (i32, i32)) -> (cmd: GlCommand)
        requires
            location != -1,
        ensures
            cmd == (GlCommand::Uniform { location, value: UniformValue::I32x2(data.0, data.1) }),
    {
        GlCommand::Uniform { location, value: UniformValue::I32x2(data.0, data.1) }
    }

    /// Sets the `uvec3` uniform at `location`.
    pub fn set_vec3ui(&self, location: i32, data: (u32, u32, u32)) -> (cmd: GlCommand)
        requires
            location != -1,
        ensures
            cmd == (GlCommand::Uniform {
                location,
                value: UniformValue::U32x3(data.0, data.1, data.2),
            }),
    {
        GlCommand::Uniform { location, value: UniformValue::U32x3(data.0, data.1, data.2) }
    }

    /// Sets the `ivec3` uniform at `location`.
    pub fn set_vec3i(&self, location: i32, data: (i32, i32, i32)) -> (cmd: GlCommand)
        requires
            location != -1,
        ensures
            cmd == (GlCommand::Uniform {
                location,
                value: UniformValue::I32x3(data.0, data.1, data.2),
            }),
    {
        GlCommand::Uniform { location, value: UniformValue::I32x3(data.0, data.1, data.2) }
    }

    /// Sets the `uvec4` uniform at `location`.
    pub fn set_vec4ui(&self, location: i32, data: (u32, u32, u32, u32)) -> (cmd: GlCommand)
        requires
            location != -1,
        ensures
            cmd == (GlCommand::Uniform {
                location,
                value: UniformValue::U32x4(data.0, data.1, data.2, data.3),
            }),
    {
        GlCommand::Uniform { location, value: UniformValue::U32x4(data.0, data.1, data.2, data.3) }
    }

    /// Sets the `ivec4` uniform at `location`.
    pub fn set_vec4i(&self, location: i32, data: (i32, i32, i32, i32)) -> (cmd: GlCommand)
        requires
            location != -1,
        ensures
            cmd == (GlCommand::Uniform {
                location,
                value: UniformValue::I32x4(data.0, data.1, data.2, data.3),
            }),
    {
        GlCommand::Uniform { location, value: UniformValue::I32x4(data.0, data.1, data.2, data.3) }
    }
}

} // verus!
