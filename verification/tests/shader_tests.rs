use learnopengl_utils::command::{GlCommand, UniformValue};
use learnopengl_utils::shader::{BuildFailure, Reply, Request, ShaderBuild, ShaderKind, Stage};
use learnopengl_utils::Shader;

const VS: &str = "#version 330 core\nvoid main() { gl_Position = vec4(0.0); }\n";
const FS: &str = "#version 330 core\nout vec4 c;\nvoid main() { c = vec4(1.0); }\n";

fn linked_shader() -> Shader<'static> {
    let b = Shader::new(VS, FS);
    let (b, _) = b.advance(Reply::Compiled(Ok(1)));
    let (b, _) = b.advance(Reply::Compiled(Ok(2)));
    let (b, _) = b.advance(Reply::ProgramCreated(3));
    let (b, _) = b.advance(Reply::LinkChecked(Ok(3)));
    b.finish().unwrap()
}

#[test]
fn new_build_first_compiles_the_vertex_shader() {
    let b = Shader::new(VS, FS);
    assert_eq!(*b.stage(), Stage::CompileVertex);
    assert_eq!(b.request(), Some(Request::Compile { kind: ShaderKind::Vertex, source: VS }));
}

#[test]
fn successful_build_issues_attach_link_and_deletes() {
    let b: ShaderBuild = Shader::new(VS, FS);
    let (b, c1) = b.advance(Reply::Compiled(Ok(11)));
    assert!(c1.is_empty());
    assert_eq!(b.request(), Some(Request::Compile { kind: ShaderKind::Fragment, source: FS }));
    let (b, c2) = b.advance(Reply::Compiled(Ok(12)));
    assert!(c2.is_empty());
    assert_eq!(b.request(), Some(Request::CreateProgram));
    let (b, c3) = b.advance(Reply::ProgramCreated(20));
    assert_eq!(
        c3,
        vec![
            GlCommand::AttachShader { program: 20, shader: 11 },
            GlCommand::AttachShader { program: 20, shader: 12 },
            GlCommand::LinkProgram { program: 20 },
        ]
    );
    assert_eq!(b.request(), Some(Request::LinkStatus { program: 20 }));
    let (b, c4) = b.advance(Reply::LinkChecked(Ok(20)));
    assert_eq!(
        c4,
        vec![GlCommand::DeleteShader { shader: 11 }, GlCommand::DeleteShader { shader: 11 }]
    );
    assert_eq!(*b.stage(), Stage::Linked { program: 20 });
    assert_eq!(b.request(), None);
    let shader = b.finish().unwrap();
    assert_eq!(shader.program(), 20);
    assert_eq!(shader.vertex_shader_src(), VS);
    assert_eq!(shader.fragment_shader_src(), FS);
}

#[test]
fn vertex_compile_failure_stops_the_build() {
    let b = Shader::new(VS, FS);
    let (b, cmds) = b.advance(Reply::Compiled(Err("0:1: syntax error".to_string())));
    assert!(cmds.is_empty());
    assert_eq!(b.request(), None);
    assert_eq!(b.finish().err(), Some(BuildFailure::VertexCompile("0:1: syntax error".to_string())));
}

#[test]
fn fragment_compile_failure_stops_the_build() {
    let b = Shader::new(VS, FS);
    let (b, _) = b.advance(Reply::Compiled(Ok(1)));
    let (b, cmds) = b.advance(Reply::Compiled(Err("undeclared c".to_string())));
    assert!(cmds.is_empty());
    assert_eq!(*b.stage(), Stage::Failed(BuildFailure::FragmentCompile("undeclared c".to_string())));
    assert_eq!(b.finish().err(), Some(BuildFailure::FragmentCompile("undeclared c".to_string())));
}

#[test]
fn link_failure_stops_the_build_without_deleting() {
    let b = Shader::new(VS, FS);
    let (b, _) = b.advance(Reply::Compiled(Ok(1)));
    let (b, _) = b.advance(Reply::Compiled(Ok(2)));
    let (b, _) = b.advance(Reply::ProgramCreated(3));
    let (b, cmds) = b.advance(Reply::LinkChecked(Err("no main".to_string())));
    assert!(cmds.is_empty());
    assert_eq!(b.request(), None);
    assert_eq!(b.finish().err(), Some(BuildFailure::Link("no main".to_string())));
}

#[test]
fn activate_uses_the_program() {
    assert_eq!(linked_shader().activate(), GlCommand::UseProgram { program: 3 });
}

#[test]
fn drop_command_deletes_the_program() {
    assert_eq!(linked_shader().drop_command(), GlCommand::DeleteProgram { program: 3 });
}

#[test]
fn integer_uniform_setters() {
    let s = linked_shader();
    assert_eq!(s.set_u32(4, (7,)), GlCommand::Uniform { location: 4, value: UniformValue::U32x1(7) });
    assert_eq!(s.set_i32(0, (-1,)), GlCommand::Uniform { location: 0, value: UniformValue::I32x1(-1) });
    assert_eq!(s.set_vec2ui(1, (1, 2)), GlCommand::Uniform { location: 1, value: UniformValue::U32x2(1, 2) });
    assert_eq!(s.set_vec2i(1, (-1, 2)), GlCommand::Uniform { location: 1, value: UniformValue::I32x2(-1, 2) });
    assert_eq!(s.set_vec3ui(2, (1, 2, 3)), GlCommand::Uniform { location: 2, value: UniformValue::U32x3(1, 2, 3) });
    assert_eq!(s.set_vec3i(2, (1, -2, 3)), GlCommand::Uniform { location: 2, value: UniformValue::I32x3(1, -2, 3) });
    assert_eq!(
        s.set_vec4ui(5, (1, 2, 3, 4)),
        GlCommand::Uniform { location: 5, value: UniformValue::U32x4(1, 2, 3, 4) }
    );
    assert_eq!(
        s.set_vec4i(5, (1, 2, 3, -4)),
        GlCommand::Uniform { location: 5, value: UniformValue::I32x4(1, 2, 3, -4) }
    );
}

#[test]
fn gl_values_of_shader_kinds() {
    assert_eq!(ShaderKind::Vertex.gl_value(), 0x8B31);
    assert_eq!(ShaderKind::Fragment.gl_value(), 0x8B30);
}
