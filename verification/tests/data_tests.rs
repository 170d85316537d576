use learnopengl_utils::command::{BufferTarget, GlCommand};
use learnopengl_utils::data::{ElementBuffer, UsageType, VertexArray, VertexBuffer};

#[test]
fn vertex_buffer_binds_then_uploads_to_array_target() {
    // four vertices of three f32 each
    let vertices: [f32; 12] = [0.5, 0.5, 0.0, 0.5, -0.5, 0.0, -0.5, -0.5, 0.0, -0.5, 0.5, 0.0];
    let (vbo, cmds) = VertexBuffer::new(5, &vertices, UsageType::StaticDraw);
    assert_eq!(vbo.id(), 5);
    assert_eq!(
        cmds,
        vec![
            GlCommand::BindBuffer { target: BufferTarget::Array, buffer: 5 },
            GlCommand::BufferData { target: BufferTarget::Array, size: 48, usage: UsageType::StaticDraw },
        ]
    );
}

#[test]
fn element_buffer_binds_then_uploads_to_element_target() {
    // six u32 indices
    let indices: [u32; 6] = [0, 1, 3, 1, 2, 3];
    let (ebo, cmds) = ElementBuffer::new(9, &indices, UsageType::DynamicDraw);
    assert_eq!(ebo.id(), 9);
    assert_eq!(
        cmds,
        vec![
            GlCommand::BindBuffer { target: BufferTarget::ElementArray, buffer: 9 },
            GlCommand::BufferData { target: BufferTarget::ElementArray, size: 24, usage: UsageType::DynamicDraw },
        ]
    );
}

#[test]
fn empty_buffer_uploads_zero_bytes() {
    let empty: [f32; 0] = [];
    let (_, cmds) = VertexBuffer::new(1, &empty, UsageType::StreamDraw);
    assert_eq!(cmds[1], GlCommand::BufferData { target: BufferTarget::Array, size: 0, usage: UsageType::StreamDraw });
}

#[test]
fn zero_sized_elements_upload_zero_bytes() {
    let units = [(), (), ()];
    let (_, cmds) = ElementBuffer::new(1, &units, UsageType::StaticDraw);
    assert_eq!(cmds[1], GlCommand::BufferData { target: BufferTarget::ElementArray, size: 0, usage: UsageType::StaticDraw });
}

#[test]
fn byte_size_counts_element_size() {
    let bytes = [1u8, 2, 3];
    let (_, cmds) = VertexBuffer::new(1, &bytes, UsageType::StaticDraw);
    assert_eq!(cmds[1], GlCommand::BufferData { target: BufferTarget::Array, size: 3, usage: UsageType::StaticDraw });
    let wide = [[0u64; 4]; 2];
    let (_, cmds) = VertexBuffer::new(1, &wide, UsageType::StaticDraw);
    assert_eq!(cmds[1], GlCommand::BufferData { target: BufferTarget::Array, size: 64, usage: UsageType::StaticDraw });
}

#[test]
fn gl_values_of_usage_and_target() {
    assert_eq!(UsageType::StaticDraw.gl_value(), 0x88E4);
    assert_eq!(UsageType::StreamDraw.gl_value(), 0x88E0);
    assert_eq!(UsageType::DynamicDraw.gl_value(), 0x88E8);
    assert_eq!(BufferTarget::Array.gl_value(), 0x8892);
    assert_eq!(BufferTarget::ElementArray.gl_value(), 0x8893);
}

#[test]
fn vertex_array_binds_itself_then_its_buffers() {
    let (vbo, _) = VertexBuffer::new(1, &[0.0f32; 3], UsageType::StaticDraw);
    let (ebo, _) = ElementBuffer::new(2, &[0u32; 3], UsageType::StaticDraw);
    let (vao, cmds) = VertexArray::new(3, vbo, ebo);
    assert_eq!(vao.id(), 3);
    assert_eq!(vao.vbo().id(), 1);
    assert_eq!(vao.ebo().id(), 2);
    assert_eq!(
        cmds,
        vec![
            GlCommand::BindVertexArray { array: 3 },
            GlCommand::BindBuffer { target: BufferTarget::Array, buffer: 1 },
            GlCommand::BindBuffer { target: BufferTarget::ElementArray, buffer: 2 },
        ]
    );
}
