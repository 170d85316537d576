//! Buffer objects and vertex arrays: the handles the library keeps, and the
//! commands that set them up.
use vstd::layout::size_of;
use vstd::prelude::*;

use crate::command::{BufferTarget, GlCommand};

verus! {

/// How a buffer's data store is expected to be used (`GL_STATIC_DRAW`,
/// `GL_STREAM_DRAW`, `GL_DYNAMIC_DRAW`).
#[derive(Clone, Copy, Debug, PartialEq, Eq, Structural)]
pub enum UsageType {
    StaticDraw,
    StreamDraw,
    DynamicDraw,
}

impl UsageType {
    /// The OpenGL enumerant for this usage.
    pub fn gl_value(self) -> (v: u32)
        ensures
            v == match self {
                UsageType::StaticDraw => 0x88E4u32,
                UsageType::StreamDraw => 0x88E0u32,
                UsageType::DynamicDraw => 0x88E8u32,
            },
    {
        match self {
            UsageType::StaticDraw => 0x88E4,  // GL_STATIC_DRAW
            UsageType::StreamDraw => 0x88E0,  // GL_STREAM_DRAW
            UsageType::DynamicDraw => 0x88E8,  // GL_DYNAMIC_DRAW
        }
    }
}

/// The size in bytes of the contents of a slice with `len` elements of type `T`.
pub open spec fn byte_size<T>(len: nat) -> nat {
    len * size_of::<T>()
}

/// Binding a buffer to `target`, then filling it with `size` bytes of data.
pub open spec fn upload_commands(target: BufferTarget, id: u32, size: nat, usage: UsageType) -> Seq<
    GlCommand,
> {
    seq![
        GlCommand::BindBuffer { target, buffer: id },
        GlCommand::BufferData { target, size: size as isize, usage },
    ]
}

/// Binding a vertex array, then its vertex and element buffers.
pub open spec fn vertex_array_commands(array: u32, vbo: u32, ebo: u32) -> Seq<GlCommand> {
    seq![
        GlCommand::BindVertexArray { array },
        GlCommand::BindBuffer { target: BufferTarget::Array, buffer: vbo },
        GlCommand::BindBuffer { target: BufferTarget::ElementArray, buffer: ebo },
    ]
}

/// An upload binds the buffer to its target and then fills that same target
/// with exactly the size asked for, with the usage asked for; nothing else.
pub proof fn law_upload_commands(target: BufferTarget, id: u32, size: nat, usage: UsageType)
    requires
        size <= isize::MAX,
    ensures
        upload_commands(target, id, size, usage).len() == 2,
        upload_commands(target, id, size, usage)[0] == (GlCommand::BindBuffer {
            target,
            buffer: id,
        }),
        upload_commands(target, id, size, usage)[1] == (GlCommand::BufferData {
            target,
            size: size as isize,
            usage,
        }),
        upload_commands(target, id, size, usage)[1]->BufferData_size == size,
{
}

/// The bytes of a slice are its length times the size of one element.
pub proof fn law_byte_size<T>(len: nat)
    ensures
        byte_size::<T>(len) == len * size_of::<T>(),
        byte_size::<T>(0) == 0,
        byte_size::<T>(len + 1) == byte_size::<T>(len) + size_of::<T>(),
{
    assert((len + 1) * size_of::<T>() == len * size_of::<T>() + size_of::<T>()) by (nonlinear_arith);
}

/// Setting up a vertex array issues exactly three commands, for all names:
/// bind the array, bind its vertex buffer to the array target, bind its
/// element buffer to the element array target.
pub proof fn law_vertex_array_commands(array: u32, vbo: u32, ebo: u32)
    ensures
        vertex_array_commands(array, vbo, ebo).len() == 3,
        vertex_array_commands(array, vbo, ebo)[0] == (GlCommand::BindVertexArray { array }),
        vertex_array_commands(array, vbo, ebo)[1] == (GlCommand::BindBuffer {
            target: BufferTarget::Array,
            buffer: vbo,
        }),
        vertex_array_commands(array, vbo, ebo)[2] == (GlCommand::BindBuffer {
            target: BufferTarget::ElementArray,
            buffer: ebo,
        }),
{
}

fn upload<T>(target: BufferTarget, id: u32, data: &[T], usage: UsageType) -> (cmds: Vec<GlCommand>)
    requires
        byte_size::<T>(data@.len()) <= isize::MAX,
    ensures
        cmds@ == upload_commands(target, id, byte_size::<T>(data@.len()), usage),
{
    let elem = core::mem::size_of::<T>();
    assert(data@.len() * size_of::<T>() <= isize::MAX);
    let size = data.len() * elem;
    let mut cmds: Vec<GlCommand> = Vec::new();
    cmds.push(GlCommand::BindBuffer { target, buffer: id });
    cmds.push(GlCommand::BufferData { target, size: size as isize, usage });
    cmds
}

/// A buffer object holding vertex attribute data.
pub struct VertexBuffer {
    id: u32,
}

impl VertexBuffer {
    #[verifier::type_invariant]
    spec fn id_is_valid(self) -> bool {
        self.id != 0
    }

    /// The OpenGL name of this buffer.
    pub closed spec fn spec_id(self) -> u32 {
        self.id
    }

    /// Takes the name `id` that `glGenBuffers` gave for a buffer of vertex
    /// data, and plans binding it to the array target and uploading all the
    /// bytes of `data` with the given usage.
    pub fn new<T>(id: u32, data: &[T], usage: UsageType) -> (res: (VertexBuffer, Vec<GlCommand>))
        requires
            id != 0,
            byte_size::<T>(data@.len()) <= isize::MAX,
        ensures
            res.0.spec_id() == id,
            res.1@ == upload_commands(BufferTarget::Array, id, byte_size::<T>(data@.len()), usage),
            res.1@ == seq![
                GlCommand::BindBuffer { target: BufferTarget::Array, buffer: id },
                GlCommand::BufferData {
                    target: BufferTarget::Array,
                    size: (data@.len() * size_of::<T>()) as isize,
                    usage,
                },
            ],
    {
        let cmds = upload(BufferTarget::Array, id, data, usage);
        (VertexBuffer { id }, cmds)
    }

    /// The OpenGL name of this buffer; never 0.
    pub fn id(&self) -> (id: u32)
        ensures
            id == self.spec_id(),
            id != 0,
    {
        proof {
            use_type_invariant(self);
        }
        self.id
    }
}

/// A buffer object holding vertex indices.
pub struct ElementBuffer {
    id: u32,
}

impl ElementBuffer {
    #[verifier::type_invariant]
    spec fn id_is_valid(self) -> bool {
        self.id != 0
    }

    /// The OpenGL name of this buffer.
    pub closed spec fn spec_id(self) -> u32 {
        self.id
    }

    /// Takes the name `id` that `glGenBuffers` gave for a buffer of index
    /// data, and plans binding it to the element array target and uploading
    /// all the bytes of `data` with the given usage.
    pub fn new<T>(id: u32, data: &[T], usage: UsageType) -> (res: (ElementBuffer, Vec<GlCommand>))
        requires
            id != 0,
            byte_size::<T>(data@.len()) <= isize::MAX,
        ensures
            res.0.spec_id() == id,
            res.1@ == upload_commands(BufferTarget::ElementArray, id, byte_size::<T>(data@.len()), usage),
            res.1@ == seq![
                GlCommand::BindBuffer { target: BufferTarget::ElementArray, buffer: id },
                GlCommand::BufferData {
                    target: BufferTarget::ElementArray,
                    size: (data@.len() * size_of::<T>()) as isize,
                    usage,
                },
            ],
    {
        let cmds = upload(BufferTarget::ElementArray, id, data, usage);
        (ElementBuffer { id }, cmds)
    }

    /// The OpenGL name of this buffer; never 0.
    pub fn id(&self) -> (id: u32)
        ensures
            id == self.spec_id(),
            id != 0,
    {
        proof {
            use_type_invariant(self);
        }
        self.id
    }
}

/// A vertex array that owns one vertex buffer and one element buffer.
pub struct VertexArray {
    id: u32,
    vbo: VertexBuffer,
    ebo: ElementBuffer,
}

impl VertexArray {
    #[verifier::type_invariant]
    spec fn id_is_valid(self) -> bool {
        self.id != 0
    }

    /// The OpenGL name of this vertex array.
    pub closed spec fn spec_id(self) -> u32 {
        self.id
    }

    /// The vertex buffer this array binds.
    pub closed spec fn spec_vbo(self) -> VertexBuffer {
        self.vbo
    }

    /// The element buffer this array binds.
    pub closed spec fn spec_ebo(self) -> ElementBuffer {
        self.ebo
    }

    /// Takes the name `id` generated for the vertex array and the two buffers
    /// it takes over, and plans binding the array, then the vertex buffer to
    /// the array target and the element buffer to the element array target.
    pub fn new(id: u32, vbo: VertexBuffer, ebo: ElementBuffer) -> (res: (VertexArray, Vec<GlCommand>))
        requires
            id != 0,
        ensures
            res.0.spec_id() == id,
            res.0.spec_vbo() == vbo,
            res.0.spec_ebo() == ebo,
            res.1@ == vertex_array_commands(id, vbo.spec_id(), ebo.spec_id()),
            res.1@ == seq![
                GlCommand::BindVertexArray { array: id },
                GlCommand::BindBuffer { target: BufferTarget::Array, buffer: vbo.spec_id() },
                GlCommand::BindBuffer { target: BufferTarget::ElementArray, buffer: ebo.spec_id() },
            ],
    {
        let mut cmds: Vec<GlCommand> = Vec::new();
        cmds.push(GlCommand::BindVertexArray { array: id });
        cmds.push(GlCommand::BindBuffer { target: BufferTarget::Array, buffer: vbo.id() });
        cmds.push(GlCommand::BindBuffer { target: BufferTarget::ElementArray, buffer: ebo.id() });
        (VertexArray { id, vbo, ebo }, cmds)
    }

    /// The OpenGL name of this vertex array; never 0.
    pub fn id(&self) -> (id: u32)
        ensures
            id == self.spec_id(),
            id != 0,
    {
        proof {
            use_type_invariant(self);
        }
        self.id
    }

    /// The vertex buffer this array binds.
    pub fn vbo(&self) -> (b: &VertexBuffer)
        ensures
            *b == self.spec_vbo(),
    {
        &self.vbo
    }

    /// The element buffer this array binds.
    pub fn ebo(&self) -> (b: &ElementBuffer)
        ensures
            *b == self.spec_ebo(),
    {
        &self.ebo
    }
}

} // verus!
