//! The OpenGL commands that the library plans. Each names its objects by the
//! ids OpenGL handed out; the application issues them in order.
use vstd::prelude::*;

use crate::data::UsageType;

verus! {

/// The binding point a buffer object is bound to.
#[derive(Clone, Copy, Debug, PartialEq, Eq, Structural)]
pub enum BufferTarget {
    /// Vertex attribute data (`GL_ARRAY_BUFFER`).
    Array,
    /// Vertex indices (`GL_ELEMENT_ARRAY_BUFFER`).
    ElementArray,
}

impl BufferTarget {
    /// The OpenGL enumerant for this binding point.
    pub fn gl_value(self) -> (v: u32)
        ensures
            v == match self {
                BufferTarget::Array => 0x8892u32,
                BufferTarget::ElementArray => 0x8893u32,
            },
    {
        match self {
            BufferTarget::Array => 0x8892,  // GL_ARRAY_BUFFER
            BufferTarget::ElementArray => 0x8893,  // GL_ELEMENT_ARRAY_BUFFER
        }
    }
}

/// The value handed to an integer uniform setter, with its arity.
#[derive(Clone, Copy, Debug, PartialEq, Eq, Structural)]
pub enum UniformValue {
    U32x1(u32),
    I32x1(i32),
    U32x2(u32, u32),
    I32x2(i32, i32),
    U32x3(u32, u32, u32),
    I32x3(i32, i32, i32),
    U32x4(u32, u32, u32, u32),
    I32x4(i32, i32, i32, i32),
}

/// One OpenGL call, with the arguments the library decided on.
#[derive(Clone, Copy, Debug, PartialEq, Eq, Structural)]
pub enum GlCommand {
    /// `glBindBuffer(target, buffer)`.
    BindBuffer { target: BufferTarget, buffer: u32 },
    /// `glBufferData(target, size, data, usage)`: uploads `size` bytes from the
    /// slice the buffer was created from.
    BufferData { target: BufferTarget, size: isize, usage: UsageType },
    /// `glBindVertexArray(array)`.
    BindVertexArray { array: u32 },
    /// `glAttachShader(program, shader)`.
    AttachShader { program: u32, shader: u32 },
    /// `glLinkProgram(program)`.
    LinkProgram { program: u32 },
    /// `glDeleteShader(shader)`.
    DeleteShader { shader: u32 },
    /// `glUseProgram(program)`.
    UseProgram { program: u32 },
    /// `glDeleteProgram(program)`.
    DeleteProgram { program: u32 },
    /// `glUniform{1,2,3,4}{ui,i}(location, ..)`.
    Uniform { location: i32, value: UniformValue },
}

} // verus!
