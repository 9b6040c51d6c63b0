//! The OpenGL calls a renderer issues, as plain values.
//!
//! Nothing here talks to a GL context. A [`GlCall`] names one entry point
//! together with its arguments; whoever owns the context performs the call
//! and hands back what it returned. Floats travel as their IEEE-754
//! single-precision bit patterns, text as it was given (the performer turns
//! it into a C string).

use vstd::prelude::*;

verus! {

/// `GL_TRIANGLES`.
pub const TRIANGLES: u32 = 0x0004;

/// `GL_FLOAT`.
pub const FLOAT: u32 = 0x1406;

/// `GL_COLOR_BUFFER_BIT`.
pub const COLOR_BUFFER_BIT: u32 = 0x4000;

/// `GL_ARRAY_BUFFER`.
pub const ARRAY_BUFFER: u32 = 0x8892;

/// `GL_STATIC_DRAW`.
pub const STATIC_DRAW: u32 = 0x88E4;

/// `GL_FRAGMENT_SHADER`.
pub const FRAGMENT_SHADER: u32 = 0x8B30;

/// `GL_VERTEX_SHADER`.
pub const VERTEX_SHADER: u32 = 0x8B31;

/// One OpenGL call with its arguments.
///
/// The calls marked "answers with" return a value that the renderer needs
/// before it can go on; all others return nothing.
#[derive(Debug, Clone, PartialEq, Eq)]
pub enum GlCall {
    /// `glCreateShader(kind)`; answers with the new shader's name.
    CreateShader { kind: u32 },
    /// `glShaderSource(shader, 1, &source, NULL)`.
    ShaderSource { shader: u32, source: String },
    /// `glCompileShader(shader)`.
    CompileShader { shader: u32 },
    /// `glCreateProgram()`; answers with the new program's name.
    CreateProgram,
    /// `glAttachShader(program, shader)`.
    AttachShader { program: u32, shader: u32 },
    /// `glLinkProgram(program)`.
    LinkProgram { program: u32 },
    /// `glUseProgram(program)`.
    UseProgram { program: u32 },
    /// `glDeleteShader(shader)`.
    DeleteShader { shader: u32 },
    /// `glGenVertexArrays(1, &name)`; answers with the name.
    GenVertexArray,
    /// `glBindVertexArray(array)`.
    BindVertexArray { array: u32 },
    /// `glGenBuffers(1, &name)`; answers with the name.
    GenBuffer,
    /// `glBindBuffer(target, buffer)`.
    BindBuffer { target: u32, buffer: u32 },
    /// `glBufferData(target, size, data, usage)`, `size` in bytes and `data`
    /// as 32-bit words.
    BufferData { target: u32, size: isize, data: Vec<u32>, usage: u32 },
    /// `glGetAttribLocation(program, name)`; answers with the location,
    /// which is -1 where the program has no such attribute.
    GetAttribLocation { program: u32, name: String },
    /// `glVertexAttribPointer(index, components, kind, normalized, stride, offset)`,
    /// `stride` and `offset` in bytes.
    VertexAttribPointer {
        index: u32,
        components: i32,
        kind: u32,
        normalized: bool,
        stride: i32,
        offset: usize,
    },
    /// `glEnableVertexAttribArray(index)`.
    EnableVertexAttribArray { index: u32 },
    /// `glGetUniformLocation(program, name)`; answers with the location,
    /// which is -1 where the program has no such uniform.
    GetUniformLocation { program: u32, name: String },
    /// `glUniform4f(location, v0, v1, v2, v3)`, the four floats as bit patterns.
    Uniform4f { location: i32, v0: u32, v1: u32, v2: u32, v3: u32 },
    /// `glClearColor(red, green, blue, alpha)`, the four floats as bit
    /// patterns.
    ClearColor { red: u32, green: u32, blue: u32, alpha: u32 },
    /// `glClear(mask)`.
    Clear { mask: u32 },
    /// `glDrawArrays(mode, first, count)`.
    DrawArrays { mode: u32, first: i32, count: i32 },
    /// `glViewport(x, y, width, height)`.
    Viewport { x: i32, y: i32, width: i32, height: i32 },
    /// `glDeleteProgram(program)`.
    DeleteProgram { program: u32 },
    /// `glDeleteBuffers(1, &buffer)`.
    DeleteBuffer { buffer: u32 },
    /// `glDeleteVertexArrays(1, &array)`.
    DeleteVertexArray { array: u32 },
}

/// What a [`GlCall`] says, as a mathematical value: text and payload as
/// sequences, byte counts as unbounded integers.
#[verifier::ext_equal]
pub enum GlCallView {
    CreateShader { kind: u32 },
    ShaderSource { shader: u32, source: Seq<char> },
    CompileShader { shader: u32 },
    CreateProgram,
    AttachShader { program: u32, shader: u32 },
    LinkProgram { program: u32 },
    UseProgram { program: u32 },
    DeleteShader { shader: u32 },
    GenVertexArray,
    BindVertexArray { array: u32 },
    GenBuffer,
    BindBuffer { target: u32, buffer: u32 },
    BufferData { target: u32, size: int, data: Seq<u32>, usage: u32 },
    GetAttribLocation { program: u32, name: Seq<char> },
    VertexAttribPointer {
        index: u32,
        components: i32,
        kind: u32,
        normalized: bool,
        stride: int,
        offset: int,
    },
    EnableVertexAttribArray { index: u32 },
    GetUniformLocation { program: u32, name: Seq<char> },
    Uniform4f { location: i32, v0: u32, v1: u32, v2: u32, v3: u32 },
    ClearColor { red: u32, green: u32, blue: u32, alpha: u32 },
    Clear { mask: u32 },
    DrawArrays { mode: u32, first: i32, count: i32 },
    Viewport { x: i32, y: i32, width: i32, height: i32 },
    DeleteProgram { program: u32 },
    DeleteBuffer { buffer: u32 },
    DeleteVertexArray { array: u32 },
}

impl View for GlCall {
    type V = GlCallView;

    open spec fn view(&self) -> GlCallView {
        match *self {
            GlCall::CreateShader { kind } => GlCallView::CreateShader { kind },
            GlCall::ShaderSource { shader, source } => GlCallView::ShaderSource {
                shader,
                source: source@,
            },
            GlCall::CompileShader { shader } => GlCallView::CompileShader { shader },
            GlCall::CreateProgram => GlCallView::CreateProgram,
            GlCall::AttachShader { program, shader } => GlCallView::AttachShader {
                program,
                shader,
            },
            GlCall::LinkProgram { program } => GlCallView::LinkProgram { program },
            GlCall::UseProgram { program } => GlCallView::UseProgram { program },
            GlCall::DeleteShader { shader } => GlCallView::DeleteShader { shader },
            GlCall::GenVertexArray => GlCallView::GenVertexArray,
            GlCall::BindVertexArray { array } => GlCallView::BindVertexArray { array },
            GlCall::GenBuffer => GlCallView::GenBuffer,
            GlCall::BindBuffer { target, buffer } => GlCallView::BindBuffer { target, buffer },
            GlCall::BufferData { target, size, data, usage } => GlCallView::BufferData {
                target,
                size: size as int,
                data: data@,
                usage,
            },
            GlCall::GetAttribLocation { program, name } => GlCallView::GetAttribLocation {
                program,
                name: name@,
            },
            GlCall::VertexAttribPointer {
                index,
                components,
                kind,
                normalized,
                stride,
                offset,
            } => GlCallView::VertexAttribPointer {
                index,
                components,
                kind,
                normalized,
                stride: stride as int,
                offset: offset as int,
            },
            GlCall::EnableVertexAttribArray { index } => GlCallView::EnableVertexAttribArray {
                index,
            },
            GlCall::GetUniformLocation { program, name } => GlCallView::GetUniformLocation {
                program,
                name: name@,
            },
            GlCall::Uniform4f { location, v0, v1, v2, v3 } => GlCallView::Uniform4f {
                location,
                v0,
                v1,
                v2,
                v3,
            },
            GlCall::ClearColor { red, green, blue, alpha } => GlCallView::ClearColor {
                red,
                green,
                blue,
                alpha,
            },
            GlCall::Clear { mask } => GlCallView::Clear { mask },
            GlCall::DrawArrays { mode, first, count } => GlCallView::DrawArrays {
                mode,
                first,
                count,
            },
            GlCall::Viewport { x, y, width, height } => GlCallView::Viewport {
                x,
                y,
                width,
                height,
            },
            GlCall::DeleteProgram { program } => GlCallView::DeleteProgram { program },
            GlCall::DeleteBuffer { buffer } => GlCallView::DeleteBuffer { buffer },
            GlCall::DeleteVertexArray { array } => GlCallView::DeleteVertexArray { array },
        }
    }
}

/// The value that a call answered with.
#[derive(Debug, Clone, Copy, PartialEq, Eq)]
pub enum Answer {
    /// The name of a new object.
    Name(u32),
    /// The location of an attribute or a uniform, -1 for a name that the
    /// program does not have.
    Location(i32),
}

/// The kinds of value that a call can answer with.
pub enum AnswerKind {
    Name,
    Location,
}

/// The kinds of object that a renderer creates and deletes.
pub enum ObjectKind {
    Shader,
    Program,
    VertexArray,
    Buffer,
}

/// What a call does to the objects of a context.
pub enum Effect {
    /// It creates an object of this kind.
    Made(ObjectKind),
    /// It deletes the object of this kind and name.
    Gone(ObjectKind, u32),
}

impl Effect {
    /// By how much the effect changes the number of objects of `kind`.
    pub open spec fn change(self, kind: ObjectKind) -> int {
        match self {
            Effect::Made(made) => if made == kind {
                1
            } else {
                0
            },
            Effect::Gone(gone, _) => if gone == kind {
                -1
            } else {
                0
            },
        }
    }
}

impl GlCallView {
    /// The kind of value that the call answers with, if it answers at all.
    pub open spec fn answer(self) -> Option<AnswerKind> {
        match self {
            GlCallView::CreateShader { .. } => Some(AnswerKind::Name),
            GlCallView::CreateProgram => Some(AnswerKind::Name),
            GlCallView::GenVertexArray => Some(AnswerKind::Name),
            GlCallView::GenBuffer => Some(AnswerKind::Name),
            GlCallView::GetAttribLocation { .. } => Some(AnswerKind::Location),
            GlCallView::GetUniformLocation { .. } => Some(AnswerKind::Location),
            _ => None,
        }
    }

    /// What the call creates or deletes, if anything.
    pub open spec fn effect(self) -> Option<Effect> {
        match self {
            GlCallView::CreateShader { .. } => Some(Effect::Made(ObjectKind::Shader)),
            GlCallView::CreateProgram => Some(Effect::Made(ObjectKind::Program)),
            GlCallView::GenVertexArray => Some(Effect::Made(ObjectKind::VertexArray)),
            GlCallView::GenBuffer => Some(Effect::Made(ObjectKind::Buffer)),
            GlCallView::DeleteShader { shader } => Some(Effect::Gone(ObjectKind::Shader, shader)),
            GlCallView::DeleteProgram { program } => Some(
                Effect::Gone(ObjectKind::Program, program),
            ),
            GlCallView::DeleteVertexArray { array } => Some(
                Effect::Gone(ObjectKind::VertexArray, array),
            ),
            GlCallView::DeleteBuffer { buffer } => Some(Effect::Gone(ObjectKind::Buffer, buffer)),
            _ => None,
        }
    }
}

/// What the calls create and delete, in order.
pub open spec fn ledger(calls: Seq<GlCallView>) -> Seq<Effect> {
    calls.filter_map(|call: GlCallView| call.effect())
}

/// How many more objects of `kind` the effects create than they delete.
pub open spec fn balance(effects: Seq<Effect>, kind: ObjectKind) -> int
    decreases effects.len(),
{
    if effects.len() == 0 {
        0
    } else {
        balance(effects.drop_last(), kind) + effects.last().change(kind)
    }
}

/// How many more objects of `kind` the calls create than they delete.
pub open spec fn surplus(calls: Seq<GlCallView>, kind: ObjectKind) -> int {
    balance(ledger(calls), kind)
}

/// What a list of calls says, call by call.
pub open spec fn views(calls: Seq<GlCall>) -> Seq<GlCallView> {
    calls.map_values(|call: GlCall| call@)
}

} // verus!
