//! The renderer: the GL objects it owns and the calls of each operation.
//!
//! A [`Renderer`] comes out of [`crate::setup`]. It owns one program, one
//! vertex array and at most one buffer, and knows whether a per-frame
//! callback was registered with it. Each operation returns the calls to
//! perform, in order; [`Renderer::release`] consumes the renderer, so its
//! objects are deleted once.

use crate::call::{views, GlCall, GlCallView, ARRAY_BUFFER, COLOR_BUFFER_BIT, TRIANGLES};
use vstd::prelude::*;

verus! {

/// 0.1 as a single-precision bit pattern: the red, green and blue of the
/// default clear colour.
pub const DEFAULT_SHADE: u32 = 0x3DCC_CCCD;

/// 0.9 as a single-precision bit pattern: the alpha of the default clear
/// colour.
pub const DEFAULT_ALPHA: u32 = 0x3F66_6666;

/// One step of a frame: a GL call, or the moment at which the per-frame
/// callback runs.
#[derive(Debug, Clone, PartialEq, Eq)]
pub enum DrawStep {
    Call(GlCall),
    Callback,
}

/// What a [`DrawStep`] says.
#[verifier::ext_equal]
pub enum DrawStepView {
    Call(GlCallView),
    Callback,
}

impl View for DrawStep {
    type V = DrawStepView;

    open spec fn view(&self) -> DrawStepView {
        match *self {
            DrawStep::Call(call) => DrawStepView::Call(call@),
            DrawStep::Callback => DrawStepView::Callback,
        }
    }
}

/// What a list of steps says, step by step.
pub open spec fn step_views(steps: Seq<DrawStep>) -> Seq<DrawStepView> {
    steps.map_values(|step: DrawStep| step@)
}

/// Owns a linked program, a vertex array and, where vertex data was
/// uploaded, the buffer that holds it.
#[derive(Debug)]
pub struct Renderer {
    program: u32,
    vao: u32,
    vbo: Option<u32>,
    callback: bool,
}

/// A renderer's objects by name, and whether it has a per-frame callback.
pub struct RendererView {
    pub program: u32,
    pub vao: u32,
    pub vbo: Option<u32>,
    pub callback: bool,
}

impl View for Renderer {
    type V = RendererView;

    closed spec fn view(&self) -> RendererView {
        RendererView {
            program: self.program,
            vao: self.vao,
            vbo: self.vbo,
            callback: self.callback,
        }
    }
}

impl RendererView {
    /// The steps of one frame cleared to the given colour: bind the
    /// program, run the callback if there is one, bind the vertex array and
    /// the buffer if there is one, clear, and draw one triangle.
    pub open spec fn draw_steps(self, red: u32, green: u32, blue: u32, alpha: u32) -> Seq<
        DrawStepView,
    > {
        seq![DrawStepView::Call(GlCallView::UseProgram { program: self.program })] + (
        if self.callback {
            seq![DrawStepView::Callback]
        } else {
            seq![]
        }) + seq![DrawStepView::Call(GlCallView::BindVertexArray { array: self.vao })] + (
        match self.vbo {
            Some(buffer) => seq![
                DrawStepView::Call(GlCallView::BindBuffer { target: ARRAY_BUFFER, buffer }),
            ],
            None => seq![],
        }) + seq![
            DrawStepView::Call(GlCallView::ClearColor { red, green, blue, alpha }),
            DrawStepView::Call(GlCallView::Clear { mask: COLOR_BUFFER_BIT }),
            DrawStepView::Call(GlCallView::DrawArrays { mode: TRIANGLES, first: 0, count: 3 }),
        ]
    }

    /// The calls that give the renderer's objects back: the program, the
    /// buffer if there is one, the vertex array.
    pub open spec fn release_calls(self) -> Seq<GlCallView> {
        seq![GlCallView::DeleteProgram { program: self.program }] + (match self.vbo {
            Some(buffer) => seq![GlCallView::DeleteBuffer { buffer }],
            None => seq![],
        }) + seq![GlCallView::DeleteVertexArray { array: self.vao }]
    }
}

/// Four floats on their way into a uniform, waiting for the location that
/// the lookup reports.
#[derive(Debug, Clone, Copy, PartialEq, Eq)]
pub struct PendingUniform {
    pub x: u32,
    pub y: u32,
    pub z: u32,
    pub w: u32,
}

impl PendingUniform {
    /// The write at `location`, whatever GL reported: it ignores a write to
    /// -1, the location of a name that the program does not have.
    pub fn resolve(self, location: i32) -> (call: GlCall)
        ensures
            call@ == (GlCallView::Uniform4f {
                location,
                v0: self.x,
                v1: self.y,
                v2: self.z,
                v3: self.w,
            }),
    {
        GlCall::Uniform4f { location, v0: self.x, v1: self.y, v2: self.z, v3: self.w }
    }
}

impl Renderer {
    /// A renderer over objects that setup has created and configured.
    pub(crate) fn assemble(program: u32, vao: u32, vbo: Option<u32>, callback: bool) -> (renderer:
        Renderer)
        ensures
            renderer@ == (RendererView { program, vao, vbo, callback }),
    {
        Renderer { program, vao, vbo, callback }
    }

    /// Sets the four floats of the uniform called `name`: the lookup of
    /// `name` in the renderer's program, made anew on every call, and the
    /// write that follows once its location is known.
    pub fn uniform4f(&self, name: &str, x: u32, y: u32, z: u32, w: u32) -> (out: (
        GlCall,
        PendingUniform,
    ))
        ensures
            out.0@ == (GlCallView::GetUniformLocation { program: self@.program, name: name@ }),
            out.1 == (PendingUniform { x, y, z, w }),
    {
        (
            GlCall::GetUniformLocation { program: self.program, name: name.to_owned() },
            PendingUniform { x, y, z, w },
        )
    }

    /// One frame cleared to the default colour (0.1, 0.1, 0.1, 0.9).
    pub fn draw(&self) -> (steps: Vec<DrawStep>)
        ensures
            step_views(steps@) == self@.draw_steps(
                DEFAULT_SHADE,
                DEFAULT_SHADE,
                DEFAULT_SHADE,
                DEFAULT_ALPHA,
            ),
    {
        self.draw_with_clear_color(DEFAULT_SHADE, DEFAULT_SHADE, DEFAULT_SHADE, DEFAULT_ALPHA)
    }

    /// One frame cleared to the given colour.
    pub fn draw_with_clear_color(&self, red: u32, green: u32, blue: u32, alpha: u32) -> (steps:
        Vec<DrawStep>)
        ensures
            step_views(steps@) == self@.draw_steps(red, green, blue, alpha),
    {
        let mut steps: Vec<DrawStep> = Vec::new();
        steps.push(DrawStep::Call(GlCall::UseProgram { program: self.program }));
        if self.callback {
            steps.push(DrawStep::Callback);
        }
        steps.push(DrawStep::Call(GlCall::BindVertexArray { array: self.vao }));
        if let Some(buffer) = self.vbo {
            steps.push(DrawStep::Call(GlCall::BindBuffer { target: ARRAY_BUFFER, buffer }));
        }
        steps.push(DrawStep::Call(GlCall::ClearColor { red, green, blue, alpha }));
        steps.push(DrawStep::Call(GlCall::Clear { mask: COLOR_BUFFER_BIT }));
        steps.push(DrawStep::Call(GlCall::DrawArrays { mode: TRIANGLES, first: 0, count: 3 }));
        steps
    }

    /// Sets the viewport to `width` by `height` at the origin.
    pub fn resize(&self, width: i32, height: i32) -> (calls: Vec<GlCall>)
        ensures
            views(calls@) == seq![GlCallView::Viewport { x: 0, y: 0, width, height }],
    {
        let mut calls: Vec<GlCall> = Vec::new();
        calls.push(GlCall::Viewport { x: 0, y: 0, width, height });
        calls
    }

    /// Gives the renderer's objects back.
    pub fn release(self) -> (calls: Vec<GlCall>)
        ensures
            views(calls@) == self@.release_calls(),
    {
        let mut calls: Vec<GlCall> = Vec::new();
        calls.push(GlCall::DeleteProgram { program: self.program });
        if let Some(buffer) = self.vbo {
            calls.push(GlCall::DeleteBuffer { buffer });
        }
        calls.push(GlCall::DeleteVertexArray { array: self.vao });
        calls
    }

    /// The program's name.
    pub fn program(&self) -> (name: u32)
        ensures
            name == self@.program,
    {
        self.program
    }

    /// The vertex array's name.
    pub fn vertex_array(&self) -> (name: u32)
        ensures
            name == self@.vao,
    {
        self.vao
    }

    /// The buffer's name, where vertex data was uploaded.
    pub fn buffer(&self) -> (name: Option<u32>)
        ensures
            name == self@.vbo,
    {
        self.vbo
    }

    /// Whether a frame runs a per-frame callback.
    pub fn has_callback(&self) -> (callback: bool)
        ensures
            callback == self@.callback,
    {
        self.callback
    }
}

} // verus!
