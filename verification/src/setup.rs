//! Setting a renderer up.
//!
//! Setup compiles two shaders, links them into a program, creates a vertex
//! array, uploads the vertex data if there is any, and points each attribute
//! at its place in that data. Several of these calls answer with a value
//! that later calls need: the name of a new object, or the location of an
//! attribute. So setup proceeds in rounds. Each round hands out the calls
//! to perform, the last of which answers with a value, and is resumed with
//! that value:
//!
//! * [`Setup::begin`] opens the first round;
//! * [`Progress::Name`] asks for the name that its last call answered with,
//!   for [`Setup::resume`];
//! * [`Progress::Location`] asks for the location that its last call
//!   answered with, for [`Layout::resume`];
//! * [`Progress::Ready`] carries the last calls and the renderer.
//!
//! [`setup_calls`] says what all rounds together issue.

use crate::buffer::{byte_units, layout_fits, AttribView, BufferData, BufferDataView, InputView};
use crate::call::{
    views, Answer, GlCall, GlCallView, ARRAY_BUFFER, FLOAT, FRAGMENT_SHADER, STATIC_DRAW,
    VERTEX_SHADER,
};
use crate::renderer::{Renderer, RendererView};
use vstd::prelude::*;

verus! {

/// The source text of the two shaders.
#[derive(Debug, Clone, PartialEq, Eq)]
pub struct Shaders {
    pub vertex: String,
    pub fragment: String,
}

/// The two sources as text.
#[verifier::ext_equal]
pub struct ShadersView {
    pub vertex: Seq<char>,
    pub fragment: Seq<char>,
}

impl View for Shaders {
    type V = ShadersView;

    open spec fn view(&self) -> ShadersView {
        ShadersView { vertex: self.vertex@, fragment: self.fragment@ }
    }
}

/// Which object's name setup is waiting for, and the names it already holds.
#[derive(Debug, Clone, Copy, PartialEq, Eq)]
pub enum Stage {
    VertexShader,
    FragmentShader { vertex: u32 },
    Program { vertex: u32, fragment: u32 },
    VertexArray { program: u32 },
    Buffer { program: u32, vao: u32 },
}

/// Setup while it creates objects: it waits for a name.
#[derive(Debug)]
pub struct Setup {
    shaders: Shaders,
    data: BufferData,
    callback: bool,
    stage: Stage,
}

/// What a [`Setup`] holds: what it was begun with, and its stage.
#[verifier::ext_equal]
pub struct SetupView {
    pub shaders: ShadersView,
    pub data: BufferDataView,
    pub callback: bool,
    pub stage: Stage,
}

/// Setup while it lays out the named attributes: it waits for the location
/// of attribute `next`.
#[derive(Debug)]
pub struct Layout {
    data: BufferData,
    renderer: Renderer,
    next: usize,
}

/// What a [`Layout`] holds: the data, the renderer in the making, and the
/// position of the attribute whose location it waits for.
#[verifier::ext_equal]
pub struct LayoutView {
    pub data: BufferDataView,
    pub renderer: RendererView,
    pub next: nat,
}

/// One round of setup: the calls to perform now, in order, and what comes
/// after them.
#[derive(Debug)]
pub enum Progress {
    /// The last call answers with an object's name.
    Name(Setup, Vec<GlCall>),
    /// The last call answers with an attribute's location.
    Location(Layout, Vec<GlCall>),
    /// Setup is over once the calls are performed.
    Ready(Renderer, Vec<GlCall>),
}

/// What a [`Progress`] says.
#[verifier::ext_equal]
pub enum ProgressView {
    Name(SetupView, Seq<GlCallView>),
    Location(LayoutView, Seq<GlCallView>),
    Ready(RendererView, Seq<GlCallView>),
}

impl View for Progress {
    type V = ProgressView;

    open spec fn view(&self) -> ProgressView {
        match *self {
            Progress::Name(setup, calls) => ProgressView::Name(setup@, views(calls@)),
            Progress::Location(layout, calls) => ProgressView::Location(layout@, views(calls@)),
            Progress::Ready(renderer, calls) => ProgressView::Ready(renderer@, views(calls@)),
        }
    }
}

/// Gives a shader its source and compiles it.
pub open spec fn compile_calls(shader: u32, source: Seq<char>) -> Seq<GlCallView> {
    seq![GlCallView::ShaderSource { shader, source }, GlCallView::CompileShader { shader }]
}

/// Links the two shaders into `program`, makes it current, and deletes the
/// shaders.
pub open spec fn link_calls(program: u32, vertex: u32, fragment: u32) -> Seq<GlCallView> {
    seq![
        GlCallView::AttachShader { program, shader: vertex },
        GlCallView::AttachShader { program, shader: fragment },
        GlCallView::LinkProgram { program },
        GlCallView::UseProgram { program },
        GlCallView::DeleteShader { shader: vertex },
        GlCallView::DeleteShader { shader: fragment },
    ]
}

/// Binds `buffer` and fills it with the vertex floats, four bytes each, as
/// static draw data.
pub open spec fn upload_calls(buffer: u32, vertices: Option<Seq<u32>>) -> Seq<GlCallView> {
    seq![GlCallView::BindBuffer { target: ARRAY_BUFFER, buffer }] + (match vertices {
        Some(data) => seq![
            GlCallView::BufferData {
                target: ARRAY_BUFFER,
                size: byte_units(data.len() as int),
                data,
                usage: STATIC_DRAW,
            },
        ],
        None => seq![],
    })
}

/// The attribute index that stands for a location as GL reported it: the
/// location's 32 bits read as unsigned. The location -1 of an unknown name
/// becomes `0xFFFF_FFFF`, an index that GL rejects without effect.
pub open spec fn location_index(location: i32) -> u32 {
    if location >= 0 {
        location as u32
    } else {
        (location + 0x1_0000_0000) as u32
    }
}

/// Points attribute `index` at `size` floats per vertex, `stride` floats
/// apart and `offset` floats into the bound buffer, and enables it.
pub open spec fn pointer_calls(index: u32, size: i32, stride: i32, offset: usize) -> Seq<
    GlCallView,
> {
    seq![
        GlCallView::VertexAttribPointer {
            index,
            components: size,
            kind: FLOAT,
            normalized: false,
            stride: byte_units(stride as int),
            offset: byte_units(offset as int),
        },
        GlCallView::EnableVertexAttribArray { index },
    ]
}

/// Three calls for each named attribute, in order: the lookup of its name
/// in `program`, then the two of [`pointer_calls`] at the index that stands
/// for the location reported.
pub open spec fn attribs_calls(program: u32, attribs: Seq<AttribView>, locations: Seq<i32>) -> Seq<
    GlCallView,
>
    recommends
        locations.len() == attribs.len(),
{
    Seq::new(
        3 * attribs.len(),
        |k: int|
            {
                let attrib = attribs[k / 3];
                let pointer = pointer_calls(
                    location_index(locations[k / 3]),
                    attrib.size,
                    attrib.stride,
                    attrib.offset,
                );
                if k % 3 == 0 {
                    GlCallView::GetAttribLocation { program, name: attrib.name }
                } else {
                    pointer[k % 3 - 1]
                }
            },
    )
}

/// The two calls of [`pointer_calls`] for each indexed input, in order.
pub open spec fn inputs_calls(inputs: Seq<InputView>) -> Seq<GlCallView> {
    Seq::new(
        2 * inputs.len(),
        |k: int|
            {
                let input = inputs[k / 2];
                pointer_calls(input.index, input.size, input.stride, input.offset)[k % 2]
            },
    )
}

/// Goes on with the named attributes from `next`, after `calls`: asks for
/// the location of attribute `next`, or, when none is left, lays out the
/// indexed inputs and is ready.
pub open spec fn laid_out(
    data: BufferDataView,
    renderer: RendererView,
    next: nat,
    calls: Seq<GlCallView>,
) -> ProgressView {
    if next < data.attribs.len() {
        ProgressView::Location(
            LayoutView { data, renderer, next },
            calls.push(
                GlCallView::GetAttribLocation {
                    program: renderer.program,
                    name: data.attribs[next as int].name,
                },
            ),
        )
    } else {
        ProgressView::Ready(renderer, calls + inputs_calls(data.inputs))
    }
}

impl SetupView {
    /// The first round: create the vertex shader.
    pub open spec fn begun(shaders: ShadersView, data: BufferDataView, callback: bool)
        -> ProgressView {
        ProgressView::Name(
            SetupView { shaders, data, callback, stage: Stage::VertexShader },
            seq![GlCallView::CreateShader { kind: VERTEX_SHADER }],
        )
    }

    /// The round that follows when the awaited object is called `name`.
    pub open spec fn resumed(self, name: u32) -> ProgressView {
        match self.stage {
            Stage::VertexShader => ProgressView::Name(
                SetupView { stage: Stage::FragmentShader { vertex: name }, ..self },
                compile_calls(name, self.shaders.vertex).push(
                    GlCallView::CreateShader { kind: FRAGMENT_SHADER },
                ),
            ),
            Stage::FragmentShader { vertex } => ProgressView::Name(
                SetupView { stage: Stage::Program { vertex, fragment: name }, ..self },
                compile_calls(name, self.shaders.fragment).push(GlCallView::CreateProgram),
            ),
            Stage::Program { vertex, fragment } => ProgressView::Name(
                SetupView { stage: Stage::VertexArray { program: name }, ..self },
                link_calls(name, vertex, fragment).push(GlCallView::GenVertexArray),
            ),
            Stage::VertexArray { program } => if self.data.vertices is Some {
                ProgressView::Name(
                    SetupView { stage: Stage::Buffer { program, vao: name }, ..self },
                    seq![GlCallView::BindVertexArray { array: name }, GlCallView::GenBuffer],
                )
            } else {
                laid_out(
                    self.data,
                    RendererView { program, vao: name, vbo: None, callback: self.callback },
                    0,
                    seq![GlCallView::BindVertexArray { array: name }],
                )
            },
            Stage::Buffer { program, vao } => laid_out(
                self.data,
                RendererView { program, vao, vbo: Some(name), callback: self.callback },
                0,
                upload_calls(name, self.data.vertices),
            ),
        }
    }
}

impl LayoutView {
    /// The round that follows when the awaited attribute is at `location`.
    pub open spec fn resumed(self, location: i32) -> ProgressView {
        let attrib = self.data.attribs[self.next as int];
        laid_out(
            self.data,
            self.renderer,
            self.next + 1,
            pointer_calls(location_index(location), attrib.size, attrib.stride, attrib.offset),
        )
    }
}

/// What GL answers in the course of one setup: the name of each object it
/// creates (`vbo` only where there are vertices) and the location of each
/// named attribute.
pub struct Names {
    pub vertex: u32,
    pub fragment: u32,
    pub program: u32,
    pub vao: u32,
    pub vbo: u32,
    pub locations: Seq<i32>,
}

/// The answers in the order in which setup asks for them.
pub open spec fn answers(data: BufferDataView, names: Names) -> Seq<Answer> {
    seq![
        Answer::Name(names.vertex),
        Answer::Name(names.fragment),
        Answer::Name(names.program),
        Answer::Name(names.vao),
    ] + (if data.vertices is Some {
        seq![Answer::Name(names.vbo)]
    } else {
        seq![]
    }) + names.locations.map_values(|location: i32| Answer::Location(location))
}

/// The renderer that setup ends with.
pub open spec fn renderer_of(data: BufferDataView, names: Names, callback: bool) -> RendererView {
    RendererView {
        program: names.program,
        vao: names.vao,
        vbo: if data.vertices is Some {
            Some(names.vbo)
        } else {
            None
        },
        callback,
    }
}

/// Every call of one setup, in order: compile the vertex shader, then the
/// fragment shader; link them and delete them; create and bind the vertex
/// array; create and fill the buffer if there are vertices; lay out the
/// named attributes, then the indexed inputs.
pub open spec fn setup_calls(shaders: ShadersView, data: BufferDataView, names: Names) -> Seq<
    GlCallView,
> {
    seq![GlCallView::CreateShader { kind: VERTEX_SHADER }] + compile_calls(
        names.vertex,
        shaders.vertex,
    ) + seq![GlCallView::CreateShader { kind: FRAGMENT_SHADER }] + compile_calls(
        names.fragment,
        shaders.fragment,
    ) + seq![GlCallView::CreateProgram] + link_calls(names.program, names.vertex, names.fragment)
        + seq![GlCallView::GenVertexArray, GlCallView::BindVertexArray { array: names.vao }] + (
    if data.vertices is Some {
        seq![GlCallView::GenBuffer] + upload_calls(names.vbo, data.vertices)
    } else {
        seq![]
    }) + attribs_calls(names.program, data.attribs, names.locations) + inputs_calls(data.inputs)
}

/// Plays the rounds from `progress` on, each answered by the next of
/// `answers` from position `at`: the renderer at the end and all calls
/// handed out on the way. `None` where an answer is missing, is of the wrong
/// kind, or is left over.
pub open spec fn run(progress: ProgressView, answers: Seq<Answer>, at: nat) -> Option<
    (RendererView, Seq<GlCallView>),
>
    decreases answers.len() - at,
{
    match progress {
        ProgressView::Ready(renderer, calls) => if at == answers.len() {
            Some((renderer, calls))
        } else {
            None
        },
        ProgressView::Name(setup, calls) => if at < answers.len() {
            match answers[at as int] {
                Answer::Name(name) => match run(setup.resumed(name), answers, at + 1) {
                    Some((renderer, rest)) => Some((renderer, calls + rest)),
                    None => None,
                },
                Answer::Location(_) => None,
            }
        } else {
            None
        },
        ProgressView::Location(layout, calls) => if at < answers.len() {
            match answers[at as int] {
                Answer::Location(location) => match run(
                    layout.resumed(location),
                    answers,
                    at + 1,
                ) {
                    Some((renderer, rest)) => Some((renderer, calls + rest)),
                    None => None,
                },
                Answer::Name(_) => None,
            }
        } else {
            None
        },
    }
}

impl View for Setup {
    type V = SetupView;

    closed spec fn view(&self) -> SetupView {
        SetupView {
            shaders: self.shaders@,
            data: self.data@,
            callback: self.callback,
            stage: self.stage,
        }
    }
}

impl View for Layout {
    type V = LayoutView;

    closed spec fn view(&self) -> LayoutView {
        LayoutView { data: self.data@, renderer: self.renderer@, next: self.next as nat }
    }
}

/// The attribute index that stands for `location`.
fn index_of(location: i32) -> (index: u32)
    ensures
        index == location_index(location),
{
    if location >= 0 {
        location as u32
    } else {
        (location as i64 + 0x1_0000_0000) as u32
    }
}

/// Appends the two calls that point attribute `index` into the buffer.
fn push_pointer(calls: &mut Vec<GlCall>, index: u32, size: i32, stride: i32, offset: usize)
    requires
        layout_fits(stride, offset),
    ensures
        views(final(calls)@) == views(old(calls)@) + pointer_calls(index, size, stride, offset),
{
    calls.push(
        GlCall::VertexAttribPointer {
            index,
            components: size,
            kind: FLOAT,
            normalized: false,
            stride: stride * 4,
            offset: offset * 4,
        },
    );
    calls.push(GlCall::EnableVertexAttribArray { index });
}

/// Goes on with the named attributes from `next`, after `calls`.
fn lay_out(data: BufferData, renderer: Renderer, next: usize, calls: Vec<GlCall>) -> (out:
    Progress)
    requires
        data@.fits(),
        next <= data.attribs.len(),
    ensures
        out@ == laid_out(data@, renderer@, next as nat, views(calls@)),
{
    let mut calls = calls;
    if next < data.attribs.len() {
        calls.push(
            GlCall::GetAttribLocation {
                program: renderer.program(),
                name: data.attribs[next].0.clone(),
            },
        );
        Progress::Location(Layout { data, renderer, next }, calls)
    } else {
        let ghost before = views(calls@);
        let mut i: usize = 0;
        while i < data.inputs.len()
            invariant
                data@.fits(),
                i <= data.inputs.len(),
                views(calls@) == before + inputs_calls(data@.inputs.take(i as int)),
            decreases data.inputs.len() - i,
        {
            let input = &data.inputs[i];
            assert(data@.inputs[i as int].fits());
            push_pointer(&mut calls, input.0, input.1, input.2, input.3);
            assert(inputs_calls(data@.inputs.take(i + 1)) == inputs_calls(
                data@.inputs.take(i as int),
            ) + pointer_calls(input.0, input.1, input.2, input.3));
            i += 1;
        }
        assert(data@.inputs.take(i as int) == data@.inputs);
        Progress::Ready(renderer, calls)
    }
}

impl Setup {
    #[verifier::type_invariant]
    spec fn scales(self) -> bool {
        self.data@.fits()
    }

    /// Opens setup of a renderer for `data`, drawn with the two `shaders`,
    /// that runs a per-frame callback if `callback` is set.
    ///
    /// The data must satisfy [`BufferData::fits`].
    pub fn begin(shaders: Shaders, data: BufferData, callback: bool) -> (out: Progress)
        requires
            data@.fits(),
        ensures
            out@ == SetupView::begun(shaders@, data@, callback),
    {
        let mut calls: Vec<GlCall> = Vec::new();
        calls.push(GlCall::CreateShader { kind: VERTEX_SHADER });
        Progress::Name(Setup { shaders, data, callback, stage: Stage::VertexShader }, calls)
    }

    /// Goes on with `name`, the name that the last call of the round before
    /// answered with.
    pub fn resume(self, name: u32) -> (out: Progress)
        ensures
            out@ == self@.resumed(name),
    {
        proof {
            use_type_invariant(&self);
        }
        let Setup { shaders, data, callback, stage } = self;
        let mut calls: Vec<GlCall> = Vec::new();
        match stage {
            Stage::VertexShader => {
                calls.push(GlCall::ShaderSource { shader: name, source: shaders.vertex.clone() });
                calls.push(GlCall::CompileShader { shader: name });
                calls.push(GlCall::CreateShader { kind: FRAGMENT_SHADER });
                let stage = Stage::FragmentShader { vertex: name };
                Progress::Name(Setup { shaders, data, callback, stage }, calls)
            },
            Stage::FragmentShader { vertex } => {
                calls.push(
                    GlCall::ShaderSource { shader: name, source: shaders.fragment.clone() },
                );
                calls.push(GlCall::CompileShader { shader: name });
                calls.push(GlCall::CreateProgram);
                let stage = Stage::Program { vertex, fragment: name };
                Progress::Name(Setup { shaders, data, callback, stage }, calls)
            },
            Stage::Program { vertex, fragment } => {
                calls.push(GlCall::AttachShader { program: name, shader: vertex });
                calls.push(GlCall::AttachShader { program: name, shader: fragment });
                calls.push(GlCall::LinkProgram { program: name });
                calls.push(GlCall::UseProgram { program: name });
                calls.push(GlCall::DeleteShader { shader: vertex });
                calls.push(GlCall::DeleteShader { shader: fragment });
                calls.push(GlCall::GenVertexArray);
                let stage = Stage::VertexArray { program: name };
                Progress::Name(Setup { shaders, data, callback, stage }, calls)
            },
            Stage::VertexArray { program } => {
                calls.push(GlCall::BindVertexArray { array: name });
                if data.vertices.is_some() {
                    calls.push(GlCall::GenBuffer);
                    let stage = Stage::Buffer { program, vao: name };
                    Progress::Name(Setup { shaders, data, callback, stage }, calls)
                } else {
                    lay_out(data, Renderer::assemble(program, name, None, callback), 0, calls)
                }
            },
            Stage::Buffer { program, vao } => {
                calls.push(GlCall::BindBuffer { target: ARRAY_BUFFER, buffer: name });
                if let Some(vertices) = &data.vertices {
                    calls.push(
                        GlCall::BufferData {
                            target: ARRAY_BUFFER,
                            size: (vertices.len() * 4) as isize,
                            data: vertices.clone(),
                            usage: STATIC_DRAW,
                        },
                    );
                }
                lay_out(data, Renderer::assemble(program, vao, Some(name), callback), 0, calls)
            },
        }
    }
}

impl Layout {
    #[verifier::type_invariant]
    spec fn in_bounds(self) -> bool {
        &&& self.data@.fits()
        &&& self.next < self.data.attribs.len()
    }

    /// Goes on with `location`, the location that the last call of the
    /// round before answered with.
    pub fn resume(self, location: i32) -> (out: Progress)
        ensures
            out@ == self@.resumed(location),
    {
        proof {
            use_type_invariant(&self);
        }
        let Layout { data, renderer, next } = self;
        let size: i32 = data.attribs[next].1;
        let stride: i32 = data.attribs[next].2;
        let offset: usize = data.attribs[next].3;
        assert(data@.attribs[next as int].fits());
        let mut calls: Vec<GlCall> = Vec::new();
        push_pointer(&mut calls, index_of(location), size, stride, offset);
        lay_out(data, renderer, next + 1, calls)
    }
}

} // verus!
