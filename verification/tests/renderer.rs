use gl_app::call::{
    Answer, GlCall, ARRAY_BUFFER, COLOR_BUFFER_BIT, FLOAT, FRAGMENT_SHADER, STATIC_DRAW,
    TRIANGLES, VERTEX_SHADER,
};
use gl_app::renderer::{DrawStep, PendingUniform, DEFAULT_ALPHA, DEFAULT_SHADE};
use gl_app::setup::{Progress, Setup, Shaders};
use gl_app::{BufferData, Renderer};

/// Stands in for a GL context: hands out object names from 1 up, knows
/// where the attributes and uniforms of every program are, counts the live
/// objects, and records every call.
struct Context {
    calls: Vec<GlCall>,
    last_name: u32,
    attribs: Vec<(&'static str, i32)>,
    uniforms: Vec<(&'static str, i32)>,
    shaders: i64,
    programs: i64,
    arrays: i64,
    buffers: i64,
    viewport: (i32, i32, i32, i32),
    callbacks: usize,
}

impl Context {
    fn new() -> Context {
        Context {
            calls: Vec::new(),
            last_name: 0,
            attribs: vec![("position", 0), ("color", 1)],
            uniforms: vec![("outColor", 3)],
            shaders: 0,
            programs: 0,
            arrays: 0,
            buffers: 0,
            viewport: (0, 0, 0, 0),
            callbacks: 0,
        }
    }

    fn fresh(&mut self) -> Option<Answer> {
        self.last_name += 1;
        Some(Answer::Name(self.last_name))
    }

    fn find(table: &[(&'static str, i32)], name: &str) -> Option<Answer> {
        for (known, location) in table {
            if *known == name {
                return Some(Answer::Location(*location));
            }
        }
        Some(Answer::Location(-1))
    }

    fn perform(&mut self, call: GlCall) -> Option<Answer> {
        let answer = match &call {
            GlCall::CreateShader { .. } => {
                self.shaders += 1;
                self.fresh()
            }
            GlCall::CreateProgram => {
                self.programs += 1;
                self.fresh()
            }
            GlCall::GenVertexArray => {
                self.arrays += 1;
                self.fresh()
            }
            GlCall::GenBuffer => {
                self.buffers += 1;
                self.fresh()
            }
            GlCall::DeleteShader { .. } => {
                self.shaders -= 1;
                None
            }
            GlCall::DeleteProgram { .. } => {
                self.programs -= 1;
                None
            }
            GlCall::DeleteVertexArray { .. } => {
                self.arrays -= 1;
                None
            }
            GlCall::DeleteBuffer { .. } => {
                self.buffers -= 1;
                None
            }
            GlCall::GetAttribLocation { name, .. } => Context::find(&self.attribs, name),
            GlCall::GetUniformLocation { name, .. } => Context::find(&self.uniforms, name),
            GlCall::Viewport { x, y, width, height } => {
                self.viewport = (*x, *y, *width, *height);
                None
            }
            _ => None,
        };
        self.calls.push(call);
        answer
    }

    /// Performs the calls in order and returns what the last one answered.
    fn perform_all(&mut self, calls: Vec<GlCall>) -> Option<Answer> {
        let mut last = None;
        for call in calls {
            last = self.perform(call);
        }
        last
    }

    fn set_up(&mut self, data: BufferData, callback: bool) -> Renderer {
        assert!(data.fits());
        let mut progress = Setup::begin(shaders(), data, callback);
        loop {
            progress = match progress {
                Progress::Name(setup, calls) => match self.perform_all(calls) {
                    Some(Answer::Name(name)) => setup.resume(name),
                    other => panic!("a name was due, not {:?}", other),
                },
                Progress::Location(layout, calls) => match self.perform_all(calls) {
                    Some(Answer::Location(location)) => layout.resume(location),
                    other => panic!("a location was due, not {:?}", other),
                },
                Progress::Ready(renderer, calls) => {
                    assert_eq!(self.perform_all(calls), None);
                    return renderer;
                }
            };
        }
    }

    fn frame(&mut self, steps: Vec<DrawStep>) {
        for step in steps {
            match step {
                DrawStep::Call(call) => {
                    self.perform(call);
                }
                DrawStep::Callback => self.callbacks += 1,
            }
        }
    }

    fn live(&self) -> (i64, i64, i64, i64) {
        (self.shaders, self.programs, self.arrays, self.buffers)
    }
}

fn shaders() -> Shaders {
    Shaders {
        vertex: "void main() { gl_Position = vec4(0.0); }\0".to_string(),
        fragment: "void main() { }\0".to_string(),
    }
}

fn bits(floats: &[f32]) -> Vec<u32> {
    floats.iter().map(|float| float.to_bits()).collect()
}

fn triangle() -> Vec<u32> {
    bits(&[0.5, -0.5, 0.0, -0.5, -0.5, 0.0, 0.0, 0.5, 0.0])
}

fn pointer(index: u32, size: i32, stride: i32, offset: usize) -> GlCall {
    GlCall::VertexAttribPointer {
        index,
        components: size,
        kind: FLOAT,
        normalized: false,
        stride,
        offset,
    }
}

/// The calls that every setup starts with, for objects named from 1 up.
fn prologue() -> Vec<GlCall> {
    vec![
        GlCall::CreateShader { kind: VERTEX_SHADER },
        GlCall::ShaderSource { shader: 1, source: shaders().vertex },
        GlCall::CompileShader { shader: 1 },
        GlCall::CreateShader { kind: FRAGMENT_SHADER },
        GlCall::ShaderSource { shader: 2, source: shaders().fragment },
        GlCall::CompileShader { shader: 2 },
        GlCall::CreateProgram,
        GlCall::AttachShader { program: 3, shader: 1 },
        GlCall::AttachShader { program: 3, shader: 2 },
        GlCall::LinkProgram { program: 3 },
        GlCall::UseProgram { program: 3 },
        GlCall::DeleteShader { shader: 1 },
        GlCall::DeleteShader { shader: 2 },
        GlCall::GenVertexArray,
        GlCall::BindVertexArray { array: 4 },
    ]
}

#[test]
fn enumerants_are_those_of_opengl() {
    assert_eq!(TRIANGLES, gl::TRIANGLES);
    assert_eq!(FLOAT, gl::FLOAT);
    assert_eq!(COLOR_BUFFER_BIT, gl::COLOR_BUFFER_BIT);
    assert_eq!(ARRAY_BUFFER, gl::ARRAY_BUFFER);
    assert_eq!(STATIC_DRAW, gl::STATIC_DRAW);
    assert_eq!(FRAGMENT_SHADER, gl::FRAGMENT_SHADER);
    assert_eq!(VERTEX_SHADER, gl::VERTEX_SHADER);
}

#[test]
fn default_clear_color_is_dark_grey() {
    assert_eq!(f32::from_bits(DEFAULT_SHADE), 0.1);
    assert_eq!(f32::from_bits(DEFAULT_ALPHA), 0.9);
}

#[test]
fn setup_begins_with_the_vertex_shader() {
    match Setup::begin(shaders(), BufferData::new(), false) {
        Progress::Name(_, calls) => {
            assert_eq!(calls, vec![GlCall::CreateShader { kind: VERTEX_SHADER }]);
        }
        other => panic!("a name was due, not {:?}", other),
    }
}

#[test]
fn setup_of_empty_data_stops_after_the_vertex_array() {
    let mut gl = Context::new();
    let renderer = gl.set_up(BufferData::new(), false);
    assert_eq!(gl.calls, prologue());
    assert_eq!(renderer.program(), 3);
    assert_eq!(renderer.vertex_array(), 4);
    assert_eq!(renderer.buffer(), None);
    assert!(!renderer.has_callback());
}

#[test]
fn setup_uploads_four_bytes_for_each_float() {
    let mut gl = Context::new();
    let renderer = gl.set_up(BufferData::new().with_vertices(triangle()), true);
    let mut expected = prologue();
    expected.push(GlCall::GenBuffer);
    expected.push(GlCall::BindBuffer { target: ARRAY_BUFFER, buffer: 5 });
    expected.push(GlCall::BufferData {
        target: ARRAY_BUFFER,
        size: 36,
        data: triangle(),
        usage: STATIC_DRAW,
    });
    assert_eq!(gl.calls, expected);
    assert_eq!(renderer.buffer(), Some(5));
    assert!(renderer.has_callback());
}

#[test]
fn setup_uploads_nothing_but_the_vertices() {
    for length in [0usize, 1, 9, 15, 1000] {
        let mut gl = Context::new();
        let vertices: Vec<u32> = (0..length as u32).collect();
        gl.set_up(BufferData::new().with_vertices(vertices.clone()), false);
        let uploads: Vec<&GlCall> =
            gl.calls.iter().filter(|call| matches!(call, GlCall::BufferData { .. })).collect();
        assert_eq!(
            uploads,
            vec![&GlCall::BufferData {
                target: ARRAY_BUFFER,
                size: 4 * length as isize,
                data: vertices,
                usage: STATIC_DRAW,
            }]
        );
    }
}

#[test]
fn setup_without_vertices_uploads_nothing() {
    let mut gl = Context::new();
    gl.set_up(BufferData::new().with_attrib("position", 3, 3, 0).with_input(2, 1, 1, 0), false);
    assert!(gl.calls.iter().all(|call| !matches!(
        call,
        GlCall::GenBuffer | GlCall::BindBuffer { .. } | GlCall::BufferData { .. }
    )));
}

#[test]
fn attributes_are_looked_up_by_name_and_scaled_to_bytes() {
    let mut gl = Context::new();
    let data = BufferData::new()
        .with_vertices(vec![0; 15])
        .with_attrib("position", 2, 5, 0)
        .with_attrib("color", 3, 5, 2);
    gl.set_up(data, false);
    assert_eq!(
        gl.calls[18..],
        [
            GlCall::GetAttribLocation { program: 3, name: "position".to_string() },
            pointer(0, 2, 20, 0),
            GlCall::EnableVertexAttribArray { index: 0 },
            GlCall::GetAttribLocation { program: 3, name: "color".to_string() },
            pointer(1, 3, 20, 8),
            GlCall::EnableVertexAttribArray { index: 1 },
        ]
    );
}

#[test]
fn an_unknown_attribute_is_pointed_at_the_invalid_index() {
    let mut gl = Context::new();
    gl.set_up(BufferData::new().with_attrib("missing", 3, 3, 1), false);
    assert_eq!(
        gl.calls[15..],
        [
            GlCall::GetAttribLocation { program: 3, name: "missing".to_string() },
            pointer(0xFFFF_FFFF, 3, 12, 4),
            GlCall::EnableVertexAttribArray { index: 0xFFFF_FFFF },
        ]
    );
}

#[test]
fn a_location_becomes_the_index_with_the_same_bits() {
    for (location, index) in
        [(0, 0u32), (7, 7), (i32::MAX, 0x7FFF_FFFF), (-1, 0xFFFF_FFFF), (i32::MIN, 0x8000_0000)]
    {
        let data = BufferData::new().with_attrib("position", 1, 1, 1);
        let mut progress = Setup::begin(shaders(), data, false);
        let mut name = 0;
        let calls = loop {
            progress = match progress {
                Progress::Name(setup, _) => {
                    name += 1;
                    setup.resume(name)
                }
                Progress::Location(layout, _) => layout.resume(location),
                Progress::Ready(_, calls) => break calls,
            };
        };
        assert_eq!(calls, vec![pointer(index, 1, 4, 4), GlCall::EnableVertexAttribArray { index }]);
        assert_eq!(index, location as u32);
    }
}

#[test]
fn inputs_are_pointed_at_their_index_without_lookup() {
    let mut gl = Context::new();
    let data = BufferData::new().with_vertices(triangle()).with_input(0, 3, 3, 0).with_input(
        6,
        1,
        -2,
        3,
    );
    gl.set_up(data, false);
    assert_eq!(
        gl.calls[18..],
        [
            pointer(0, 3, 12, 0),
            GlCall::EnableVertexAttribArray { index: 0 },
            pointer(6, 1, -8, 12),
            GlCall::EnableVertexAttribArray { index: 6 },
        ]
    );
}

#[test]
fn named_attributes_come_before_indexed_inputs() {
    let mut gl = Context::new();
    let data = BufferData::new().with_input(5, 1, 1, 0).with_attrib("color", 3, 5, 2);
    gl.set_up(data, false);
    assert_eq!(
        gl.calls[15..],
        [
            GlCall::GetAttribLocation { program: 3, name: "color".to_string() },
            pointer(1, 3, 20, 8),
            GlCall::EnableVertexAttribArray { index: 1 },
            pointer(5, 1, 4, 0),
            GlCall::EnableVertexAttribArray { index: 5 },
        ]
    );
}

#[test]
fn extreme_layouts_that_fit_are_scaled_exactly() {
    let mut gl = Context::new();
    let data = BufferData::new()
        .with_input(1, i32::MIN, i32::MAX / 4, usize::MAX / 4)
        .with_input(2, i32::MAX, i32::MIN / 4, 0);
    gl.set_up(data, false);
    assert_eq!(
        gl.calls[15..],
        [
            pointer(1, i32::MIN, i32::MAX - 3, usize::MAX - 3),
            GlCall::EnableVertexAttribArray { index: 1 },
            pointer(2, i32::MAX, i32::MIN, 0),
            GlCall::EnableVertexAttribArray { index: 2 },
        ]
    );
}

#[test]
fn draw_clears_to_the_default_color() {
    let mut gl = Context::new();
    let renderer = gl.set_up(BufferData::new().with_vertices(triangle()), false);
    assert_eq!(
        renderer.draw(),
        renderer.draw_with_clear_color(
            0.1f32.to_bits(),
            0.1f32.to_bits(),
            0.1f32.to_bits(),
            0.9f32.to_bits()
        )
    );
}

#[test]
fn a_frame_binds_clears_and_draws_one_triangle() {
    let mut gl = Context::new();
    let renderer = gl.set_up(BufferData::new().with_vertices(triangle()), false);
    let steps = renderer.draw_with_clear_color(1, 2, 3, 4);
    assert_eq!(
        steps,
        vec![
            DrawStep::Call(GlCall::UseProgram { program: 3 }),
            DrawStep::Call(GlCall::BindVertexArray { array: 4 }),
            DrawStep::Call(GlCall::BindBuffer { target: ARRAY_BUFFER, buffer: 5 }),
            DrawStep::Call(GlCall::ClearColor { red: 1, green: 2, blue: 3, alpha: 4 }),
            DrawStep::Call(GlCall::Clear { mask: COLOR_BUFFER_BIT }),
            DrawStep::Call(GlCall::DrawArrays { mode: TRIANGLES, first: 0, count: 3 }),
        ]
    );
}

#[test]
fn a_frame_without_a_buffer_binds_none() {
    let mut gl = Context::new();
    let renderer = gl.set_up(BufferData::new(), false);
    assert_eq!(
        renderer.draw(),
        vec![
            DrawStep::Call(GlCall::UseProgram { program: 3 }),
            DrawStep::Call(GlCall::BindVertexArray { array: 4 }),
            DrawStep::Call(GlCall::ClearColor {
                red: DEFAULT_SHADE,
                green: DEFAULT_SHADE,
                blue: DEFAULT_SHADE,
                alpha: DEFAULT_ALPHA,
            }),
            DrawStep::Call(GlCall::Clear { mask: COLOR_BUFFER_BIT }),
            DrawStep::Call(GlCall::DrawArrays { mode: TRIANGLES, first: 0, count: 3 }),
        ]
    );
}

#[test]
fn the_callback_runs_once_per_frame_before_the_triangle() {
    let mut gl = Context::new();
    let renderer = gl.set_up(BufferData::new().with_vertices(triangle()), true);
    for frame in 1..=3 {
        let steps = renderer.draw();
        let callbacks: Vec<usize> =
            (0..steps.len()).filter(|&at| steps[at] == DrawStep::Callback).collect();
        let draws: Vec<usize> = (0..steps.len())
            .filter(|&at| matches!(steps[at], DrawStep::Call(GlCall::DrawArrays { .. })))
            .collect();
        assert_eq!(callbacks, vec![1]);
        assert_eq!(draws, vec![6]);
        assert_eq!(steps[0], DrawStep::Call(GlCall::UseProgram { program: 3 }));
        gl.frame(steps);
        assert_eq!(gl.callbacks, frame);
    }
}

#[test]
fn a_frame_without_a_callback_runs_none_and_still_draws() {
    let mut gl = Context::new();
    let renderer = gl.set_up(BufferData::new().with_vertices(triangle()), false);
    let steps = renderer.draw();
    assert!(!steps.contains(&DrawStep::Callback));
    assert_eq!(
        steps.last(),
        Some(&DrawStep::Call(GlCall::DrawArrays { mode: TRIANGLES, first: 0, count: 3 }))
    );
    gl.frame(steps);
    assert_eq!(gl.callbacks, 0);
}

#[test]
fn uniform4f_looks_the_name_up_and_writes_there() {
    let mut gl = Context::new();
    let renderer = gl.set_up(BufferData::new(), true);
    let (lookup, pending) = renderer.uniform4f("outColor", 10, 20, 30, 40);
    assert_eq!(lookup, GlCall::GetUniformLocation { program: 3, name: "outColor".to_string() });
    assert_eq!(pending, PendingUniform { x: 10, y: 20, z: 30, w: 40 });
    let location = match gl.perform(lookup) {
        Some(Answer::Location(location)) => location,
        other => panic!("a location was due, not {:?}", other),
    };
    assert_eq!(
        pending.resolve(location),
        GlCall::Uniform4f { location: 3, v0: 10, v1: 20, v2: 30, v3: 40 }
    );
}

#[test]
fn uniform4f_looks_the_name_up_on_every_call() {
    let mut gl = Context::new();
    let renderer = gl.set_up(BufferData::new(), true);
    let before = gl.calls.len();
    for round in 0..3 {
        let (lookup, pending) = renderer.uniform4f("outColor", round, 0, 0, 0);
        let location = match gl.perform(lookup) {
            Some(Answer::Location(location)) => location,
            other => panic!("a location was due, not {:?}", other),
        };
        gl.perform(pending.resolve(location));
    }
    let lookups = gl.calls[before..]
        .iter()
        .filter(|call| matches!(call, GlCall::GetUniformLocation { .. }))
        .count();
    assert_eq!(lookups, 3);
    assert_eq!(gl.calls.len(), before + 6);
}

#[test]
fn uniform4f_of_an_unknown_name_writes_to_the_invalid_location() {
    let mut gl = Context::new();
    let renderer = gl.set_up(BufferData::new(), false);
    let (lookup, pending) = renderer.uniform4f("missing", 1, 2, 3, 4);
    assert_eq!(gl.perform(lookup), Some(Answer::Location(-1)));
    assert_eq!(pending.resolve(-1), GlCall::Uniform4f { location: -1, v0: 1, v1: 2, v2: 3, v3: 4 });
}

#[test]
fn resize_sets_the_viewport_at_the_origin() {
    let mut gl = Context::new();
    let renderer = gl.set_up(BufferData::new(), false);
    let calls = renderer.resize(800, 600);
    assert_eq!(calls, vec![GlCall::Viewport { x: 0, y: 0, width: 800, height: 600 }]);
    gl.perform_all(calls);
    assert_eq!(gl.viewport, (0, 0, 800, 600));
    gl.perform_all(renderer.resize(1, 0));
    assert_eq!(gl.viewport, (0, 0, 1, 0));
}

#[test]
fn resize_passes_any_size_through() {
    let mut gl = Context::new();
    let renderer = gl.set_up(BufferData::new(), false);
    assert_eq!(
        renderer.resize(-5, i32::MAX),
        vec![GlCall::Viewport { x: 0, y: 0, width: -5, height: i32::MAX }]
    );
}

#[test]
fn release_deletes_program_then_buffer_then_vertex_array() {
    let mut gl = Context::new();
    let renderer = gl.set_up(BufferData::new().with_vertices(triangle()), false);
    assert_eq!(
        renderer.release(),
        vec![
            GlCall::DeleteProgram { program: 3 },
            GlCall::DeleteBuffer { buffer: 5 },
            GlCall::DeleteVertexArray { array: 4 },
        ]
    );
}

#[test]
fn release_without_a_buffer_deletes_none() {
    let mut gl = Context::new();
    let renderer = gl.set_up(BufferData::new(), false);
    assert_eq!(
        renderer.release(),
        vec![GlCall::DeleteProgram { program: 3 }, GlCall::DeleteVertexArray { array: 4 }]
    );
}

#[test]
fn renderers_in_sequence_leave_no_object_behind() {
    let mut gl = Context::new();
    assert_eq!(gl.live(), (0, 0, 0, 0));
    for round in 0..8 {
        let data = if round % 2 == 0 {
            BufferData::new().with_vertices(triangle()).with_attrib("position", 3, 3, 0)
        } else {
            BufferData::new().with_input(0, 3, 3, 0)
        };
        let renderer = gl.set_up(data, round % 3 == 0);
        assert_eq!(gl.live(), (0, 1, 1, if round % 2 == 0 { 1 } else { 0 }));
        gl.frame(renderer.draw());
        gl.perform_all(renderer.resize(640, 480));
        gl.perform_all(renderer.release());
        assert_eq!(gl.live(), (0, 0, 0, 0));
    }
}

#[test]
fn a_triangle_end_to_end_is_drawn_once() {
    let mut gl = Context::new();
    let data = BufferData::new().with_vertices(triangle()).with_attrib("position", 3, 3, 0);
    let renderer = gl.set_up(data, false);
    let mut expected = prologue();
    expected.extend([
        GlCall::GenBuffer,
        GlCall::BindBuffer { target: ARRAY_BUFFER, buffer: 5 },
        GlCall::BufferData { target: ARRAY_BUFFER, size: 36, data: triangle(), usage: STATIC_DRAW },
        GlCall::GetAttribLocation { program: 3, name: "position".to_string() },
        pointer(0, 3, 12, 0),
        GlCall::EnableVertexAttribArray { index: 0 },
    ]);
    assert_eq!(gl.calls, expected);

    let before = gl.calls.len();
    gl.frame(renderer.draw());
    let draws: Vec<&GlCall> = gl.calls[before..]
        .iter()
        .filter(|call| matches!(call, GlCall::DrawArrays { .. }))
        .collect();
    assert_eq!(draws, vec![&GlCall::DrawArrays { mode: TRIANGLES, first: 0, count: 3 }]);
    assert_eq!(gl.callbacks, 0);
}
