//! What holds of the builder, of setup, of a frame and of a renderer's
//! whole life, for every input.

use crate::buffer::{built, byte_units, BufferDataView, BuildStep};
use crate::call::{
    balance, ledger, surplus, Answer, AnswerKind, Effect, GlCallView, ObjectKind, ARRAY_BUFFER,
    FRAGMENT_SHADER, STATIC_DRAW, TRIANGLES, VERTEX_SHADER,
};
use crate::renderer::{DrawStepView, RendererView};
use crate::setup::{
    answers, attribs_calls, compile_calls, inputs_calls, laid_out, link_calls, location_index,
    pointer_calls, renderer_of, run, setup_calls, upload_calls, LayoutView, Names, ProgressView,
    SetupView, ShadersView, Stage,
};
use vstd::prelude::*;

verus! {

/// The builder keeps what it is given, in the order given: the attributes
/// it holds are the attributes of its `with_attrib` calls, one for each
/// call and in call order, and likewise the inputs of its `with_input`
/// calls. The vertices are those of the last `with_vertices` call, if there
/// was one.
pub proof fn builder_keeps_order(steps: Seq<BuildStep>)
    ensures
        built(steps).attribs == steps.filter_map(|step: BuildStep| step.attrib()),
        built(steps).inputs == steps.filter_map(|step: BuildStep| step.input()),
        forall|i: int|
            0 <= i < steps.len() && steps[i] is Vertices && (forall|j: int|
                i < j < steps.len() ==> !(steps[j] is Vertices)) ==> built(steps).vertices == Some(
                steps[i]->Vertices_0,
            ),
        (forall|i: int| 0 <= i < steps.len() ==> !(steps[i] is Vertices)) ==> built(
            steps,
        ).vertices is None,
    decreases steps.len(),
{
    if steps.len() > 0 {
        let before = steps.drop_last();
        builder_keeps_order(before);
        assert forall|i: int|
            0 <= i < steps.len() && steps[i] is Vertices && (forall|j: int|
                i < j < steps.len() ==> !(steps[j] is Vertices)) implies built(steps).vertices
            == Some(steps[i]->Vertices_0) by {
            if i < steps.len() - 1 {
                assert(!(steps[steps.len() - 1] is Vertices));
                assert(before[i] == steps[i]);
                assert forall|j: int| i < j < before.len() implies !(before[j] is Vertices) by {
                    assert(before[j] == steps[j]);
                }
            }
        }
        if forall|i: int| 0 <= i < steps.len() ==> !(steps[i] is Vertices) {
            assert forall|i: int| 0 <= i < before.len() implies !(before[i] is Vertices) by {
                assert(before[i] == steps[i]);
            }
        }
    }
}

/// A frame of a renderer with a callback runs the callback exactly once,
/// and before the triangle is drawn.
pub proof fn callback_runs_once_before_draw(
    renderer: RendererView,
    red: u32,
    green: u32,
    blue: u32,
    alpha: u32,
)
    requires
        renderer.callback,
    ensures
        ({
            let steps = renderer.draw_steps(red, green, blue, alpha);
            let draw = DrawStepView::Call(
                GlCallView::DrawArrays { mode: TRIANGLES, first: 0, count: 3 },
            );
            &&& steps[1] == DrawStepView::Callback
            &&& forall|i: int| 0 <= i < steps.len() && steps[i] == DrawStepView::Callback ==> i == 1
            &&& forall|i: int| 0 <= i < steps.len() && steps[i] == draw ==> 1 < i
        }),
{
}

/// Every frame draws exactly one triangle, as its last step, and a frame of
/// a renderer without a callback runs none.
pub proof fn frame_ends_in_one_draw(
    renderer: RendererView,
    red: u32,
    green: u32,
    blue: u32,
    alpha: u32,
)
    ensures
        ({
            let steps = renderer.draw_steps(red, green, blue, alpha);
            &&& steps.len() > 0
            &&& steps.last() == DrawStepView::Call(
                GlCallView::DrawArrays { mode: TRIANGLES, first: 0, count: 3 },
            )
            &&& forall|i: int|
                0 <= i < steps.len() && steps[i] is Call && steps[i]->Call_0 is DrawArrays ==> i
                    == steps.len() - 1
            &&& !renderer.callback ==> forall|i: int|
                0 <= i < steps.len() ==> steps[i] != DrawStepView::Callback
        }),
{
}

/// Whether only the last of `calls` answers, and with a value of `kind`;
/// for no `kind`, whether none of them answers.
pub open spec fn asks_last(calls: Seq<GlCallView>, kind: Option<AnswerKind>) -> bool {
    &&& forall|i: int| 0 <= i < calls.len() - 1 ==> (#[trigger] calls[i]).answer() is None
    &&& match kind {
        Some(_) => calls.len() > 0 && calls.last().answer() == kind,
        None => calls.len() > 0 ==> calls.last().answer() is None,
    }
}

/// Whether a round asks for what it says it waits for: a name where it
/// goes on with a name, the location of an attribute that the data has
/// where it goes on with a location, nothing where setup is over.
pub open spec fn round_is_sound(progress: ProgressView) -> bool {
    match progress {
        ProgressView::Name(_, calls) => asks_last(calls, Some(AnswerKind::Name)),
        ProgressView::Location(layout, calls) => {
            &&& asks_last(calls, Some(AnswerKind::Location))
            &&& layout.next < layout.data.attribs.len()
        },
        ProgressView::Ready(_, calls) => asks_last(calls, None),
    }
}

/// Every round of setup is sound, whatever the answers before it were: to
/// perform its calls in order and to hand back what the last one answered
/// is all that setup needs.
pub proof fn every_round_is_sound(
    shaders: ShadersView,
    data: BufferDataView,
    callback: bool,
    setup: SetupView,
    name: u32,
    layout: LayoutView,
    location: i32,
)
    ensures
        round_is_sound(SetupView::begun(shaders, data, callback)),
        round_is_sound(setup.resumed(name)),
        round_is_sound(layout.resumed(location)),
{
}

/// From the named attributes on, the rounds issue what is left of
/// `attribs_calls`, then `inputs_calls`.
proof fn lemma_layout_rounds(
    data: BufferDataView,
    renderer: RendererView,
    next: nat,
    calls: Seq<GlCallView>,
    given: Seq<Answer>,
    base: nat,
    locations: Seq<i32>,
)
    requires
        next <= data.attribs.len() == locations.len(),
        given.len() == base + locations.len(),
        forall|k: int|
            0 <= k < locations.len() ==> given[base + k] == Answer::Location(locations[k]),
    ensures
        run(laid_out(data, renderer, next, calls), given, base + next) == Some(
            (
                renderer,
                calls + attribs_calls(renderer.program, data.attribs, locations).skip(
                    3 * next as int,
                ) + inputs_calls(data.inputs),
            ),
        ),
    decreases data.attribs.len() - next,
{
    let all = attribs_calls(renderer.program, data.attribs, locations);
    let at = next as int;
    if next < data.attribs.len() {
        let attrib = data.attribs[next as int];
        let pointer = pointer_calls(
            location_index(locations[next as int]),
            attrib.size,
            attrib.stride,
            attrib.offset,
        );
        lemma_layout_rounds(data, renderer, next + 1, pointer, given, base, locations);
        let lookup = GlCallView::GetAttribLocation {
            program: renderer.program,
            name: attrib.name,
        };
        assert(given[base + at] == Answer::Location(locations[at]));
        assert(all.skip(3 * at) =~= seq![lookup] + pointer + all.skip(3 * (at + 1)));
        assert(calls.push(lookup) + (pointer + all.skip(3 * (at + 1)) + inputs_calls(
            data.inputs,
        )) =~= calls + all.skip(3 * at) + inputs_calls(data.inputs));
    } else {
        assert(all.skip(3 * at) =~= Seq::empty());
        assert(calls + inputs_calls(data.inputs) =~= calls + all.skip(3 * at) + inputs_calls(
            data.inputs,
        ));
    }
}

/// Played against the answers that GL gives, the rounds of setup issue
/// exactly `setup_calls`, in order, and end with the renderer that owns the
/// program, the vertex array and, where there are vertices, the buffer.
pub proof fn rounds_issue_setup_calls(
    shaders: ShadersView,
    data: BufferDataView,
    callback: bool,
    names: Names,
)
    requires
        names.locations.len() == data.attribs.len(),
    ensures
        run(SetupView::begun(shaders, data, callback), answers(data, names), 0) == Some(
            (renderer_of(data, names, callback), setup_calls(shaders, data, names)),
        ),
{
    let fourth = SetupView {
        shaders,
        data,
        callback,
        stage: Stage::VertexArray { program: names.program },
    };
    lemma_rounds_from_array(fourth, names);
    lemma_rounds_to_array(
        shaders,
        data,
        callback,
        names,
        renderer_of(data, names, callback),
        after_array(data, names),
    );
    assert(before_array(shaders, names) + after_array(data, names) =~= setup_calls(
        shaders,
        data,
        names,
    ));
}

/// What setup issues until the vertex array has its name.
spec fn before_array(shaders: ShadersView, names: Names) -> Seq<GlCallView> {
    seq![GlCallView::CreateShader { kind: VERTEX_SHADER }] + compile_calls(
        names.vertex,
        shaders.vertex,
    ) + seq![GlCallView::CreateShader { kind: FRAGMENT_SHADER }] + compile_calls(
        names.fragment,
        shaders.fragment,
    ) + seq![GlCallView::CreateProgram] + link_calls(names.program, names.vertex, names.fragment)
        + seq![GlCallView::GenVertexArray]
}

/// The rounds up to the one that creates the vertex array, whatever the
/// rounds after it issue.
proof fn lemma_rounds_to_array(
    shaders: ShadersView,
    data: BufferDataView,
    callback: bool,
    names: Names,
    renderer: RendererView,
    rest: Seq<GlCallView>,
)
    requires
        run(
            SetupView {
                shaders,
                data,
                callback,
                stage: Stage::VertexArray { program: names.program },
            }.resumed(names.vao),
            answers(data, names),
            4,
        ) == Some((renderer, rest)),
    ensures
        run(SetupView::begun(shaders, data, callback), answers(data, names), 0) == Some(
            (renderer, before_array(shaders, names) + rest),
        ),
{
    let given = answers(data, names);
    let start = SetupView { shaders, data, callback, stage: Stage::VertexShader };
    let second = SetupView { stage: Stage::FragmentShader { vertex: names.vertex }, ..start };
    let third = SetupView {
        stage: Stage::Program { vertex: names.vertex, fragment: names.fragment },
        ..start
    };

    let from_program = link_calls(names.program, names.vertex, names.fragment).push(
        GlCallView::GenVertexArray,
    ) + rest;
    assert(run(third.resumed(names.program), given, 3) == Some((renderer, from_program)));

    let from_fragment = compile_calls(names.fragment, shaders.fragment).push(
        GlCallView::CreateProgram,
    ) + from_program;
    assert(run(second.resumed(names.fragment), given, 2) == Some((renderer, from_fragment)));

    let from_vertex = compile_calls(names.vertex, shaders.vertex).push(
        GlCallView::CreateShader { kind: FRAGMENT_SHADER },
    ) + from_fragment;
    assert(run(start.resumed(names.vertex), given, 1) == Some((renderer, from_vertex)));

    let whole = seq![GlCallView::CreateShader { kind: VERTEX_SHADER }] + from_vertex;
    assert(run(SetupView::begun(shaders, data, callback), given, 0) == Some((renderer, whole)));
    assert(whole =~= before_array(shaders, names) + rest);
}

/// What setup issues once the vertex array has its name.
spec fn after_array(data: BufferDataView, names: Names) -> Seq<GlCallView> {
    seq![GlCallView::BindVertexArray { array: names.vao }] + (if data.vertices is Some {
        seq![GlCallView::GenBuffer] + upload_calls(names.vbo, data.vertices)
    } else {
        seq![]
    }) + attribs_calls(names.program, data.attribs, names.locations) + inputs_calls(data.inputs)
}

/// The rounds from the one that binds the vertex array.
proof fn lemma_rounds_from_array(setup: SetupView, names: Names)
    requires
        setup.stage == (Stage::VertexArray { program: names.program }),
        names.locations.len() == setup.data.attribs.len(),
    ensures
        run(setup.resumed(names.vao), answers(setup.data, names), 4) == Some(
            (renderer_of(setup.data, names, setup.callback), after_array(setup.data, names)),
        ),
{
    let data = setup.data;
    let given = answers(data, names);
    let renderer = renderer_of(data, names, setup.callback);
    let all = attribs_calls(names.program, data.attribs, names.locations);
    let bind = seq![GlCallView::BindVertexArray { array: names.vao }];
    assert(all.skip(0) =~= all);
    if data.vertices is Some {
        let upload = upload_calls(names.vbo, data.vertices);
        lemma_layout_rounds(data, renderer, 0, upload, given, 5, names.locations);
        let buffer = SetupView {
            stage: Stage::Buffer { program: names.program, vao: names.vao },
            ..setup
        };
        assert(run(buffer.resumed(names.vbo), given, 5) == Some(
            (renderer, upload + all + inputs_calls(data.inputs)),
        ));
        assert(bind.push(GlCallView::GenBuffer) + (upload + all + inputs_calls(data.inputs))
            =~= after_array(data, names));
    } else {
        lemma_layout_rounds(data, renderer, 0, bind, given, 4, names.locations);
    }
}

/// Setup uploads the vertex floats and nothing else: if there are vertices,
/// exactly one call of setup fills a buffer, with all of them and four
/// bytes for each; if there are none, no call does.
pub proof fn upload_is_exact(shaders: ShadersView, data: BufferDataView, names: Names)
    ensures
        ({
            let calls = setup_calls(shaders, data, names);
            &&& forall|i: int|
                0 <= i < calls.len() && calls[i] is BufferData ==> data.vertices is Some
                    && calls[i] == (GlCallView::BufferData {
                    target: ARRAY_BUFFER,
                    size: byte_units(data.vertices->0.len() as int),
                    data: data.vertices->0,
                    usage: STATIC_DRAW,
                })
            &&& forall|i: int, j: int|
                0 <= i < calls.len() && 0 <= j < calls.len() && calls[i] is BufferData
                    && calls[j] is BufferData ==> i == j
            &&& data.vertices is Some ==> exists|i: int|
                0 <= i < calls.len() && calls[i] is BufferData
        }),
{
    let calls = setup_calls(shaders, data, names);
    if data.vertices is Some {
        assert(calls[17] is BufferData);
    }
}

/// One renderer's whole life: what it is set up from and what GL answers
/// in the course of its setup.
pub struct Life {
    pub shaders: ShadersView,
    pub data: BufferDataView,
    pub callback: bool,
    pub names: Names,
}

impl Life {
    /// The calls that bring the renderer about and those that end it: its
    /// setup, then its release.
    pub open spec fn calls(self) -> Seq<GlCallView> {
        setup_calls(self.shaders, self.data, self.names) + renderer_of(
            self.data,
            self.names,
            self.callback,
        ).release_calls()
    }
}

/// Every call of the given lives, one life after the other.
pub open spec fn lives_calls(lives: Seq<Life>) -> Seq<GlCallView>
    decreases lives.len(),
{
    if lives.len() == 0 {
        seq![]
    } else {
        lives_calls(lives.drop_last()) + lives.last().calls()
    }
}

/// What is kept of two runs of items, one after the other, is what is kept
/// of the first and then what is kept of the second.
proof fn lemma_filter_map_adds<A, B>(first: Seq<A>, second: Seq<A>, f: spec_fn(A) -> Option<B>)
    ensures
        (first + second).filter_map(f) == first.filter_map(f) + second.filter_map(f),
    decreases second.len(),
{
    if second.len() == 0 {
        assert(first + second =~= first);
    } else {
        lemma_filter_map_adds(first, second.drop_last(), f);
        assert((first + second).drop_last() =~= first + second.drop_last());
    }
}

/// Nothing is kept of items that `f` keeps nothing of.
proof fn lemma_filter_map_none<A, B>(items: Seq<A>, f: spec_fn(A) -> Option<B>)
    requires
        forall|i: int| 0 <= i < items.len() ==> f(#[trigger] items[i]) is None,
    ensures
        items.filter_map(f) == Seq::<B>::empty(),
    decreases items.len(),
{
    if items.len() > 0 {
        lemma_filter_map_none(items.drop_last(), f);
    }
}

/// What `f` keeps of the item at `at`, or nothing where there is no such
/// item.
spec fn kept_at<A, B>(items: Seq<A>, at: int, f: spec_fn(A) -> Option<B>) -> Seq<B> {
    if 0 <= at < items.len() {
        match f(items[at]) {
            Some(kept) => seq![kept],
            None => seq![],
        }
    } else {
        seq![]
    }
}

/// What is kept of up to six items is what is kept of each, in order.
proof fn lemma_filter_map_short<A, B>(items: Seq<A>, f: spec_fn(A) -> Option<B>)
    requires
        items.len() <= 6,
    ensures
        items.filter_map(f) == kept_at(items, 0, f) + kept_at(items, 1, f) + kept_at(items, 2, f)
            + kept_at(items, 3, f) + kept_at(items, 4, f) + kept_at(items, 5, f),
    decreases items.len(),
{
    if items.len() > 0 {
        let before = items.drop_last();
        lemma_filter_map_short(before, f);
        assert(forall|at: int| 0 <= at < before.len() ==> before[at] == items[at]);
        assert(forall|at: int|
            0 <= at < before.len() ==> kept_at(before, at, f) == kept_at(items, at, f));
        assert(items.filter_map(f) =~= kept_at(items, 0, f) + kept_at(items, 1, f) + kept_at(
            items,
            2,
            f,
        ) + kept_at(items, 3, f) + kept_at(items, 4, f) + kept_at(items, 5, f));
    }
}

/// The ledger of a life, entry by entry.
pub open spec fn life_ledger(life: Life) -> Seq<Effect> {
    seq![
        Effect::Made(ObjectKind::Shader),
        Effect::Made(ObjectKind::Shader),
        Effect::Made(ObjectKind::Program),
        Effect::Gone(ObjectKind::Shader, life.names.vertex),
        Effect::Gone(ObjectKind::Shader, life.names.fragment),
        Effect::Made(ObjectKind::VertexArray),
    ] + (if life.data.vertices is Some {
        seq![Effect::Made(ObjectKind::Buffer)]
    } else {
        seq![]
    }) + seq![Effect::Gone(ObjectKind::Program, life.names.program)] + (
    if life.data.vertices is Some {
        seq![Effect::Gone(ObjectKind::Buffer, life.names.vbo)]
    } else {
        seq![]
    }) + seq![Effect::Gone(ObjectKind::VertexArray, life.names.vao)]
}

/// The ledger of two runs of calls, one after the other, is the ledger of
/// the first and then that of the second.
proof fn lemma_ledger_adds(first: Seq<GlCallView>, second: Seq<GlCallView>)
    ensures
        ledger(first + second) == ledger(first) + ledger(second),
{
    lemma_filter_map_adds(first, second, |call: GlCallView| call.effect());
}

/// The ledger of setup up to the link: two shaders and a program made, the
/// shaders gone.
proof fn lemma_ledger_to_link(shaders: ShadersView, names: Names)
    ensures
        ledger(
            seq![GlCallView::CreateShader { kind: VERTEX_SHADER }] + compile_calls(
                names.vertex,
                shaders.vertex,
            ) + seq![GlCallView::CreateShader { kind: FRAGMENT_SHADER }] + compile_calls(
                names.fragment,
                shaders.fragment,
            ) + seq![GlCallView::CreateProgram] + link_calls(
                names.program,
                names.vertex,
                names.fragment,
            ),
        ) == seq![
            Effect::Made(ObjectKind::Shader),
            Effect::Made(ObjectKind::Shader),
            Effect::Made(ObjectKind::Program),
            Effect::Gone(ObjectKind::Shader, names.vertex),
            Effect::Gone(ObjectKind::Shader, names.fragment),
        ],
{
    let effect = |call: GlCallView| call.effect();
    let vertex = seq![GlCallView::CreateShader { kind: VERTEX_SHADER }];
    let vertex_source = compile_calls(names.vertex, shaders.vertex);
    let fragment = seq![GlCallView::CreateShader { kind: FRAGMENT_SHADER }];
    let fragment_source = compile_calls(names.fragment, shaders.fragment);
    let program = seq![GlCallView::CreateProgram];
    let link = link_calls(names.program, names.vertex, names.fragment);
    lemma_filter_map_short(vertex, effect);
    lemma_filter_map_short(vertex_source, effect);
    lemma_filter_map_short(fragment, effect);
    lemma_filter_map_short(fragment_source, effect);
    lemma_filter_map_short(program, effect);
    lemma_filter_map_short(link, effect);
    lemma_ledger_adds(vertex, vertex_source);
    lemma_ledger_adds(vertex + vertex_source, fragment);
    lemma_ledger_adds(vertex + vertex_source + fragment, fragment_source);
    lemma_ledger_adds(vertex + vertex_source + fragment + fragment_source, program);
    lemma_ledger_adds(vertex + vertex_source + fragment + fragment_source + program, link);
    assert(ledger(vertex + vertex_source + fragment + fragment_source + program + link) =~= seq![
        Effect::Made(ObjectKind::Shader),
        Effect::Made(ObjectKind::Shader),
        Effect::Made(ObjectKind::Program),
        Effect::Gone(ObjectKind::Shader, names.vertex),
        Effect::Gone(ObjectKind::Shader, names.fragment),
    ]);
}

/// The ledger of setup from the vertex array on: the vertex array made
/// and, where there are vertices, the buffer.
proof fn lemma_ledger_from_array(data: BufferDataView, names: Names)
    ensures
        ledger(
            seq![GlCallView::GenVertexArray, GlCallView::BindVertexArray { array: names.vao }],
        ) == seq![Effect::Made(ObjectKind::VertexArray)],
        ledger(
            if data.vertices is Some {
                seq![GlCallView::GenBuffer] + upload_calls(names.vbo, data.vertices)
            } else {
                seq![]
            },
        ) == if data.vertices is Some {
            seq![Effect::Made(ObjectKind::Buffer)]
        } else {
            seq![]
        },
        ledger(attribs_calls(names.program, data.attribs, names.locations)) == Seq::<
            Effect,
        >::empty(),
        ledger(inputs_calls(data.inputs)) == Seq::<Effect>::empty(),
{
    let effect = |call: GlCallView| call.effect();
    let array = seq![GlCallView::GenVertexArray, GlCallView::BindVertexArray { array: names.vao }];
    let buffer = if data.vertices is Some {
        seq![GlCallView::GenBuffer] + upload_calls(names.vbo, data.vertices)
    } else {
        seq![]
    };
    lemma_filter_map_short(array, effect);
    lemma_filter_map_short(buffer, effect);
    lemma_filter_map_none(attribs_calls(names.program, data.attribs, names.locations), effect);
    lemma_filter_map_none(inputs_calls(data.inputs), effect);
    assert(ledger(array) =~= seq![Effect::Made(ObjectKind::VertexArray)]);
    assert(ledger(buffer) =~= if data.vertices is Some {
        seq![Effect::Made(ObjectKind::Buffer)]
    } else {
        seq![]
    });
}

/// The ledger of a release: the program gone, then the buffer if there is
/// one, then the vertex array.
proof fn lemma_ledger_of_release(renderer: RendererView)
    ensures
        ledger(renderer.release_calls()) == seq![
            Effect::Gone(ObjectKind::Program, renderer.program),
        ] + (match renderer.vbo {
            Some(buffer) => seq![Effect::Gone(ObjectKind::Buffer, buffer)],
            None => seq![],
        }) + seq![Effect::Gone(ObjectKind::VertexArray, renderer.vao)],
{
    lemma_filter_map_short(renderer.release_calls(), |call: GlCallView| call.effect());
    assert(ledger(renderer.release_calls()) =~= seq![
        Effect::Gone(ObjectKind::Program, renderer.program),
    ] + (match renderer.vbo {
        Some(buffer) => seq![Effect::Gone(ObjectKind::Buffer, buffer)],
        None => seq![],
    }) + seq![Effect::Gone(ObjectKind::VertexArray, renderer.vao)]);
}

/// A life deletes what it created, and nothing else. Setup creates two
/// shaders, a program, a vertex array and, where there are vertices, a
/// buffer, which GL names in this order; the life deletes each of them
/// once, under the name that GL gave it: the shaders during setup, then the
/// program, the buffer and the vertex array at the release.
pub proof fn life_deletes_what_it_made(life: Life)
    ensures
        ledger(life.calls()) == life_ledger(life),
{
    let names = life.names;
    let to_link = seq![GlCallView::CreateShader { kind: VERTEX_SHADER }] + compile_calls(
        names.vertex,
        life.shaders.vertex,
    ) + seq![GlCallView::CreateShader { kind: FRAGMENT_SHADER }] + compile_calls(
        names.fragment,
        life.shaders.fragment,
    ) + seq![GlCallView::CreateProgram] + link_calls(names.program, names.vertex, names.fragment);
    let array = seq![GlCallView::GenVertexArray, GlCallView::BindVertexArray { array: names.vao }];
    let buffer = if life.data.vertices is Some {
        seq![GlCallView::GenBuffer] + upload_calls(names.vbo, life.data.vertices)
    } else {
        seq![]
    };
    let attribs = attribs_calls(names.program, life.data.attribs, names.locations);
    let inputs = inputs_calls(life.data.inputs);
    let release = renderer_of(life.data, names, life.callback).release_calls();

    lemma_ledger_to_link(life.shaders, names);
    lemma_ledger_from_array(life.data, names);
    lemma_ledger_of_release(renderer_of(life.data, names, life.callback));
    lemma_ledger_adds(to_link, array);
    lemma_ledger_adds(to_link + array, buffer);
    lemma_ledger_adds(to_link + array + buffer, attribs);
    lemma_ledger_adds(to_link + array + buffer + attribs, inputs);
    lemma_ledger_adds(to_link + array + buffer + attribs + inputs, release);
    assert(life.calls() == to_link + array + buffer + attribs + inputs + release);
    assert(ledger(life.calls()) =~= life_ledger(life));
}

/// The balance of two runs of effects, one after the other, is the sum of
/// their balances.
proof fn lemma_balance_adds(first: Seq<Effect>, second: Seq<Effect>, kind: ObjectKind)
    ensures
        balance(first + second, kind) == balance(first, kind) + balance(second, kind),
    decreases second.len(),
{
    if second.len() == 0 {
        assert(first + second =~= first);
    } else {
        lemma_balance_adds(first, second.drop_last(), kind);
        assert((first + second).drop_last() =~= first + second.drop_last());
    }
}

/// The change that the effect at `at` makes, or none where there is no such
/// effect.
spec fn change_at(effects: Seq<Effect>, at: int, kind: ObjectKind) -> int {
    if 0 <= at < effects.len() {
        effects[at].change(kind)
    } else {
        0
    }
}

/// The balance of up to six effects is the sum of their changes.
proof fn lemma_balance_short(effects: Seq<Effect>, kind: ObjectKind)
    requires
        effects.len() <= 6,
    ensures
        balance(effects, kind) == change_at(effects, 0, kind) + change_at(effects, 1, kind)
            + change_at(effects, 2, kind) + change_at(effects, 3, kind) + change_at(
            effects,
            4,
            kind,
        ) + change_at(effects, 5, kind),
    decreases effects.len(),
{
    if effects.len() > 0 {
        let before = effects.drop_last();
        lemma_balance_short(before, kind);
        assert(forall|at: int| 0 <= at < before.len() ==> before[at] == effects[at]);
    }
}

/// The surplus of two runs of calls, one after the other, is the sum of
/// their surpluses.
pub proof fn surplus_adds(first: Seq<GlCallView>, second: Seq<GlCallView>, kind: ObjectKind)
    ensures
        surplus(first + second, kind) == surplus(first, kind) + surplus(second, kind),
{
    lemma_ledger_adds(first, second);
    lemma_balance_adds(ledger(first), ledger(second), kind);
}

/// A renderer's life leaks nothing: of each kind of object, its calls
/// delete as many as they create.
pub proof fn life_leaks_nothing(life: Life, kind: ObjectKind)
    ensures
        surplus(life.calls(), kind) == 0,
{
    life_deletes_what_it_made(life);
    let setup = seq![
        Effect::Made(ObjectKind::Shader),
        Effect::Made(ObjectKind::Shader),
        Effect::Made(ObjectKind::Program),
        Effect::Gone(ObjectKind::Shader, life.names.vertex),
        Effect::Gone(ObjectKind::Shader, life.names.fragment),
        Effect::Made(ObjectKind::VertexArray),
    ];
    let buffer_made = if life.data.vertices is Some {
        seq![Effect::Made(ObjectKind::Buffer)]
    } else {
        seq![]
    };
    let program_gone = seq![Effect::Gone(ObjectKind::Program, life.names.program)];
    let buffer_gone = if life.data.vertices is Some {
        seq![Effect::Gone(ObjectKind::Buffer, life.names.vbo)]
    } else {
        seq![]
    };
    let array_gone = seq![Effect::Gone(ObjectKind::VertexArray, life.names.vao)];
    lemma_balance_short(setup, kind);
    lemma_balance_short(buffer_made, kind);
    lemma_balance_short(program_gone, kind);
    lemma_balance_short(buffer_gone, kind);
    lemma_balance_short(array_gone, kind);
    lemma_balance_adds(setup, buffer_made, kind);
    lemma_balance_adds(setup + buffer_made, program_gone, kind);
    lemma_balance_adds(setup + buffer_made + program_gone, buffer_gone, kind);
    lemma_balance_adds(setup + buffer_made + program_gone + buffer_gone, array_gone, kind);
}

/// Any number of renderers, set up and released one after the other, leak
/// nothing: of each kind of object, all their calls together delete as many
/// as they create.
pub proof fn lives_leak_nothing(lives: Seq<Life>, kind: ObjectKind)
    ensures
        surplus(lives_calls(lives), kind) == 0,
    decreases lives.len(),
{
    if lives.len() > 0 {
        lives_leak_nothing(lives.drop_last(), kind);
        life_leaks_nothing(lives.last(), kind);
        surplus_adds(lives_calls(lives.drop_last()), lives.last().calls(), kind);
    }
}

} // verus!
