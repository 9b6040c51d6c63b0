//! Vertex data and the layout of its attributes.
//!
//! A [`BufferData`] is assembled once with the fluent builder and then
//! handed to [`crate::setup::Setup::begin`]. Sizes, strides and offsets are
//! counted in floats; the renderer scales them to bytes.

use vstd::prelude::*;

verus! {

/// The number of bytes that `floats` vertex floats take.
pub open spec fn byte_units(floats: int) -> int {
    4 * floats
}

/// Contains name, size, stride, and offset of an attribute.
#[derive(Debug, Clone, PartialEq, Eq)]
pub struct AttribInfo(pub String, pub i32, pub i32, pub usize);

/// Contains index, size, stride, and offset of an input.
#[derive(Debug, Clone, PartialEq, Eq)]
pub struct ShaderInputInfo(pub u32, pub i32, pub i32, pub usize);

/// An attribute that the linked program is asked for by name.
#[verifier::ext_equal]
pub struct AttribView {
    pub name: Seq<char>,
    pub size: i32,
    pub stride: i32,
    pub offset: usize,
}

/// An attribute bound at a shader input index given up front.
#[verifier::ext_equal]
pub struct InputView {
    pub index: u32,
    pub size: i32,
    pub stride: i32,
    pub offset: usize,
}

/// Whether a stride and an offset, scaled to bytes, fit the types GL takes
/// them in.
pub open spec fn layout_fits(stride: i32, offset: usize) -> bool {
    &&& i32::MIN <= byte_units(stride as int) <= i32::MAX
    &&& byte_units(offset as int) <= usize::MAX
}

impl AttribView {
    /// Whether stride and offset can be scaled to bytes.
    pub open spec fn fits(self) -> bool {
        layout_fits(self.stride, self.offset)
    }
}

impl InputView {
    /// Whether stride and offset can be scaled to bytes.
    pub open spec fn fits(self) -> bool {
        layout_fits(self.stride, self.offset)
    }
}

impl View for AttribInfo {
    type V = AttribView;

    open spec fn view(&self) -> AttribView {
        AttribView { name: self.0@, size: self.1, stride: self.2, offset: self.3 }
    }
}

impl View for ShaderInputInfo {
    type V = InputView;

    open spec fn view(&self) -> InputView {
        InputView { index: self.0, size: self.1, stride: self.2, offset: self.3 }
    }
}

/// Vertex content and its layout.
///
/// `vertices` holds the interleaved vertex floats, each as its IEEE-754
/// single-precision bit pattern. `attribs` and `inputs` keep the order in
/// which they were added. Nothing is checked against the vertex array's
/// bounds: a layout that points outside it renders garbage, not an error.
#[derive(Debug, Clone, PartialEq, Eq)]
pub struct BufferData {
    pub vertices: Option<Vec<u32>>,
    pub attribs: Vec<AttribInfo>,
    pub inputs: Vec<ShaderInputInfo>,
}

/// What a [`BufferData`] holds: the vertex floats by bit pattern, if any,
/// and the two lists of layout descriptors in insertion order.
#[verifier::ext_equal]
pub struct BufferDataView {
    pub vertices: Option<Seq<u32>>,
    pub attribs: Seq<AttribView>,
    pub inputs: Seq<InputView>,
}

impl BufferDataView {
    /// No vertices, no layout.
    pub open spec fn empty() -> BufferDataView {
        BufferDataView { vertices: None, attribs: Seq::empty(), inputs: Seq::empty() }
    }

    /// The same layout over `vertices`.
    pub open spec fn with_vertices(self, vertices: Seq<u32>) -> BufferDataView {
        BufferDataView { vertices: Some(vertices), ..self }
    }

    /// The same data with `attrib` after the named attributes.
    pub open spec fn with_attrib(self, attrib: AttribView) -> BufferDataView {
        BufferDataView { attribs: self.attribs.push(attrib), ..self }
    }

    /// The same data with `input` after the indexed inputs.
    pub open spec fn with_input(self, input: InputView) -> BufferDataView {
        BufferDataView { inputs: self.inputs.push(input), ..self }
    }

    /// Whether the payload's length and every stride and offset, scaled to
    /// bytes, fit the types GL takes them in.
    pub open spec fn fits(self) -> bool {
        &&& self.vertices matches Some(vertices) ==> byte_units(vertices.len() as int)
            <= isize::MAX
        &&& forall|i: int| 0 <= i < self.attribs.len() ==> (#[trigger] self.attribs[i]).fits()
        &&& forall|i: int| 0 <= i < self.inputs.len() ==> (#[trigger] self.inputs[i]).fits()
    }
}

/// One call of the fluent builder: `with_vertices`, `with_attrib` or
/// `with_input`, with what it was given.
pub enum BuildStep {
    Vertices(Seq<u32>),
    Attrib(AttribView),
    Input(InputView),
}

impl BuildStep {
    /// The attribute that the call adds, if it adds one.
    pub open spec fn attrib(self) -> Option<AttribView> {
        match self {
            BuildStep::Attrib(attrib) => Some(attrib),
            _ => None,
        }
    }

    /// The input that the call adds, if it adds one.
    pub open spec fn input(self) -> Option<InputView> {
        match self {
            BuildStep::Input(input) => Some(input),
            _ => None,
        }
    }
}

/// The data that the builder holds after the given calls, made in order on
/// empty data.
pub open spec fn built(steps: Seq<BuildStep>) -> BufferDataView
    decreases steps.len(),
{
    if steps.len() == 0 {
        BufferDataView::empty()
    } else {
        let before = built(steps.drop_last());
        match steps.last() {
            BuildStep::Vertices(vertices) => before.with_vertices(vertices),
            BuildStep::Attrib(attrib) => before.with_attrib(attrib),
            BuildStep::Input(input) => before.with_input(input),
        }
    }
}

impl View for BufferData {
    type V = BufferDataView;

    open spec fn view(&self) -> BufferDataView {
        BufferDataView {
            vertices: match self.vertices {
                Some(vertices) => Some(vertices@),
                None => None,
            },
            attribs: self.attribs@.map_values(|attrib: AttribInfo| attrib@),
            inputs: self.inputs@.map_values(|input: ShaderInputInfo| input@),
        }
    }
}

/// Whether `stride` and `offset` can be scaled to bytes without overflow.
fn layout_in_range(stride: i32, offset: usize) -> (ok: bool)
    ensures
        ok == layout_fits(stride, offset),
{
    i32::MIN / 4 <= stride && stride <= i32::MAX / 4 && offset <= usize::MAX / 4
}

impl BufferData {
    /// Data without vertices and without layout.
    pub fn new() -> (data: BufferData)
        ensures
            data@ == BufferDataView::empty(),
    {
        BufferData { vertices: None, attribs: Vec::new(), inputs: Vec::new() }
    }

    /// Sets the vertex floats, replacing any set before.
    pub fn with_vertices(self, vertices: Vec<u32>) -> (data: BufferData)
        ensures
            data@ == self@.with_vertices(vertices@),
    {
        let mut data = self;
        data.vertices = Some(vertices);
        data
    }

    /// Appends an attribute that is looked up by `name` in the linked
    /// program.
    pub fn with_attrib(self, name: &str, size: i32, stride: i32, offset: usize) -> (data:
        BufferData)
        ensures
            data@ == self@.with_attrib((AttribView { name: name@, size, stride, offset })),
    {
        let mut data = self;
        data.attribs.push(AttribInfo(name.to_owned(), size, stride, offset));
        data
    }

    /// Appends an attribute bound at shader input `index`.
    pub fn with_input(self, index: u32, size: i32, stride: i32, offset: usize) -> (data:
        BufferData)
        ensures
            data@ == self@.with_input((InputView { index, size, stride, offset })),
    {
        let mut data = self;
        data.inputs.push(ShaderInputInfo(index, size, stride, offset));
        data
    }

    /// Tells whether a renderer can be set up from this data: whether
    /// scaling to bytes stays within the types GL takes.
    pub fn fits(&self) -> (ok: bool)
        ensures
            ok == self@.fits(),
    {
        if let Some(vertices) = &self.vertices {
            if vertices.len() > isize::MAX as usize / 4 {
                return false;
            }
        }
        let mut i: usize = 0;
        while i < self.attribs.len()
            invariant
                i <= self.attribs.len(),
                forall|k: int| 0 <= k < i ==> (#[trigger] self@.attribs[k]).fits(),
            decreases self.attribs.len() - i,
        {
            let attrib = &self.attribs[i];
            if !layout_in_range(attrib.2, attrib.3) {
                assert(!self@.attribs[i as int].fits());
                return false;
            }
            i += 1;
        }
        let mut j: usize = 0;
        while j < self.inputs.len()
            invariant
                j <= self.inputs.len(),
                forall|k: int| 0 <= k < j ==> (#[trigger] self@.inputs[k]).fits(),
            decreases self.inputs.len() - j,
        {
            let input = &self.inputs[j];
            if !layout_in_range(input.2, input.3) {
                assert(!self@.inputs[j as int].fits());
                return false;
            }
            j += 1;
        }
        true
    }
}

} // verus!
