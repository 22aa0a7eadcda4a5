//! One renderable entity, and how its geometry reaches the graphics
//! context.

use crate::buffers::{Buffers, BuffersView};
use crate::bytes::{cast_words, is_memory_of};
use crate::command::{Command, CommandView};
use crate::data::{Color, Id, ObjectData, ObjectDataView, RawObjectData, RawObjectDataUnit, Vector};
use crate::err::Error;
use crate::geometry::{
    cube_index_table, cube_indices, cube_vertex_table, cube_vertices, flat_cube_index_table,
    flat_cube_indices, flat_cube_vertex_table, flat_cube_vertices,
};
use crate::gl::{
    array_buffer, element_array_buffer, float, spec_array_buffer, spec_element_array_buffer,
    spec_float, spec_static_draw, spec_triangle_strip, spec_triangles, spec_unsigned_byte,
    static_draw, triangle_strip, triangles, unsigned_byte,
};
use crate::program::{Program, ProgramUnit};
use glow::{NativeBuffer, NativeVertexArray};
use vstd::prelude::*;
use vstd::slice::slice_to_vec;

verus! {

/// Bytes in one vertex word.
pub const WORD_BYTES: i32 = 4;

/// Words in a position, and in a normal.
pub const VECTOR_WORDS: i32 = 3;

/// Bytes from one vertex to the next: a position, and a normal where the
/// vertices carry one.
pub open spec fn stride_bytes(has_norms: bool) -> i32 {
    if has_norms {
        24
    } else {
        12
    }
}

/// The calls that upload one entity's geometry, in order: bind the vertex
/// array; bind and fill the vertex buffer; bind and fill the index buffer;
/// describe the position as attribute 0, and the normal as attribute 1
/// where the vertices carry one; unbind all three.
pub open spec fn upload_commands(
    buffers: BuffersView,
    vertices: Seq<u8>,
    indices: Seq<u8>,
    has_norms: bool,
) -> Seq<CommandView> {
    let bind = seq![
        CommandView::BindVertexArray { vertex_array: Some(buffers.vao) },
        CommandView::BindBuffer { target: spec_array_buffer(), buffer: Some(buffers.vbo) },
        CommandView::BufferData {
            target: spec_array_buffer(),
            data: vertices,
            usage: spec_static_draw(),
        },
        CommandView::BindBuffer { target: spec_element_array_buffer(), buffer: Some(buffers.ebo) },
        CommandView::BufferData {
            target: spec_element_array_buffer(),
            data: indices,
            usage: spec_static_draw(),
        },
        CommandView::EnableVertexAttribArray { index: 0 },
        CommandView::VertexAttribPointer {
            index: 0,
            size: 3,
            data_type: spec_float(),
            normalized: false,
            stride: stride_bytes(has_norms),
            offset: 0,
        },
    ];
    let norms = if has_norms {
        seq![
            CommandView::EnableVertexAttribArray { index: 1 },
            CommandView::VertexAttribPointer {
                index: 1,
                size: 3,
                data_type: spec_float(),
                normalized: false,
                stride: stride_bytes(has_norms),
                offset: 12,
            },
        ]
    } else {
        Seq::empty()
    };
    let unbind = seq![
        CommandView::BindVertexArray { vertex_array: None },
        CommandView::BindBuffer { target: spec_array_buffer(), buffer: None },
        CommandView::BindBuffer { target: spec_element_array_buffer(), buffer: None },
    ];
    bind + norms + unbind
}

/// What an [`Object`] holds.
pub struct ObjectView {
    pub program: Program,
    pub buffers: Buffers,
    pub data: ObjectDataView,
    pub mode: u32,
    pub element_type: u32,
    pub len: i32,
}

/// One renderable entity: the program it is drawn with, the buffers that
/// hold its geometry, how the indices are to be read, and its data.
#[derive(Clone, Copy, Debug)]
pub struct Object {
    program: Program,
    buffers: Buffers,
    data: ObjectData,
    mode: u32,
    element_type: u32,
    len: i32,
}

impl View for Object {
    type V = ObjectView;

    closed spec fn view(&self) -> ObjectView {
        ObjectView {
            program: self.program,
            buffers: self.buffers,
            data: self.data@,
            mode: self.mode,
            element_type: self.element_type,
            len: self.len,
        }
    }
}

/// Geometry as it is handed to the context: the vertex words, the one-byte
/// indices, how the indices are assembled into primitives, the type of one
/// index, and whether a normal follows each position.
pub struct Shape {
    pub vertices: Seq<u32>,
    pub indices: Seq<u8>,
    pub mode: u32,
    pub element_type: u32,
    pub has_norms: bool,
}

/// The flat cube: eight vertices of a position each and fourteen indices,
/// drawn as one triangle strip.
pub open spec fn flat_cube() -> Shape {
    Shape {
        vertices: flat_cube_vertices(),
        indices: flat_cube_indices(),
        mode: spec_triangle_strip(),
        element_type: spec_unsigned_byte(),
        has_norms: false,
    }
}

/// The shaded cube: twenty-four vertices of a position and a normal each
/// and thirty-six indices, drawn as triangles.
pub open spec fn cube() -> Shape {
    Shape {
        vertices: cube_vertices(),
        indices: cube_indices(),
        mode: spec_triangles(),
        element_type: spec_unsigned_byte(),
        has_norms: true,
    }
}

/// The cube that suits a program: the flat one for a program that reads
/// positions only, the shaded one for a program that reads normals.
pub open spec fn cube_for(kind: ProgramUnit) -> Shape {
    match kind {
        ProgramUnit::Simple => flat_cube(),
        ProgramUnit::Normal => cube(),
    }
}

/// Whether `commands` upload `shape` into `buffers`: its vertex words as
/// the machine holds them in memory, and its indices as they are.
pub open spec fn uploads(commands: Seq<CommandView>, buffers: BuffersView, shape: Shape) -> bool {
    exists|bytes: Seq<u8>|
        #![trigger is_memory_of(bytes, shape.vertices)]
        is_memory_of(bytes, shape.vertices) && commands == upload_commands(
            buffers,
            bytes,
            shape.indices,
            shape.has_norms,
        )
}

/// The entity that is built of `shape` for `data`: drawn with `program`
/// from `buffers`, with the model transform computed.
pub open spec fn built(
    program: Program,
    buffers: Buffers,
    shape: Shape,
    data: ObjectDataView,
) -> ObjectView {
    ObjectView {
        program,
        buffers,
        data: data.updated(),
        mode: shape.mode,
        element_type: shape.element_type,
        len: shape.indices.len() as i32,
    }
}

/// What building an entity gives. Where the context had created the
/// buffers: the entity, and the calls that upload its geometry. Where it
/// had refused: its refusal, handed on as it came.
pub open spec fn build_result(
    alloc: Result<Buffers, Error>,
    out: Result<(Object, Vec<Command>), Error>,
    program: Program,
    shape: Shape,
    data: ObjectDataView,
) -> bool {
    match alloc {
        Ok(buffers) => {
            &&& out matches Ok((object, commands))
            &&& object@ == built(program, buffers, shape, data)
            &&& uploads(commands.deep_view(), buffers@, shape)
        },
        Err(error) => out == Err::<(Object, Vec<Command>), Error>(error),
    }
}

/// The data that a new entity starts with, before its model transform is
/// first computed.
pub open spec fn initial_data(
    id: Id,
    color: Color,
    kind: RawObjectDataUnit,
    pos: Vector,
    dim: Vector,
) -> ObjectDataView {
    ObjectDataView {
        id,
        color,
        raw: RawObjectData::spec_of_kind(kind, pos, dim),
        model: crate::data::identity(),
    }
}

/// The bytes of the vertex data among the calls of an upload.
pub open spec fn uploaded_vertex_bytes(commands: Seq<CommandView>) -> Seq<u8> {
    match commands[2] {
        CommandView::BufferData { data, .. } => data,
        _ => Seq::empty(),
    }
}

/// The bytes of the index data among the calls of an upload.
pub open spec fn uploaded_index_bytes(commands: Seq<CommandView>) -> Seq<u8> {
    match commands[4] {
        CommandView::BufferData { data, .. } => data,
        _ => Seq::empty(),
    }
}

impl Object {
    fn new(
        program: Program,
        buffers: Buffers,
        mode: u32,
        element_type: u32,
        len: i32,
        data: ObjectData,
    ) -> (out: Self)
        ensures
            out@ == (ObjectView { program, buffers, data: data@, mode, element_type, len }),
    {
        Object { program, buffers, data, mode, element_type, len }
    }

    /// Builds an entity from raw geometry.
    ///
    /// `alloc` is what the context answered when it was asked for the three
    /// buffers. Where it refused, the refusal is handed on and nothing is
    /// built. Otherwise the entity is returned with its model transform
    /// computed, together with the calls that upload `vertices` and
    /// `indices` as they are. `vertices` are words of three to a vertex, or
    /// of six where `has_norms` says that a normal follows each position;
    /// `indices` are one byte each.
    pub fn from_raw(
        alloc: Result<Buffers, Error>,
        program: Program,
        vertices: &[u32],
        indices: &[u8],
        mode: u32,
        element_type: u32,
        data: ObjectData,
        has_norms: bool,
    ) -> (out: Result<(Object, Vec<Command>), Error>)
        requires
            indices@.len() <= i32::MAX,
        ensures
            build_result(
                alloc,
                out,
                program,
                Shape {
                    vertices: vertices@,
                    indices: indices@,
                    mode,
                    element_type,
                    has_norms,
                },
                data@,
            ),
            out is Ok <==> alloc is Ok,
    {
        let buffers = match alloc {
            Ok(buffers) => buffers,
            Err(error) => {
                return Err(error);
            },
        };
        let mut stride: i32 = VECTOR_WORDS;
        if has_norms {
            stride += VECTOR_WORDS;
        }
        let vertex_bytes = cast_words(vertices);
        let mut commands: Vec<Command> = Vec::new();
        commands.push(Command::BindVertexArray { vertex_array: Some(buffers.vao()) });
        commands.push(Command::BindBuffer { target: array_buffer(), buffer: Some(buffers.vbo()) });
        commands.push(
            Command::BufferData {
                target: array_buffer(),
                data: slice_to_vec(vertex_bytes),
                usage: static_draw(),
            },
        );
        commands.push(
            Command::BindBuffer { target: element_array_buffer(), buffer: Some(buffers.ebo()) },
        );
        commands.push(
            Command::BufferData {
                target: element_array_buffer(),
                data: slice_to_vec(indices),
                usage: static_draw(),
            },
        );
        commands.push(Command::EnableVertexAttribArray { index: 0 });
        commands.push(
            Command::VertexAttribPointer {
                index: 0,
                size: VECTOR_WORDS,
                data_type: float(),
                normalized: false,
                stride: stride * WORD_BYTES,
                offset: 0,
            },
        );
        if has_norms {
            commands.push(Command::EnableVertexAttribArray { index: 1 });
            commands.push(
                Command::VertexAttribPointer {
                    index: 1,
                    size: VECTOR_WORDS,
                    data_type: float(),
                    normalized: false,
                    stride: stride * WORD_BYTES,
                    offset: VECTOR_WORDS * WORD_BYTES,
                },
            );
        }
        commands.push(Command::BindVertexArray { vertex_array: None });
        commands.push(Command::BindBuffer { target: array_buffer(), buffer: None });
        commands.push(Command::BindBuffer { target: element_array_buffer(), buffer: None });
        assert(commands.deep_view() =~= upload_commands(
            buffers@,
            vertex_bytes@,
            indices@,
            has_norms,
        ));
        proof {
            let shape = Shape {
                vertices: vertices@,
                indices: indices@,
                mode,
                element_type,
                has_norms,
            };
            assert(is_memory_of(vertex_bytes@, shape.vertices));
            assert(uploads(commands.deep_view(), buffers@, shape));
        }
        let mut data = data;
        data.model_upt();
        let len = indices.len() as i32;
        Ok((Object::new(program, buffers, mode, element_type, len, data), commands))
    }

    /// Builds a flat cube (8 vertices, 14 indices) for a new entity of
    /// `kind`. A player takes no dimensions: `dim` is then left aside.
    pub fn create_flat_cube(
        alloc: Result<Buffers, Error>,
        program: Program,
        pos: Vector,
        dim: Vector,
        color: Color,
        id: Id,
        kind: RawObjectDataUnit,
    ) -> (out: Result<(Object, Vec<Command>), Error>)
        ensures
            build_result(alloc, out, program, flat_cube(), initial_data(id, color, kind, pos, dim)),
            out is Ok <==> alloc is Ok,
            out matches Ok((object, commands)) ==> {
                &&& object@.len == 14
                &&& object@.data.id == id
                &&& object@.data.color == color
                &&& object@.data.kind() == kind
                &&& uploaded_vertex_bytes(commands.deep_view()).len() == 8 * 3 * 4
                &&& uploaded_index_bytes(commands.deep_view()) == flat_cube_indices()
            },
    {
        let raw_data = RawObjectData::of_kind(kind, pos, dim);
        let data = ObjectData::new(id, color, raw_data);
        Self::create_flat_cube_with(alloc, program, data)
    }

    /// Builds a flat cube (8 vertices, 14 indices) around `data`: positions
    /// only, drawn as one triangle strip.
    pub fn create_flat_cube_with(
        alloc: Result<Buffers, Error>,
        program: Program,
        data: ObjectData,
    ) -> (out: Result<(Object, Vec<Command>), Error>)
        ensures
            build_result(alloc, out, program, flat_cube(), data@),
            out is Ok <==> alloc is Ok,
            out matches Ok((object, commands)) ==> {
                &&& object@.len == 14
                &&& uploaded_vertex_bytes(commands.deep_view()).len() == 8 * 3 * 4
                &&& uploaded_index_bytes(commands.deep_view()) == flat_cube_indices()
            },
    {
        let vertices = flat_cube_vertex_table();
        let indices = flat_cube_index_table();
        Self::from_raw(
            alloc,
            program,
            vertices.as_slice(),
            indices.as_slice(),
            triangle_strip(),
            unsigned_byte(),
            data,
            false,
        )
    }

    /// Builds the cube that suits `program` for a new entity of `kind`: the
    /// flat one for a simple program, the shaded one for a program that
    /// reads normals. A player takes no dimensions: `dim` is then left
    /// aside.
    pub fn create_cube(
        alloc: Result<Buffers, Error>,
        program: Program,
        pos: Vector,
        dim: Vector,
        color: Color,
        id: Id,
        kind: RawObjectDataUnit,
    ) -> (out: Result<(Object, Vec<Command>), Error>)
        ensures
            build_result(
                alloc,
                out,
                program,
                cube_for(program@.kind),
                initial_data(id, color, kind, pos, dim),
            ),
            out is Ok <==> alloc is Ok,
            out matches Ok((object, commands)) ==> {
                &&& object@.len == (match program@.kind {
                    ProgramUnit::Simple => 14i32,
                    ProgramUnit::Normal => 36i32,
                })
                &&& object@.data.id == id
                &&& object@.data.color == color
                &&& object@.data.kind() == kind
            },
    {
        let raw_data = RawObjectData::of_kind(kind, pos, dim);
        let data = ObjectData::new(id, color, raw_data);
        match program.kind() {
            ProgramUnit::Simple => Self::create_flat_cube_with(alloc, program, data),
            ProgramUnit::Normal => Self::create_cube_with(alloc, program, data),
        }
    }

    /// Builds a shaded cube (24 vertices, 36 indices) around `data`: four
    /// vertices per face, each with the face's normal, drawn as triangles.
    pub fn create_cube_with(
        alloc: Result<Buffers, Error>,
        program: Program,
        data: ObjectData,
    ) -> (out: Result<(Object, Vec<Command>), Error>)
        ensures
            build_result(alloc, out, program, cube(), data@),
            out is Ok <==> alloc is Ok,
            out matches Ok((object, commands)) ==> {
                &&& object@.len == 36
                &&& uploaded_vertex_bytes(commands.deep_view()).len() == 24 * 6 * 4
                &&& uploaded_index_bytes(commands.deep_view()) == cube_indices()
            },
    {
        let vertices = cube_vertex_table();
        let indices = cube_index_table();
        Self::from_raw(
            alloc,
            program,
            vertices.as_slice(),
            indices.as_slice(),
            triangles(),
            unsigned_byte(),
            data,
            true,
        )
    }

    pub fn program(&self) -> (out: Program)
        ensures
            out == self@.program,
    {
        self.program
    }

    pub fn buffers(&self) -> (out: Buffers)
        ensures
            out == self@.buffers,
    {
        self.buffers
    }

    pub fn data(&self) -> (out: &ObjectData)
        ensures
            out@ == self@.data,
    {
        &self.data
    }

    /// The data, to be changed in place. Whoever moves or resizes the
    /// entity through it calls [`ObjectData::model_upt`] afterwards.
    pub fn data_mut(&mut self) -> (out: &mut ObjectData)
        ensures
            out@ == old(self)@.data,
            final(self)@ == (ObjectView { data: final(out)@, ..old(self)@ }),
    {
        &mut self.data
    }

    pub fn vao(&self) -> (out: NativeVertexArray)
        ensures
            out == self@.buffers@.vao,
    {
        self.buffers.vao()
    }

    pub fn vbo(&self) -> (out: NativeBuffer)
        ensures
            out == self@.buffers@.vbo,
    {
        self.buffers.vbo()
    }

    pub fn ebo(&self) -> (out: NativeBuffer)
        ensures
            out == self@.buffers@.ebo,
    {
        self.buffers.ebo()
    }

    pub fn id(&self) -> (out: Id)
        ensures
            out == self@.data.id,
    {
        self.data.id()
    }

    /// The channels of the colour.
    pub fn color(&self) -> (out: &[u32])
        ensures
            out@ == self@.data.color@,
    {
        self.data.color()
    }

    /// How the indices are assembled into primitives.
    pub fn mode(&self) -> (out: u32)
        ensures
            out == self@.mode,
    {
        self.mode
    }

    /// The type of one index.
    pub fn element_type(&self) -> (out: u32)
        ensures
            out == self@.element_type,
    {
        self.element_type
    }

    /// How many indices there are to draw.
    pub fn len(&self) -> (out: i32)
        ensures
            out == self@.len,
    {
        self.len
    }
}

impl core::ops::Deref for Object {
    type Target = ObjectData;

    /// The data: what is asked of an entity and not found on it is asked of
    /// its data.
    fn deref(&self) -> (out: &ObjectData)
        ensures
            out@ == self@.data,
    {
        &self.data
    }
}

impl core::ops::DerefMut for Object {
    /// The data, to be changed in place.
    fn deref_mut(&mut self) -> (out: &mut ObjectData)
        ensures
            out@ == old(self)@.data,
            final(self)@ == (ObjectView { data: final(out)@, ..old(self)@ }),
    {
        &mut self.data
    }
}

} // verus!
