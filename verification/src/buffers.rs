//! The three objects of the graphics context that hold one entity's
//! geometry.

use crate::command::{Command, CommandView};
use glow::{NativeBuffer, NativeVertexArray};
use vstd::prelude::*;

verus! {

/// What a [`Buffers`] holds.
pub struct BuffersView {
    pub vao: NativeVertexArray,
    pub vbo: NativeBuffer,
    pub ebo: NativeBuffer,
}

impl BuffersView {
    /// The calls that give the three objects back to the context: the
    /// vertex array first, then the vertex buffer, then the index buffer.
    pub open spec fn release(self) -> Seq<CommandView> {
        seq![
            CommandView::DeleteVertexArray { vertex_array: self.vao },
            CommandView::DeleteBuffer { buffer: self.vbo },
            CommandView::DeleteBuffer { buffer: self.ebo },
        ]
    }
}

/// A vertex array, a vertex buffer and an index buffer, created together
/// and given back together. Copying the value copies the names, not the
/// objects: whoever owns the entity gives them back, once.
#[derive(Clone, Copy, Debug, PartialEq, Eq)]
pub struct Buffers {
    vao: NativeVertexArray,
    vbo: NativeBuffer,
    ebo: NativeBuffer,
}

impl View for Buffers {
    type V = BuffersView;

    closed spec fn view(&self) -> BuffersView {
        BuffersView { vao: self.vao, vbo: self.vbo, ebo: self.ebo }
    }
}

impl Buffers {
    /// The three objects as one value.
    pub closed spec fn spec_new(
        vao: NativeVertexArray,
        vbo: NativeBuffer,
        ebo: NativeBuffer,
    ) -> Self {
        Buffers { vao, vbo, ebo }
    }

    /// The three objects as one value are those three objects.
    pub proof fn lemma_new(vao: NativeVertexArray, vbo: NativeBuffer, ebo: NativeBuffer)
        ensures
            Self::spec_new(vao, vbo, ebo)@ == (BuffersView { vao, vbo, ebo }),
    {
    }

    #[verifier::when_used_as_spec(spec_new)]
    pub fn new(vao: NativeVertexArray, vbo: NativeBuffer, ebo: NativeBuffer) -> (out: Self)
        ensures
            out == Self::spec_new(vao, vbo, ebo),
            out@ == (BuffersView { vao, vbo, ebo }),
    {
        Buffers { vao, vbo, ebo }
    }

    pub fn vao(&self) -> (out: NativeVertexArray)
        ensures
            out == self@.vao,
    {
        self.vao
    }

    pub fn vbo(&self) -> (out: NativeBuffer)
        ensures
            out == self@.vbo,
    {
        self.vbo
    }

    pub fn ebo(&self) -> (out: NativeBuffer)
        ensures
            out == self@.ebo,
    {
        self.ebo
    }

    /// The calls that give all three objects back to the context.
    pub fn release(&self) -> (out: Vec<Command>)
        ensures
            out.deep_view() == self@.release(),
    {
        let mut out: Vec<Command> = Vec::new();
        out.push(Command::DeleteVertexArray { vertex_array: self.vao });
        out.push(Command::DeleteBuffer { buffer: self.vbo });
        out.push(Command::DeleteBuffer { buffer: self.ebo });
        assert(out.deep_view() =~= self@.release());
        out
    }
}

} // verus!
