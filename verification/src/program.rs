//! The shading program that an entity is drawn with.

use glow::NativeProgram;
use vstd::prelude::*;

verus! {

/// How a shading program lights what it draws.
#[derive(Clone, Copy, Debug, PartialEq, Eq, Structural)]
pub enum ProgramUnit {
    /// One colour, no lighting: positions are all it reads.
    Simple,
    /// Lit per face: it reads a normal with every position.
    Normal,
}

/// What a [`Program`] holds.
pub struct ProgramView {
    pub handle: NativeProgram,
    pub kind: ProgramUnit,
}

/// A linked shading program and its style. The program belongs to whoever
/// linked it; entities only refer to it.
#[derive(Clone, Copy, Debug, PartialEq, Eq)]
pub struct Program {
    handle: NativeProgram,
    kind: ProgramUnit,
}

impl View for Program {
    type V = ProgramView;

    closed spec fn view(&self) -> ProgramView {
        ProgramView { handle: self.handle, kind: self.kind }
    }
}

impl Program {
    pub fn new(handle: NativeProgram, kind: ProgramUnit) -> (out: Self)
        ensures
            out@ == (ProgramView { handle, kind }),
    {
        Program { handle, kind }
    }

    pub fn handle(&self) -> (out: NativeProgram)
        ensures
            out == self@.handle,
    {
        self.handle
    }

    pub fn kind(&self) -> (out: ProgramUnit)
        ensures
            out == self@.kind,
    {
        self.kind
    }
}

} // verus!
