//! Asking the graphics context for the three objects of one entity.
//!
//! The context is asked for a vertex array, then for a vertex buffer, then
//! for an index buffer, and may refuse each. The caller puts the questions;
//! what to ask next, what a refusal leaves to be given back and what comes
//! out in the end is decided here.

use crate::buffers::{Buffers, BuffersView};
use crate::command::{Command, CommandView};
use crate::err::Error;
use glow::{NativeBuffer, NativeVertexArray};
use vstd::prelude::*;

verus! {

/// What the context is to be asked for.
#[derive(Clone, Copy, Debug, PartialEq, Eq, Structural)]
pub enum Request {
    VertexArray,
    Buffer,
}

/// What the context answered: the object, or its words of refusal.
#[derive(Debug)]
pub enum Reply {
    VertexArray(Result<NativeVertexArray, String>),
    Buffer(Result<NativeBuffer, String>),
}

/// How far the allocation has come.
#[derive(Debug)]
pub enum Allocation {
    /// Nothing has been asked for yet.
    Start,
    /// The vertex array is there.
    WithVertexArray { vao: NativeVertexArray },
    /// The vertex array and the vertex buffer are there.
    WithVertexBuffer { vao: NativeVertexArray, vbo: NativeBuffer },
    /// All three objects are there.
    Ready { buffers: Buffers },
    /// The context refused. `vertex_array` and `buffer` are what it had
    /// created before.
    Failed { error: Error, vertex_array: Option<NativeVertexArray>, buffer: Option<NativeBuffer> },
}

impl Allocation {
    /// What is to be asked next; nothing once the allocation has ended.
    pub open spec fn spec_request(&self) -> Option<Request> {
        match *self {
            Allocation::Start => Some(Request::VertexArray),
            Allocation::WithVertexArray { .. } => Some(Request::Buffer),
            Allocation::WithVertexBuffer { .. } => Some(Request::Buffer),
            Allocation::Ready { .. } => None,
            Allocation::Failed { .. } => None,
        }
    }

    /// The state after `reply`. An answer to the question that was put
    /// moves the allocation on, or ends it where the context refused; any
    /// other answer leaves it where it is.
    pub open spec fn spec_advance(self, reply: Reply) -> Allocation {
        match (self, reply) {
            (Allocation::Start, Reply::VertexArray(Ok(vao))) => Allocation::WithVertexArray {
                vao,
            },
            (Allocation::Start, Reply::VertexArray(Err(message))) => Allocation::Failed {
                error: Error::spec_refused(message),
                vertex_array: None,
                buffer: None,
            },
            (
                Allocation::WithVertexArray { vao },
                Reply::Buffer(Ok(vbo)),
            ) => Allocation::WithVertexBuffer { vao, vbo },
            (
                Allocation::WithVertexArray { vao },
                Reply::Buffer(Err(message)),
            ) => Allocation::Failed {
                error: Error::spec_refused(message),
                vertex_array: Some(vao),
                buffer: None,
            },
            (
                Allocation::WithVertexBuffer { vao, vbo },
                Reply::Buffer(Ok(ebo)),
            ) => Allocation::Ready { buffers: Buffers::spec_new(vao, vbo, ebo) },
            (
                Allocation::WithVertexBuffer { vao, vbo },
                Reply::Buffer(Err(message)),
            ) => Allocation::Failed {
                error: Error::spec_refused(message),
                vertex_array: Some(vao),
                buffer: Some(vbo),
            },
            (state, _) => state,
        }
    }

    /// The calls that give back what a failed allocation had obtained: the
    /// vertex array, then the vertex buffer, as far as they were created.
    /// There is nothing to give back in any other state.
    pub open spec fn spec_cleanup(self) -> Seq<CommandView> {
        match self {
            Allocation::Failed { vertex_array, buffer, .. } => {
                let first = match vertex_array {
                    Some(vertex_array) => seq![CommandView::DeleteVertexArray { vertex_array }],
                    None => Seq::empty(),
                };
                let second = match buffer {
                    Some(buffer) => seq![CommandView::DeleteBuffer { buffer }],
                    None => Seq::empty(),
                };
                first + second
            },
            _ => Seq::empty(),
        }
    }

    /// How the allocation ended, if it has.
    pub open spec fn spec_finish(self) -> Option<Result<Buffers, Error>> {
        match self {
            Allocation::Ready { buffers } => Some(Ok(buffers)),
            Allocation::Failed { error, .. } => Some(Err(error)),
            _ => None,
        }
    }

    /// An allocation for which nothing has been asked yet.
    pub fn new() -> (out: Self)
        ensures
            out == Allocation::Start,
    {
        Allocation::Start
    }

    /// What is to be asked next; nothing once the allocation has ended.
    #[verifier::when_used_as_spec(spec_request)]
    pub fn request(&self) -> (out: Option<Request>)
        ensures
            out == self.spec_request(),
    {
        match self {
            Allocation::Start => Some(Request::VertexArray),
            Allocation::WithVertexArray { .. } => Some(Request::Buffer),
            Allocation::WithVertexBuffer { .. } => Some(Request::Buffer),
            Allocation::Ready { .. } => None,
            Allocation::Failed { .. } => None,
        }
    }

    /// Takes the context's answer.
    #[verifier::when_used_as_spec(spec_advance)]
    pub fn advance(self, reply: Reply) -> (out: Self)
        ensures
            out == self.spec_advance(reply),
    {
        match self {
            Allocation::Start => match reply {
                Reply::VertexArray(Ok(vao)) => Allocation::WithVertexArray { vao },
                Reply::VertexArray(Err(message)) => Allocation::Failed {
                    error: Error::refused(message),
                    vertex_array: None,
                    buffer: None,
                },
                _ => Allocation::Start,
            },
            Allocation::WithVertexArray { vao } => match reply {
                Reply::Buffer(Ok(vbo)) => Allocation::WithVertexBuffer { vao, vbo },
                Reply::Buffer(Err(message)) => Allocation::Failed {
                    error: Error::refused(message),
                    vertex_array: Some(vao),
                    buffer: None,
                },
                _ => Allocation::WithVertexArray { vao },
            },
            Allocation::WithVertexBuffer { vao, vbo } => match reply {
                Reply::Buffer(Ok(ebo)) => Allocation::Ready {
                    buffers: Buffers::new(vao, vbo, ebo),
                },
                Reply::Buffer(Err(message)) => Allocation::Failed {
                    error: Error::refused(message),
                    vertex_array: Some(vao),
                    buffer: Some(vbo),
                },
                _ => Allocation::WithVertexBuffer { vao, vbo },
            },
            state => state,
        }
    }

    /// The calls that give back what a failed allocation had obtained.
    pub fn cleanup(&self) -> (out: Vec<Command>)
        ensures
            out.deep_view() == self.spec_cleanup(),
    {
        let mut out: Vec<Command> = Vec::new();
        match self {
            Allocation::Failed { vertex_array, buffer, .. } => {
                match vertex_array {
                    Some(vertex_array) => {
                        out.push(Command::DeleteVertexArray { vertex_array: *vertex_array });
                    },
                    None => {},
                }
                match buffer {
                    Some(buffer) => {
                        out.push(Command::DeleteBuffer { buffer: *buffer });
                    },
                    None => {},
                }
            },
            _ => {},
        }
        assert(out.deep_view() =~= self.spec_cleanup());
        out
    }

    /// How the allocation ended: the three objects, or the failure. Nothing
    /// while there is still something to ask.
    #[verifier::when_used_as_spec(spec_finish)]
    pub fn finish(self) -> (out: Option<Result<Buffers, Error>>)
        ensures
            out == self.spec_finish(),
    {
        match self {
            Allocation::Ready { buffers } => Some(Ok(buffers)),
            Allocation::Failed { error, .. } => Some(Err(error)),
            _ => None,
        }
    }
}

/// Asked in order and answered three times with an object, an allocation is
/// ready with the three objects, and there is nothing to give back.
pub proof fn lemma_allocation_succeeds(vao: NativeVertexArray, vbo: NativeBuffer, ebo: NativeBuffer)
    ensures
        ({
            let end = Allocation::Start.spec_advance(Reply::VertexArray(Ok(vao))).spec_advance(
                Reply::Buffer(Ok(vbo)),
            ).spec_advance(Reply::Buffer(Ok(ebo)));
            &&& end.spec_request() is None
            &&& end.spec_finish() == Some(
                Ok::<Buffers, Error>(Buffers::spec_new(vao, vbo, ebo)),
            )
            &&& end.spec_cleanup() == Seq::<CommandView>::empty()
        }),
{
}

/// Whichever of the three questions the context refuses, the allocation
/// ends there with the context's words, and what is to be given back is
/// what had been created before, no more and no less.
pub proof fn lemma_allocation_fails(vao: NativeVertexArray, vbo: NativeBuffer, message: String)
    ensures
        ({
            let end = Allocation::Start.spec_advance(Reply::VertexArray(Err(message)));
            &&& end.spec_request() is None
            &&& end.spec_finish() == Some(Err::<Buffers, Error>(Error::spec_refused(message)))
            &&& end.spec_cleanup() == Seq::<CommandView>::empty()
        }),
        ({
            let end = Allocation::Start.spec_advance(Reply::VertexArray(Ok(vao))).spec_advance(
                Reply::Buffer(Err(message)),
            );
            &&& end.spec_request() is None
            &&& end.spec_finish() == Some(Err::<Buffers, Error>(Error::spec_refused(message)))
            &&& end.spec_cleanup() == seq![CommandView::DeleteVertexArray { vertex_array: vao }]
        }),
        ({
            let end = Allocation::Start.spec_advance(Reply::VertexArray(Ok(vao))).spec_advance(
                Reply::Buffer(Ok(vbo)),
            ).spec_advance(Reply::Buffer(Err(message)));
            &&& end.spec_request() is None
            &&& end.spec_finish() == Some(Err::<Buffers, Error>(Error::spec_refused(message)))
            &&& end.spec_cleanup() == seq![
                CommandView::DeleteVertexArray { vertex_array: vao },
                CommandView::DeleteBuffer { buffer: vbo },
            ]
        }),
{
    let second = Allocation::Start.spec_advance(Reply::VertexArray(Ok(vao))).spec_advance(
        Reply::Buffer(Err(message)),
    );
    assert(second.spec_cleanup() =~= seq![CommandView::DeleteVertexArray { vertex_array: vao }]);
    let third = Allocation::Start.spec_advance(Reply::VertexArray(Ok(vao))).spec_advance(
        Reply::Buffer(Ok(vbo)),
    ).spec_advance(Reply::Buffer(Err(message)));
    assert(third.spec_cleanup() =~= seq![
        CommandView::DeleteVertexArray { vertex_array: vao },
        CommandView::DeleteBuffer { buffer: vbo },
    ]);
}

/// An allocation that has ended takes no further answer, and one that has
/// not ended asks for something.
pub proof fn lemma_allocation_ends(state: Allocation, reply: Reply)
    ensures
        state.spec_request() is None <==> state.spec_finish() is Some,
        state.spec_request() is None ==> state.spec_advance(reply) == state,
{
}

} // verus!
