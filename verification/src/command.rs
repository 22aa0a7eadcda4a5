//! The calls that the graphics context is asked to make, as plain values.
//!
//! The library never talks to the context. It says which calls are to be
//! made, in which order, and the caller makes them.

use glow::{NativeBuffer, NativeVertexArray};
use vstd::prelude::*;

verus! {

/// One call on the graphics context that returns nothing.
#[derive(Debug, PartialEq, Eq)]
#[allow(inconsistent_fields)]
pub enum Command {
    /// Make a vertex array current, or none.
    BindVertexArray { vertex_array: Option<NativeVertexArray> },
    /// Make a buffer current at a binding target, or none.
    BindBuffer { target: u32, buffer: Option<NativeBuffer> },
    /// Fill the buffer that is current at `target` with `data`, byte for byte.
    BufferData { target: u32, data: Vec<u8>, usage: u32 },
    /// Switch a vertex attribute on.
    EnableVertexAttribArray { index: u32 },
    /// Say where a vertex attribute lies within the current vertex buffer.
    VertexAttribPointer {
        index: u32,
        size: i32,
        data_type: u32,
        normalized: bool,
        stride: i32,
        offset: i32,
    },
    /// Give a vertex array back to the context.
    DeleteVertexArray { vertex_array: NativeVertexArray },
    /// Give a buffer back to the context.
    DeleteBuffer { buffer: NativeBuffer },
}

/// A [`Command`] with its bytes as a sequence.
#[allow(inconsistent_fields)]
pub enum CommandView {
    BindVertexArray { vertex_array: Option<NativeVertexArray> },
    BindBuffer { target: u32, buffer: Option<NativeBuffer> },
    BufferData { target: u32, data: Seq<u8>, usage: u32 },
    EnableVertexAttribArray { index: u32 },
    VertexAttribPointer {
        index: u32,
        size: i32,
        data_type: u32,
        normalized: bool,
        stride: i32,
        offset: i32,
    },
    DeleteVertexArray { vertex_array: NativeVertexArray },
    DeleteBuffer { buffer: NativeBuffer },
}

impl View for Command {
    type V = CommandView;

    open spec fn view(&self) -> CommandView {
        match *self {
            Command::BindVertexArray { vertex_array } => CommandView::BindVertexArray {
                vertex_array,
            },
            Command::BindBuffer { target, buffer } => CommandView::BindBuffer { target, buffer },
            Command::BufferData { target, data, usage } => CommandView::BufferData {
                target,
                data: data@,
                usage,
            },
            Command::EnableVertexAttribArray { index } => CommandView::EnableVertexAttribArray {
                index,
            },
            Command::VertexAttribPointer {
                index,
                size,
                data_type,
                normalized,
                stride,
                offset,
            } => CommandView::VertexAttribPointer {
                index,
                size,
                data_type,
                normalized,
                stride,
                offset,
            },
            Command::DeleteVertexArray { vertex_array } => CommandView::DeleteVertexArray {
                vertex_array,
            },
            Command::DeleteBuffer { buffer } => CommandView::DeleteBuffer { buffer },
        }
    }
}

impl DeepView for Command {
    type V = CommandView;

    open spec fn deep_view(&self) -> CommandView {
        self@
    }
}

} // verus!
