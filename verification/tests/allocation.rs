use glow::{NativeBuffer, NativeVertexArray};
use scene_objects::allocation::{Allocation, Reply, Request};
use scene_objects::buffers::Buffers;
use scene_objects::command::Command;
use scene_objects::err::{BlazedError, Error};
use std::num::NonZeroU32;

fn vertex_array(n: u32) -> NativeVertexArray {
    NativeVertexArray(NonZeroU32::new(n).unwrap())
}

fn buffer_object(n: u32) -> NativeBuffer {
    NativeBuffer(NonZeroU32::new(n).unwrap())
}

#[test]
fn allocation_asks_for_the_array_then_two_buffers() {
    let state = Allocation::new();
    assert_eq!(state.request(), Some(Request::VertexArray));
    let state = state.advance(Reply::VertexArray(Ok(vertex_array(1))));
    assert_eq!(state.request(), Some(Request::Buffer));
    let state = state.advance(Reply::Buffer(Ok(buffer_object(2))));
    assert_eq!(state.request(), Some(Request::Buffer));
    let state = state.advance(Reply::Buffer(Ok(buffer_object(3))));
    assert_eq!(state.request(), None);
    assert!(state.cleanup().is_empty());
    match state.finish() {
        Some(Ok(buffers)) => {
            assert_eq!(buffers, Buffers::new(vertex_array(1), buffer_object(2), buffer_object(3)))
        }
        other => panic!("unexpected end {:?}", other),
    }
}

#[test]
fn allocation_in_progress_has_no_end() {
    assert!(Allocation::new().finish().is_none());
    let state = Allocation::new().advance(Reply::VertexArray(Ok(vertex_array(1))));
    assert!(state.cleanup().is_empty());
    assert!(state.finish().is_none());
}

#[test]
fn refused_vertex_array_leaves_nothing_to_give_back() {
    let state = Allocation::new().advance(Reply::VertexArray(Err(String::from("no array"))));
    assert_eq!(state.request(), None);
    assert!(state.cleanup().is_empty());
    match state.finish() {
        Some(Err(error)) => assert_eq!(error.message(), "no array"),
        other => panic!("unexpected end {:?}", other),
    }
}

#[test]
fn refused_vertex_buffer_gives_the_array_back() {
    let state = Allocation::new()
        .advance(Reply::VertexArray(Ok(vertex_array(1))))
        .advance(Reply::Buffer(Err(String::from("no buffer"))));
    assert_eq!(state.request(), None);
    assert_eq!(
        state.cleanup(),
        vec![Command::DeleteVertexArray { vertex_array: vertex_array(1) }]
    );
    match state.finish() {
        Some(Err(error)) => assert_eq!(error.message(), "no buffer"),
        other => panic!("unexpected end {:?}", other),
    }
}

#[test]
fn refused_index_buffer_gives_array_and_vertex_buffer_back() {
    let state = Allocation::new()
        .advance(Reply::VertexArray(Ok(vertex_array(1))))
        .advance(Reply::Buffer(Ok(buffer_object(2))))
        .advance(Reply::Buffer(Err(String::from("no second buffer"))));
    assert_eq!(state.request(), None);
    assert_eq!(
        state.cleanup(),
        vec![
            Command::DeleteVertexArray { vertex_array: vertex_array(1) },
            Command::DeleteBuffer { buffer: buffer_object(2) },
        ]
    );
    match state.finish() {
        Some(Err(error)) => assert_eq!(error.message(), "no second buffer"),
        other => panic!("unexpected end {:?}", other),
    }
}

#[test]
fn an_answer_that_was_not_asked_for_changes_nothing() {
    let state = Allocation::new().advance(Reply::Buffer(Ok(buffer_object(2))));
    assert_eq!(state.request(), Some(Request::VertexArray));
    let state = state
        .advance(Reply::VertexArray(Ok(vertex_array(1))))
        .advance(Reply::VertexArray(Ok(vertex_array(5))));
    assert_eq!(state.request(), Some(Request::Buffer));
    let state = state
        .advance(Reply::Buffer(Ok(buffer_object(2))))
        .advance(Reply::Buffer(Ok(buffer_object(3))))
        .advance(Reply::Buffer(Err(String::from("late"))));
    match state.finish() {
        Some(Ok(buffers)) => {
            assert_eq!(buffers, Buffers::new(vertex_array(1), buffer_object(2), buffer_object(3)))
        }
        other => panic!("unexpected end {:?}", other),
    }
}

#[test]
fn error_keeps_the_words_of_the_context() {
    let error = Error::from(String::from("GL_OUT_OF_MEMORY"));
    assert_eq!(error.message(), "GL_OUT_OF_MEMORY");
    let Error::Blazed(inner) = error;
    assert_eq!(inner.message(), "GL_OUT_OF_MEMORY");
}

#[test]
fn error_from_a_blazed_error() {
    let inner = BlazedError::from(String::from("refused"));
    let error = Error::from(inner);
    assert_eq!(error.message(), "refused");
    assert_eq!(Error::refused(String::from("refused")).message(), "refused");
    assert_eq!(BlazedError::new(String::from("x")).message(), "x");
}
