//! Handles and enumerants of the graphics context.
//!
//! The context itself is never touched from here: the library decides which
//! calls are to be made and hands them out as [`crate::command::Command`]
//! values. This module only names what those calls carry.

use glow::{NativeBuffer, NativeProgram, NativeVertexArray};
use vstd::prelude::*;

verus! {

/// `glow::NativeBuffer`: a buffer object name handed out by the context.
/// Nothing is claimed of what is inside; values are only carried and compared.
#[verifier::external_type_specification]
#[verifier::external_body]
pub struct ExNativeBuffer(NativeBuffer);

/// `glow::NativeVertexArray`: a vertex array object name handed out by the
/// context. Nothing is claimed of what is inside.
#[verifier::external_type_specification]
#[verifier::external_body]
pub struct ExNativeVertexArray(NativeVertexArray);

/// `glow::NativeProgram`: the name of a linked shading program. Nothing is
/// claimed of what is inside.
#[verifier::external_type_specification]
#[verifier::external_body]
pub struct ExNativeProgram(NativeProgram);

/// Primitive mode: independent triangles.
pub open spec fn spec_triangles() -> u32 {
    0x0004
}

/// Primitive mode: one triangle strip.
pub open spec fn spec_triangle_strip() -> u32 {
    0x0005
}

/// Element type: one unsigned byte per index.
pub open spec fn spec_unsigned_byte() -> u32 {
    0x1401
}

/// Component type: 32-bit float.
pub open spec fn spec_float() -> u32 {
    0x1406
}

/// Binding target of vertex data.
pub open spec fn spec_array_buffer() -> u32 {
    0x8892
}

/// Binding target of index data.
pub open spec fn spec_element_array_buffer() -> u32 {
    0x8893
}

/// Usage hint: written once, drawn many times.
pub open spec fn spec_static_draw() -> u32 {
    0x88E4
}

/// Reads `glow::TRIANGLES`; the contract claims its value is 0x0004.
#[verifier::external_body]
#[verifier::when_used_as_spec(spec_triangles)]
pub(crate) fn triangles() -> (mode: u32)
    ensures
        mode == spec_triangles(),
{
    glow::TRIANGLES
}

/// Reads `glow::TRIANGLE_STRIP`; the contract claims its value is 0x0005.
#[verifier::external_body]
#[verifier::when_used_as_spec(spec_triangle_strip)]
pub(crate) fn triangle_strip() -> (mode: u32)
    ensures
        mode == spec_triangle_strip(),
{
    glow::TRIANGLE_STRIP
}

/// Reads `glow::UNSIGNED_BYTE`; the contract claims its value is 0x1401.
#[verifier::external_body]
#[verifier::when_used_as_spec(spec_unsigned_byte)]
pub(crate) fn unsigned_byte() -> (element_type: u32)
    ensures
        element_type == spec_unsigned_byte(),
{
    glow::UNSIGNED_BYTE
}

/// Reads `glow::FLOAT`; the contract claims its value is 0x1406.
#[verifier::external_body]
#[verifier::when_used_as_spec(spec_float)]
pub(crate) fn float() -> (data_type: u32)
    ensures
        data_type == spec_float(),
{
    glow::FLOAT
}

/// Reads `glow::ARRAY_BUFFER`; the contract claims its value is 0x8892.
#[verifier::external_body]
#[verifier::when_used_as_spec(spec_array_buffer)]
pub(crate) fn array_buffer() -> (target: u32)
    ensures
        target == spec_array_buffer(),
{
    glow::ARRAY_BUFFER
}

/// Reads `glow::ELEMENT_ARRAY_BUFFER`; the contract claims its value is 0x8893.
#[verifier::external_body]
#[verifier::when_used_as_spec(spec_element_array_buffer)]
pub(crate) fn element_array_buffer() -> (target: u32)
    ensures
        target == spec_element_array_buffer(),
{
    glow::ELEMENT_ARRAY_BUFFER
}

/// Reads `glow::STATIC_DRAW`; the contract claims its value is 0x88E4.
#[verifier::external_body]
#[verifier::when_used_as_spec(spec_static_draw)]
pub(crate) fn static_draw() -> (usage: u32)
    ensures
        usage == spec_static_draw(),
{
    glow::STATIC_DRAW
}

} // verus!
