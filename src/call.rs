use vstd::prelude::*;

verus! {

/// `GL_ELEMENT_ARRAY_BUFFER`: the binding target of index buffers.
pub open spec fn element_array_buffer_target() -> u32 {
    0x8893
}

/// `GL_STATIC_DRAW`: data written once and drawn many times.
pub open spec fn static_draw_usage() -> u32 {
    0x88E4
}

/// Relies on `gl::ELEMENT_ARRAY_BUFFER`, which the registry gives the value 0x8893.
#[verifier::external_body]
pub(crate) fn element_array_buffer() -> (r: u32)
    ensures
        r == element_array_buffer_target(),
{
    gl::ELEMENT_ARRAY_BUFFER
}

/// Relies on `gl::STATIC_DRAW`, which the registry gives the value 0x88E4.
#[verifier::external_body]
pub(crate) fn static_draw() -> (r: u32)
    ensures
        r == static_draw_usage(),
{
    gl::STATIC_DRAW
}

/// One OpenGL call on buffer objects, described as a value.
///
/// The library decides which calls an operation makes and with which
/// arguments; whoever holds the GL context performs them in order.
#[derive(Clone, Copy, Debug, PartialEq, Eq, Structural)]
pub enum BufferCall {
    /// `glBindBuffer(target, buffer)`; buffer 0 leaves the target unbound.
    Bind { target: u32, buffer: u32 },
    /// `glBufferData(target, size, data, usage)`, with `size` bytes of the
    /// caller's data.
    Data { target: u32, size: isize, usage: u32 },
    /// `glDeleteBuffers(1, &buffer)`.
    Delete { buffer: u32 },
}

} // verus!
