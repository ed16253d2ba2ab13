use vstd::prelude::*;

use crate::call::{
    element_array_buffer, element_array_buffer_target, static_draw, static_draw_usage, BufferCall,
};

verus! {

/// Number of bytes that `len` items of `size` bytes each take.
pub open spec fn byte_len(len: nat, size: nat) -> nat {
    len * size
}

/// The calls that fill the element buffer named `id` with `size` bytes under
/// the usage hint `usage`: bind it to the element target, then upload.
pub open spec fn fill_calls(id: u32, size: nat, usage: u32) -> Seq<BufferCall> {
    seq![
        BufferCall::Bind { target: element_array_buffer_target(), buffer: id },
        BufferCall::Data { target: element_array_buffer_target(), size: size as isize, usage: usage },
    ]
}

/// An OpenGL element buffer object: the name of a buffer that holds indices,
/// and the number of indices to draw from it.
#[derive(Clone, Copy)]
pub struct EBO {
    id: u32,
    count: u32,
}

impl EBO {
    /// A buffer name handed out by `glGenBuffers` is never 0.
    #[verifier::type_invariant]
    spec fn well_formed(self) -> bool {
        self.id != 0
    }

    /// The buffer's name.
    pub closed spec fn spec_id(self) -> u32 {
        self.id
    }

    /// The number of indices to draw.
    pub closed spec fn spec_count(self) -> u32 {
        self.count
    }

    /// The element buffer named `id`, which `glGenBuffers` handed out, filled
    /// with `indices` for static drawing. Returns it with the calls that
    /// fill it, in order.
    pub fn new<T>(id: u32, indices: &[T], count: u32) -> (r: (EBO, Vec<BufferCall>))
        requires
            id != 0,
            byte_len(indices@.len(), vstd::layout::size_of::<T>()) <= isize::MAX,
        ensures
            r.0.spec_id() == id,
            r.0.spec_count() == count,
            r.1@ == fill_calls(
                id,
                byte_len(indices@.len(), vstd::layout::size_of::<T>()),
                static_draw_usage(),
            ),
    {
        EBO::new_with_usage(id, indices, count, static_draw())
    }

    /// The element buffer named `id`, which `glGenBuffers` handed out, filled
    /// with `indices` under the given usage hint. Returns it with the calls
    /// that fill it, in order: bind the buffer to the element target, then
    /// upload every byte of `indices`.
    pub fn new_with_usage<T>(id: u32, indices: &[T], count: u32, usage: u32) -> (r: (
        EBO,
        Vec<BufferCall>,
    ))
        requires
            id != 0,
            byte_len(indices@.len(), vstd::layout::size_of::<T>()) <= isize::MAX,
        ensures
            r.0.spec_id() == id,
            r.0.spec_count() == count,
            r.1@ == fill_calls(id, byte_len(indices@.len(), vstd::layout::size_of::<T>()), usage),
    {
        let target = element_array_buffer();
        let size = indices.len() * core::mem::size_of::<T>();
        let mut calls: Vec<BufferCall> = Vec::new();
        calls.push(BufferCall::Bind { target: target, buffer: id });
        calls.push(BufferCall::Data { target: target, size: size as isize, usage: usage });
        (EBO { id: id, count: count }, calls)
    }

    /// The number of indices to draw.
    pub fn get_count(&self) -> (r: u32)
        ensures
            r == self.spec_count(),
    {
        self.count
    }

    /// The call that binds this buffer to the element target.
    pub fn bind(&self) -> (r: BufferCall)
        ensures
            r == (BufferCall::Bind { target: element_array_buffer_target(), buffer: self.spec_id() }),
            self.spec_id() != 0,
    {
        proof {
            use_type_invariant(self);
        }
        BufferCall::Bind { target: element_array_buffer(), buffer: self.id }
    }

    /// The call that leaves the element target unbound.
    pub fn unbind(&self) -> (r: BufferCall)
        ensures
            r == (BufferCall::Bind { target: element_array_buffer_target(), buffer: 0 }),
    {
        BufferCall::Bind { target: element_array_buffer(), buffer: 0 }
    }

    /// The call that deletes this buffer.
    pub fn del(&self) -> (r: BufferCall)
        ensures
            r == (BufferCall::Delete { buffer: self.spec_id() }),
            self.spec_id() != 0,
    {
        proof {
            use_type_invariant(self);
        }
        BufferCall::Delete { buffer: self.id }
    }
}

} // verus!
