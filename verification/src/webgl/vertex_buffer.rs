use crate::webgl::err::Error;
use crate::webgl::internal::Buffer;
use crate::webgl::sys;
use std::rc::Rc;
use vstd::prelude::*;
use web_sys::WebGl2RenderingContext;

verus! {

/// A GPU-resident region for vertex data, with a fixed capacity in bytes;
/// updates reupload at most that many bytes.
pub struct VertexBuffer {
    pub(crate) context: Rc<WebGl2RenderingContext>,
    pub(crate) buffer: Rc<Buffer>,
    pub(crate) capacity: usize,
}

impl VertexBuffer {
    /// The number of bytes that can be stored in this buffer.
    pub closed spec fn spec_capacity(self) -> usize {
        self.capacity
    }

    /// Make a buffer that will accept up to `capacity` bytes.
    pub fn with_capacity(gl: &Rc<WebGl2RenderingContext>, capacity: usize) -> (r: Result<
        VertexBuffer,
        Error,
    >)
        ensures
            r matches Ok(b) ==> b.spec_capacity() == capacity,
            r matches Err(e) ==> e is Message,
    {
        match sys::gl_create_buffer(gl) {
            Some(buffer) => {
                sys::gl_bind_buffer(gl, sys::GL_ARRAY_BUFFER, Some(&buffer));
                let empty: Vec<u8> = Vec::new();
                sys::gl_buffer_data_u8(
                    gl,
                    sys::GL_ARRAY_BUFFER,
                    empty.as_slice(),
                    sys::GL_DYNAMIC_DRAW,
                );
                Ok(
                    VertexBuffer {
                        context: sys::rc_clone(gl),
                        buffer: Rc::new(Buffer { context: sys::rc_clone(gl), buffer }),
                        capacity,
                    },
                )
            },
            None => Err(Error::Message("creating vertex buffer".to_owned())),
        }
    }

    /// Make a buffer holding a copy of `data`, whose capacity is its length.
    pub fn with_data(gl: &Rc<WebGl2RenderingContext>, data: &[u8]) -> (r: Result<
        VertexBuffer,
        Error,
    >)
        ensures
            r matches Ok(b) ==> b.spec_capacity() == data@.len(),
            r matches Err(e) ==> e is Message,
    {
        match sys::gl_create_buffer(gl) {
            Some(buffer) => {
                sys::gl_bind_buffer(gl, sys::GL_ARRAY_BUFFER, Some(&buffer));
                sys::gl_buffer_data_u8(gl, sys::GL_ARRAY_BUFFER, data, sys::GL_DYNAMIC_DRAW);
                Ok(
                    VertexBuffer {
                        context: sys::rc_clone(gl),
                        buffer: Rc::new(Buffer { context: sys::rc_clone(gl), buffer }),
                        capacity: data.len(),
                    },
                )
            },
            None => Err(Error::Message("creating vertex buffer".to_owned())),
        }
    }

    /// Reupload the buffer's contents. Data longer than the capacity is
    /// refused, and exactly then.
    pub fn update(&mut self, data: &[u8]) -> (r: Result<(), Error>)
        ensures
            *final(self) == *old(self),
            r is Ok <==> data@.len() <= old(self).spec_capacity(),
            r matches Err(e) ==> e is Message,
    {
        if data.len() > self.capacity {
            return Err(
                Error::Message(
                    "updating vertex buffer: new data is longer than buffer capacity".to_owned(),
                ),
            );
        }
        sys::gl_bind_buffer(&self.context, sys::GL_ARRAY_BUFFER, Some(&self.buffer.buffer));
        sys::gl_buffer_data_u8(&self.context, sys::GL_ARRAY_BUFFER, data, sys::GL_DYNAMIC_DRAW);
        Ok(())
    }

    /// The number of bytes that can be stored in this buffer.
    pub fn capacity(&self) -> (r: usize)
        ensures
            r == self.spec_capacity(),
    {
        self.capacity
    }
}

} // verus!
