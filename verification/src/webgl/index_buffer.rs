use crate::webgl::err::Error;
use crate::webgl::sys;
use std::rc::Rc;
use vstd::prelude::*;
use web_sys::WebGl2RenderingContext;
use web_sys::WebGlBuffer;

verus! {

/// A GPU-resident list of 16-bit indices, remembering how many it holds.
pub struct IndexBuffer {
    pub(crate) context: Rc<WebGl2RenderingContext>,
    pub(crate) buffer: WebGlBuffer,
    pub(crate) count: usize,
}

/// The little-endian byte image of a sequence of 16-bit indices: each index
/// contributes its low byte, then its high byte.
pub open spec fn le_bytes_of(s: Seq<u16>) -> Seq<u8> {
    Seq::new(
        2 * s.len(),
        |i: int|
            if i % 2 == 0 {
                (s[i / 2] & 0xff) as u8
            } else {
                (s[i / 2] >> 8) as u8
            },
    )
}

/// Lay a list of indices out as the bytes the GPU will read.
pub fn index_bytes(data: &[u16]) -> (bytes: Vec<u8>)
    ensures
        bytes@ == le_bytes_of(data@),
{
    let mut bytes: Vec<u8> = Vec::new();
    let mut i: usize = 0;
    while i < data.len()
        invariant
            i <= data@.len(),
            bytes@ =~= le_bytes_of(data@.take(i as int)),
        decreases data@.len() - i,
    {
        let x = data[i];
        bytes.push((x & 0xff) as u8);
        bytes.push((x >> 8) as u8);
        i = i + 1;
        proof {
            assert(bytes@ =~= le_bytes_of(data@.take(i as int)));
        }
    }
    proof {
        assert(data@.take(data@.len() as int) =~= data@);
    }
    bytes
}

impl IndexBuffer {
    /// How many indices the buffer holds.
    pub closed spec fn spec_count(self) -> usize {
        self.count
    }

    /// Upload `data` into a fresh GPU buffer and remember its length.
    pub fn from_slice(gl: &Rc<WebGl2RenderingContext>, data: &[u16]) -> (r: Result<
        IndexBuffer,
        Error,
    >)
        ensures
            r matches Ok(b) ==> b.spec_count() == data@.len(),
            r matches Err(e) ==> e is Message,
    {
        match sys::gl_create_buffer(gl) {
            Some(buffer) => {
                sys::gl_bind_buffer(gl, sys::GL_ELEMENT_ARRAY_BUFFER, Some(&buffer));
                let bytes = index_bytes(data);
                sys::gl_buffer_data_u8(
                    gl,
                    sys::GL_ARRAY_BUFFER,
                    bytes.as_slice(),
                    sys::GL_STATIC_DRAW,
                );
                Ok(IndexBuffer { context: sys::rc_clone(gl), buffer, count: data.len() })
            },
            None => Err(Error::Message("failed to create index buffer".to_owned())),
        }
    }

    /// How many indices the buffer holds.
    pub fn count(&self) -> (r: usize)
        ensures
            r == self.spec_count(),
    {
        self.count
    }
}

} // verus!
