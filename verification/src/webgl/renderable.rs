use crate::shared::Binding;
use crate::webgl::err::Error;
use crate::webgl::internal::Buffer;
use crate::webgl::sys;
use crate::webgl::vertex_buffer::VertexBuffer;
use std::rc::Rc;
use vstd::prelude::*;
use web_sys::WebGl2RenderingContext;
use web_sys::WebGlVertexArrayObject;

verus! {

/// A vertex array object the renderable has built for one pipeline.
pub(crate) struct VertexArray {
    pub(crate) context: Rc<WebGl2RenderingContext>,
    pub(crate) vertex_array: WebGlVertexArrayObject,
}

/// A named set of vertex buffers, materialized into one vertex array object
/// per pipeline the first time it is drawn with that pipeline.
pub struct Renderable {
    pub(crate) vertex_arrays: Vec<(u32, VertexArray)>,
    pub(crate) vertex_buffers: Vec<(u32, Rc<Buffer>)>,
}

impl Renderable {
    /// The pipeline counters a vertex array object has been built for, in
    /// the order they were built.
    pub closed spec fn vao_keys(self) -> Seq<u32> {
        Seq::new(self.vertex_arrays@.len(), |i: int| self.vertex_arrays@[i].0)
    }

    /// Whether a vertex array object has been built for that pipeline.
    pub open spec fn has_vao(self, pipeline_index: u32) -> bool {
        self.vao_keys().contains(pipeline_index)
    }

    /// Whether this renderable holds the same vertex buffers as `other`.
    pub closed spec fn same_buffers(self, other: Renderable) -> bool {
        self.vertex_buffers == other.vertex_buffers
    }

    /// Whether the held buffers are exactly those of `sources`, slot for
    /// slot.
    pub closed spec fn buffers_from(self, sources: Seq<(u32, &VertexBuffer)>) -> bool {
        self.vertex_buffers@.len() == sources.len() && forall|i: int|
            0 <= i < sources.len() ==> (#[trigger] self.vertex_buffers@[i]).0 == sources[i].0
                && self.vertex_buffers@[i].1 == sources[i].1.buffer
    }

    /// Keep a handle to each given vertex buffer, under its binding slot,
    /// with no vertex array object built yet.
    pub(crate) fn new(vertex_buffers: &[(u32, &VertexBuffer)]) -> (r: Result<Renderable, Error>)
        ensures
            r matches Ok(rend) && rend.vao_keys() == Seq::<u32>::empty() && rend.buffers_from(
                vertex_buffers@,
            ),
    {
        let mut held: Vec<(u32, Rc<Buffer>)> = Vec::new();
        let mut i: usize = 0;
        while i < vertex_buffers.len()
            invariant
                i <= vertex_buffers@.len(),
                held@.len() == i,
                forall|j: int|
                    0 <= j < i ==> (#[trigger] held@[j]).0 == vertex_buffers@[j].0 && held@[j].1
                        == vertex_buffers@[j].1.buffer,
            decreases vertex_buffers@.len() - i,
        {
            let (slot, vertex_buffer) = vertex_buffers[i];
            held.push((slot, sys::rc_clone(&vertex_buffer.buffer)));
            i = i + 1;
        }
        let rend = Renderable { vertex_arrays: Vec::new(), vertex_buffers: held };
        proof {
            assert(rend.vao_keys() =~= Seq::<u32>::empty());
        }
        Ok(rend)
    }

    /// Bind the vertex array object that belongs to `pipeline_index`. On its
    /// first use under that pipeline it is built from `bindings` first: each
    /// binding whose slot names a held buffer becomes one attribute pointer
    /// into that buffer. The built object is cached under the pipeline's
    /// counter; nothing else about the renderable changes.
    pub(crate) fn bind_vao(
        &mut self,
        gl: &Rc<WebGl2RenderingContext>,
        pipeline_index: u32,
        bindings: &Vec<Binding>,
    ) -> (r: Result<(), Error>)
        ensures
            final(self).same_buffers(*old(self)),
            r is Ok ==> final(self).has_vao(pipeline_index),
            old(self).has_vao(pipeline_index) ==> (r is Ok && *final(self) == *old(self)),
            r is Ok && !old(self).has_vao(pipeline_index) ==> final(self).vao_keys() == old(
                self,
            ).vao_keys().push(pipeline_index),
            r is Err ==> *final(self) == *old(self),
            r matches Err(e) ==> e is Message,
    {
        let mut found: Option<usize> = None;
        let mut i: usize = 0;
        while i < self.vertex_arrays.len() && found.is_none()
            invariant
                *self == *old(self),
                i <= self.vertex_arrays@.len(),
                found matches Some(k) ==> k < self.vertex_arrays@.len()
                    && self.vertex_arrays@[k as int].0 == pipeline_index,
                found is None ==> forall|j: int|
                    0 <= j < i ==> (#[trigger] self.vertex_arrays@[j]).0 != pipeline_index,
            decreases self.vertex_arrays@.len() - i, (if found is None { 1int } else { 0int }),
        {
            if self.vertex_arrays[i].0 == pipeline_index {
                found = Some(i);
            } else {
                i = i + 1;
            }
        }
        match found {
            Some(k) => {
                sys::gl_bind_vertex_array(gl, Some(&self.vertex_arrays[k].1.vertex_array));
                proof {
                    assert(self.vao_keys()[k as int] == pipeline_index);
                    assert(self.has_vao(pipeline_index));
                }
                Ok(())
            },
            None => {
                proof {
                    assert forall|j: int| 0 <= j < self.vao_keys().len() implies self.vao_keys()[j]
                        != pipeline_index by {
                        assert(self.vertex_arrays@[j].0 != pipeline_index);
                    }
                    assert(!self.has_vao(pipeline_index));
                }
                let vertex_array = match sys::gl_create_vertex_array(gl) {
                    Some(vertex_array) => vertex_array,
                    None => {
                        return Err(
                            Error::Message(
                                "drawing renderable: creating webgl vertex array object".to_owned(),
                            ),
                        );
                    },
                };
                sys::gl_bind_vertex_array(gl, Some(&vertex_array));
                let mut b: usize = 0;
                while b < bindings.len()
                    invariant
                        *self == *old(self),
                        b <= bindings@.len(),
                    decreases bindings@.len() - b,
                {
                    let binding = bindings[b];
                    let mut matched: Option<usize> = None;
                    let mut v: usize = 0;
                    while v < self.vertex_buffers.len() && matched.is_none()
                        invariant
                            *self == *old(self),
                            v <= self.vertex_buffers@.len(),
                            matched matches Some(m) ==> m < self.vertex_buffers@.len(),
                        decreases self.vertex_buffers@.len() - v, (if matched is None { 1int } else { 0int }),
                    {
                        if self.vertex_buffers[v].0 == binding.buffer {
                            matched = Some(v);
                        } else {
                            v = v + 1;
                        }
                    }
                    if let Some(m) = matched {
                        sys::gl_bind_buffer(
                            gl,
                            sys::GL_ARRAY_BUFFER,
                            Some(&self.vertex_buffers[m].1.buffer),
                        );
                        sys::gl_vertex_attrib_pointer(
                            gl,
                            binding.attribute,
                            4,
                            sys::GL_FLOAT,
                            false,
                            #[verifier::truncate] (binding.stride as i32),
                            #[verifier::truncate] (binding.offset as i32),
                        );
                        sys::gl_vertex_attrib_divisor(
                            gl,
                            binding.attribute,
                            if binding.instanced {
                                1
                            } else {
                                0
                            },
                        );
                        sys::gl_enable_vertex_attrib_array(gl, binding.attribute);
                    }
                    b = b + 1;
                }
                self.vertex_arrays.push(
                    (pipeline_index, VertexArray { context: sys::rc_clone(gl), vertex_array }),
                );
                proof {
                    assert(self.vao_keys() =~= old(self).vao_keys().push(pipeline_index));
                    assert(self.vao_keys().last() == pipeline_index);
                    assert(self.has_vao(pipeline_index));
                }
                Ok(())
            },
        }
    }
}

} // verus!
