use crate::shared::Binding;
use crate::shared::ClearColor;
use crate::webgl::err::Error;
use crate::webgl::internal::Program;
use crate::webgl::pipeline::Pipeline;
use crate::webgl::renderable::Renderable;
use crate::webgl::sys;
use crate::webgl::texture::Texture;
use crate::webgl::uniform_buffer::UniformBuffer;
use std::rc::Rc;
use vstd::prelude::*;
use web_sys::WebGl2RenderingContext;
use web_sys::WebGlUniformLocation;

verus! {

/// The per-frame recorder of drawing commands. It remembers which pipeline
/// is bound so that renderables can match their vertex array objects to it.
pub struct CommandBuffer {
    pub(crate) context: Rc<WebGl2RenderingContext>,
    pub(crate) clear_color: Option<ClearColor>,
    pub(crate) pipeline_index: u32,
    /// A reference to the shader program is needed to be able to set the
    /// uniform block binding.
    pub(crate) shader_program: Option<Rc<Program>>,
    pub(crate) bindings: Vec<Binding>,
}

impl CommandBuffer {
    /// The clear color the next pipeline bind will clear with, if any.
    pub closed spec fn spec_clear_color(self) -> Option<ClearColor> {
        self.clear_color
    }

    /// The counter of the pipeline bound last, 0 before any bind.
    pub closed spec fn spec_pipeline_index(self) -> u32 {
        self.pipeline_index
    }

    /// Whether a pipeline has been bound.
    pub closed spec fn spec_has_program(self) -> bool {
        self.shader_program is Some
    }

    /// The vertex-attribute bindings of the pipeline bound last.
    pub closed spec fn spec_bindings(self) -> Seq<Binding> {
        self.bindings@
    }

    /// Whether this buffer now works with the state of `pipeline`: its
    /// counter, its bindings and its shader program.
    pub closed spec fn bound_to(self, pipeline: Pipeline) -> bool {
        self.pipeline_index == pipeline.index && self.bindings@ == pipeline.bindings@
            && self.shader_program == Some(pipeline.shader_program)
    }

    /// A fresh recorder: no clear color, no pipeline, no bindings.
    pub(crate) fn new(gl: &Rc<WebGl2RenderingContext>) -> (r: Result<CommandBuffer, Error>)
        ensures
            r matches Ok(cb) && cb.spec_clear_color() is None && cb.spec_pipeline_index() == 0
                && !cb.spec_has_program() && cb.spec_bindings() == Seq::<Binding>::empty(),
    {
        Ok(
            CommandBuffer {
                context: sys::rc_clone(gl),
                clear_color: None,
                pipeline_index: 0,
                shader_program: None,
                bindings: Vec::new(),
            },
        )
    }

    /// Choose what the next pipeline bind clears the screen with; None
    /// leaves the previous frame in place.
    pub fn set_clear_color(&mut self, clear_color: Option<ClearColor>)
        ensures
            final(self).spec_clear_color() == clear_color,
            final(self).spec_pipeline_index() == old(self).spec_pipeline_index(),
            final(self).spec_has_program() == old(self).spec_has_program(),
            final(self).spec_bindings() == old(self).spec_bindings(),
    {
        self.clear_color = clear_color;
    }

    /// Bind a pipeline: clear if a clear color is set, apply the pipeline's
    /// depth and blend settings, and remember its program and bindings.
    pub fn use_pipeline(&mut self, pipeline: &Pipeline)
        ensures
            final(self).bound_to(*pipeline),
            final(self).spec_clear_color() == old(self).spec_clear_color(),
            final(self).spec_pipeline_index() == pipeline.spec_index(),
            final(self).spec_has_program(),
            final(self).spec_bindings() == pipeline.spec_bindings(),
    {
        let gl = &self.context;
        if let Some(color) = self.clear_color {
            sys::gl_clear_color_bits(
                gl,
                color.red_bits,
                color.green_bits,
                color.blue_bits,
                color.alpha_bits,
            );
            sys::gl_clear(gl, sys::GL_COLOR_BUFFER_BIT);
        }
        if pipeline.depth_test {
            sys::gl_enable(gl, sys::GL_DEPTH_TEST);
        } else {
            sys::gl_disable(gl, sys::GL_DEPTH_TEST);
        }
        sys::gl_depth_mask(gl, pipeline.depth_write);
        if pipeline.alpha_blend {
            sys::gl_blend_func(gl, sys::GL_SRC_ALPHA, sys::GL_ONE_MINUS_SRC_ALPHA);
            sys::gl_enable(gl, sys::GL_BLEND);
        } else {
            sys::gl_disable(gl, sys::GL_BLEND);
        }
        sys::gl_use_program(gl, Some(&pipeline.shader_program.program));
        self.pipeline_index = pipeline.index;
        self.shader_program = Some(sys::rc_clone(&pipeline.shader_program));
        let mut bindings: Vec<Binding> = Vec::new();
        let mut i: usize = 0;
        while i < pipeline.bindings.len()
            invariant
                i <= pipeline.bindings@.len(),
                bindings@ =~= pipeline.bindings@.take(i as int),
            decreases pipeline.bindings@.len() - i,
        {
            bindings.push(pipeline.bindings[i]);
            i = i + 1;
        }
        proof {
            assert(pipeline.bindings@.take(pipeline.bindings@.len() as int)
                =~= pipeline.bindings@);
        }
        self.bindings = bindings;
    }

    /// Attach a uniform buffer to a uniform block of the bound pipeline's
    /// program. Before any pipeline is bound there is no program, and the
    /// call does nothing.
    pub fn use_uniform(&mut self, uniform_buffer: &UniformBuffer, location: u32, binding: u32)
        ensures
            *final(self) == *old(self),
    {
        if let Some(shader_program) = &self.shader_program {
            let gl = &self.context;
            sys::gl_bind_buffer_base(
                gl,
                sys::GL_UNIFORM_BUFFER,
                binding,
                Some(&uniform_buffer.buffer.buffer),
            );
            sys::gl_uniform_block_binding(gl, &shader_program.program, location, binding);
        }
    }

    /// Put a texture into texture unit 0 and point the sampler at that
    /// location to it.
    pub fn use_texture(&mut self, texture: &Texture, location: WebGlUniformLocation, binding: u32)
        ensures
            *final(self) == *old(self),
    {
        let gl = &self.context;
        sys::gl_uniform1i(gl, Some(&location), #[verifier::truncate] (binding as i32));
        sys::gl_active_texture(gl, sys::GL_TEXTURE0);
        sys::gl_bind_texture(gl, sys::GL_TEXTURE_2D, Some(&texture.texture));
    }

    /// Draw the renderable with the bound pipeline. The first draw of a
    /// renderable under a pipeline builds a vertex array object for it and
    /// caches it under the pipeline's counter; later draws find it there.
    pub fn draw(&mut self, renderable: &mut Renderable, vertex_count: usize, instance_count: usize)
        -> (r: Result<(), Error>)
        ensures
            *final(self) == *old(self),
            final(renderable).same_buffers(*old(renderable)),
            r is Ok ==> final(renderable).has_vao(old(self).spec_pipeline_index()),
            old(renderable).has_vao(old(self).spec_pipeline_index()) ==> (r is Ok
                && *final(renderable) == *old(renderable)),
            r is Ok && !old(renderable).has_vao(old(self).spec_pipeline_index())
                ==> final(renderable).vao_keys() == old(renderable).vao_keys().push(
                old(self).spec_pipeline_index(),
            ),
            r is Err ==> *final(renderable) == *old(renderable),
            r matches Err(e) ==> e is Message,
    {
        let r = renderable.bind_vao(&self.context, self.pipeline_index, &self.bindings);
        match r {
            Ok(()) => {
                sys::gl_draw_arrays_instanced(
                    &self.context,
                    sys::GL_TRIANGLE_STRIP,
                    0,
                    #[verifier::truncate] (vertex_count as i32),
                    #[verifier::truncate] (instance_count as i32),
                );
                Ok(())
            },
            Err(e) => Err(e),
        }
    }

    /// Wait for the recorded commands to finish. The backends that need an
    /// explicit submission do it here, at the end of the frame.
    pub fn present(&mut self)
        ensures
            *final(self) == *old(self),
    {
        sys::gl_finish(&self.context);
    }
}

} // verus!
