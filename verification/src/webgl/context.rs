use crate::shared::Binding;
use crate::shared::PipelineDesc;
use crate::shared::TextureFilter;
use crate::webgl::command_buffer::CommandBuffer;
use crate::webgl::err::Error;
use crate::webgl::pipeline::Pipeline;
use crate::webgl::renderable::Renderable;
use crate::webgl::shader::Library;
use crate::webgl::shader::Shader;
use crate::webgl::sys;
use crate::webgl::texture::Texture;
use crate::webgl::uniform_buffer::UniformBuffer;
use crate::webgl::vertex_buffer::VertexBuffer;
use std::rc::Rc;
use vstd::prelude::*;
use web_sys::HtmlCanvasElement;
use web_sys::WebGl2RenderingContext;

verus! {

/// The backend handle: the WebGL 2 context of a canvas, and the counter
/// that numbers the pipelines made through it.
pub struct Context {
    pub(crate) context: Rc<WebGl2RenderingContext>,
    pub(crate) next_pipeline_index: u32,
}

/// Read the text content of the page element with the given id; the shader
/// sources of this backend live in such elements.
fn element_contents_from_id(id: &str) -> (r: Result<String, Error>)
    ensures
        r matches Err(e) ==> e is Message || e is Js,
{
    let window = match sys::dom_window() {
        Some(window) => window,
        None => {
            return Err(Error::Message("reading HTML element: no window".to_owned()));
        },
    };
    let document = match sys::window_document(&window) {
        Some(document) => document,
        None => {
            return Err(Error::Message("reading HTML element: no document".to_owned()));
        },
    };
    let element = match sys::document_element_by_id(&document, id) {
        Some(element) => element,
        None => {
            return Err(Error::Message("reading HTML element: no element with that id".to_owned()));
        },
    };
    let element = match sys::element_as_html(element) {
        Ok(element) => element,
        Err(v) => {
            return Err(Error::Js(v));
        },
    };
    match sys::element_text_content(&element) {
        Some(contents) => Ok(contents),
        None => Err(Error::Message("reading HTML element text content".to_owned())),
    }
}

impl Context {
    /// The counter the next pipeline will be numbered with.
    pub closed spec fn spec_next_pipeline_index(self) -> u32 {
        self.next_pipeline_index
    }

    /// Adopt an existing WebGL 2 context.
    pub fn with_context(context: WebGl2RenderingContext) -> (r: Result<Context, Error>)
        ensures
            r matches Ok(c) && c.spec_next_pipeline_index() == 0,
    {
        Ok(Context { context: Rc::new(context), next_pipeline_index: 0 })
    }

    /// Ask a canvas for a WebGL 2 context: opaque, antialiased, with a
    /// depth buffer, and keeping the drawing buffer between frames.
    pub fn with_canvas(canvas: HtmlCanvasElement) -> (r: Result<Context, Error>)
        ensures
            r matches Ok(c) ==> c.spec_next_pipeline_index() == 0,
            r matches Err(e) ==> e is Message || e is Js,
    {
        let attrs = sys::attrs_new();
        sys::attrs_set_alpha(&attrs, false);
        sys::attrs_set_antialias(&attrs, true);
        sys::attrs_set_depth(&attrs, true);
        sys::attrs_set_preserve_drawing_buffer(&attrs, true);
        match sys::canvas_get_context(&canvas, "webgl2", &attrs) {
            Ok(Some(context)) => Context::with_context(context),
            Ok(None) => Err(Error::Message("creating webgl2 context: none offered".to_owned())),
            Err(v) => Err(Error::Js(v)),
        }
    }

    /// Start a frame: a fresh command buffer on this context.
    pub fn next_frame(&mut self) -> (r: Result<CommandBuffer, Error>)
        ensures
            *final(self) == *old(self),
            r matches Ok(cb) && cb.spec_clear_color() is None && cb.spec_pipeline_index() == 0
                && !cb.spec_has_program() && cb.spec_bindings() == Seq::<Binding>::empty(),
    {
        CommandBuffer::new(&self.context)
    }

    /// Record the source path of a shader library.
    pub fn create_library(&mut self, library_path: &str) -> (r: Result<Library, Error>)
        ensures
            *final(self) == *old(self),
            r matches Ok(l) && l.spec_path() == library_path@,
    {
        Library::new(library_path)
    }

    /// Build a shader from the two page elements holding its stage sources.
    pub fn create_shader(
        &mut self,
        _library: &Library,
        vertex_file: &str,
        fragment_file: &str,
    ) -> (r: Result<Shader, Error>)
        ensures
            *final(self) == *old(self),
    {
        let vertex_source = element_contents_from_id(vertex_file)?;
        let fragment_source = element_contents_from_id(fragment_file)?;
        Shader::new(&self.context, vertex_source.as_str(), fragment_source.as_str())
    }

    /// Build a pipeline from a shader and a description, numbered with the
    /// context's counter.
    pub fn create_pipeline(&mut self, shader: &Shader, desc: &PipelineDesc) -> (r: Result<
        Pipeline,
        Error,
    >)
        requires
            old(self).spec_next_pipeline_index() < 0xffff_ffffu32,
        ensures
            final(self).spec_next_pipeline_index() == old(self).spec_next_pipeline_index() + 1,
            r matches Ok(p) && p.spec_index() == old(self).spec_next_pipeline_index()
                && p.spec_depth_test() == desc.depth_test && p.spec_depth_write()
                == desc.depth_write && p.spec_alpha_blend() == desc.alpha_blend
                && p.spec_bindings() == desc.bindings@ && p.shares_program_with(*shader),
    {
        let index = self.next_pipeline_index;
        self.next_pipeline_index = self.next_pipeline_index + 1;
        Pipeline::new(shader, desc, index)
    }

    /// Make a texture from an image path, sampled without filtering.
    pub fn create_texture(&mut self, image_path: &str) -> (r: Result<Texture, Error>)
        ensures
            *final(self) == *old(self),
            r matches Err(e) ==> e is Message || e is Js,
    {
        Texture::new(&self.context, image_path, TextureFilter::Nearest)
    }

    /// Make a texture from an image path with the given filter.
    pub fn create_texture_with_filter(&mut self, image_path: &str, filter: TextureFilter) -> (r:
        Result<Texture, Error>)
        ensures
            *final(self) == *old(self),
            r matches Err(e) ==> e is Message || e is Js,
    {
        Texture::new(&self.context, image_path, filter)
    }

    /// Make a uniform buffer that will accept up to `capacity` bytes.
    pub fn create_uniform_buffer_with_capacity(&mut self, capacity: usize) -> (r: Result<
        UniformBuffer,
        Error,
    >)
        ensures
            *final(self) == *old(self),
            r matches Ok(b) ==> b.spec_capacity() == capacity,
            r matches Err(e) ==> e is Message,
    {
        UniformBuffer::with_capacity(&self.context, capacity)
    }

    /// Make a uniform buffer holding the given bytes, sized to them.
    pub fn create_uniform_buffer_with_value(&mut self, value: &[u8]) -> (r: Result<
        UniformBuffer,
        Error,
    >)
        ensures
            *final(self) == *old(self),
            r matches Ok(b) ==> b.spec_capacity() == value@.len(),
            r matches Err(e) ==> e is Message,
    {
        UniformBuffer::with_data(&self.context, value)
    }

    /// Reupload a uniform buffer's contents; data longer than its capacity
    /// is refused, and exactly then.
    pub fn update_uniform_buffer(&mut self, uniform_buffer: &mut UniformBuffer, data: &[u8]) -> (r:
        Result<(), Error>)
        ensures
            *final(self) == *old(self),
            *final(uniform_buffer) == *old(uniform_buffer),
            r is Ok <==> data@.len() <= old(uniform_buffer).spec_capacity(),
            r matches Err(e) ==> e is Message,
    {
        uniform_buffer.update(data)
    }

    /// Make a vertex buffer that will accept up to `capacity` bytes.
    pub fn create_vertex_buffer_with_capacity(&mut self, capacity: usize) -> (r: Result<
        VertexBuffer,
        Error,
    >)
        ensures
            *final(self) == *old(self),
            r matches Ok(b) ==> b.spec_capacity() == capacity,
            r matches Err(e) ==> e is Message,
    {
        VertexBuffer::with_capacity(&self.context, capacity)
    }

    /// Make a vertex buffer holding the given bytes, sized to them.
    pub fn create_vertex_buffer_with_data(&self, data: &[u8]) -> (r: Result<VertexBuffer, Error>)
        ensures
            r matches Ok(b) ==> b.spec_capacity() == data@.len(),
            r matches Err(e) ==> e is Message,
    {
        VertexBuffer::with_data(&self.context, data)
    }

    /// Reupload a vertex buffer's contents; data longer than its capacity
    /// is refused, and exactly then.
    pub fn update_vertex_buffer(&mut self, vertex_buffer: &mut VertexBuffer, data: &[u8]) -> (r:
        Result<(), Error>)
        ensures
            *final(self) == *old(self),
            *final(vertex_buffer) == *old(vertex_buffer),
            r is Ok <==> data@.len() <= old(vertex_buffer).spec_capacity(),
            r matches Err(e) ==> e is Message,
    {
        vertex_buffer.update(data)
    }

    /// Bundle vertex buffers, each under its binding slot, into a
    /// renderable with no vertex array object built yet.
    pub fn create_renderable(&mut self, vertex_buffers: &[(u32, &VertexBuffer)]) -> (r: Result<
        Renderable,
        Error,
    >)
        ensures
            *final(self) == *old(self),
            r matches Ok(rend) && rend.vao_keys() == Seq::<u32>::empty() && rend.buffers_from(
                vertex_buffers@,
            ),
    {
        Renderable::new(vertex_buffers)
    }
}

} // verus!
