//! The boundary to the browser: every call into `web_sys` that this backend
//! makes goes through one small trusted function here, and the browser-side
//! object types are declared for the verifier.
//!
//! The calls talk to the GPU through the browser, so almost nothing can be
//! promised of them; what the library guarantees is said in the verified
//! code that sits on top of these.

use std::rc::Rc;
use vstd::prelude::*;
use wasm_bindgen::JsCast;
use wasm_bindgen::JsValue;
use web_sys::Document;
use web_sys::Element;
use web_sys::HtmlCanvasElement;
use web_sys::HtmlElement;
use web_sys::HtmlImageElement;
use web_sys::WebGl2RenderingContext;
use web_sys::WebGlBuffer;
use web_sys::WebGlContextAttributes;
use web_sys::WebGlProgram;
use web_sys::WebGlShader;
use web_sys::WebGlTexture;
use web_sys::WebGlUniformLocation;
use web_sys::WebGlVertexArrayObject;
use web_sys::Window;

verus! {

#[verifier::external_type_specification]
#[verifier::external_body]
pub struct ExJsValue(JsValue);

#[verifier::external_type_specification]
#[verifier::external_body]
pub struct ExWebGl2RenderingContext(WebGl2RenderingContext);

#[verifier::external_type_specification]
#[verifier::external_body]
pub struct ExWebGlShader(WebGlShader);

#[verifier::external_type_specification]
#[verifier::external_body]
pub struct ExWebGlProgram(WebGlProgram);

#[verifier::external_type_specification]
#[verifier::external_body]
pub struct ExWebGlBuffer(WebGlBuffer);

#[verifier::external_type_specification]
#[verifier::external_body]
pub struct ExWebGlTexture(WebGlTexture);

#[verifier::external_type_specification]
#[verifier::external_body]
pub struct ExWebGlUniformLocation(WebGlUniformLocation);

#[verifier::external_type_specification]
#[verifier::external_body]
pub struct ExWebGlVertexArrayObject(WebGlVertexArrayObject);

#[verifier::external_type_specification]
#[verifier::external_body]
pub struct ExWebGlContextAttributes(WebGlContextAttributes);

#[verifier::external_type_specification]
#[verifier::external_body]
pub struct ExHtmlCanvasElement(HtmlCanvasElement);

#[verifier::external_type_specification]
#[verifier::external_body]
pub struct ExHtmlElement(HtmlElement);

#[verifier::external_type_specification]
#[verifier::external_body]
pub struct ExHtmlImageElement(HtmlImageElement);

#[verifier::external_type_specification]
#[verifier::external_body]
pub struct ExWindow(Window);

#[verifier::external_type_specification]
#[verifier::external_body]
pub struct ExDocument(Document);

#[verifier::external_type_specification]
#[verifier::external_body]
pub struct ExElement(Element);

// The values below are fixed by the WebGL specification; they mirror the
// constants of the same names on `web_sys::WebGl2RenderingContext`.
pub const GL_VERTEX_SHADER: u32 = 35633;

pub const GL_FRAGMENT_SHADER: u32 = 35632;

pub const GL_COLOR_BUFFER_BIT: u32 = 16384;

pub const GL_DEPTH_TEST: u32 = 2929;

pub const GL_BLEND: u32 = 3042;

pub const GL_SRC_ALPHA: u32 = 770;

pub const GL_ONE_MINUS_SRC_ALPHA: u32 = 771;

pub const GL_ARRAY_BUFFER: u32 = 34962;

pub const GL_ELEMENT_ARRAY_BUFFER: u32 = 34963;

pub const GL_UNIFORM_BUFFER: u32 = 35345;

pub const GL_STATIC_DRAW: u32 = 35044;

pub const GL_DYNAMIC_DRAW: u32 = 35048;

pub const GL_TEXTURE_2D: u32 = 3553;

pub const GL_TEXTURE0: u32 = 33984;

pub const GL_RGBA: u32 = 6408;

pub const GL_UNSIGNED_BYTE: u32 = 5121;

pub const GL_CLAMP_TO_EDGE: u32 = 33071;

pub const GL_TEXTURE_WRAP_S: u32 = 10242;

pub const GL_TEXTURE_WRAP_T: u32 = 10243;

pub const GL_TEXTURE_MIN_FILTER: u32 = 10241;

pub const GL_TEXTURE_MAG_FILTER: u32 = 10240;

pub const GL_NEAREST: u32 = 9728;

pub const GL_LINEAR: u32 = 9729;

pub const GL_LINEAR_MIPMAP_LINEAR: u32 = 9987;

pub const GL_TRIANGLE_STRIP: u32 = 5;

pub const GL_FLOAT: u32 = 5126;

pub const GL_INVALID_INDEX: u32 = 4294967295;

/// Relies on Rc::clone: the clone is a handle to the same value.
#[verifier::external_body]
pub(crate) fn rc_clone<T>(rc: &Rc<T>) -> (res: Rc<T>)
    ensures
        res == *rc,
{
    Rc::clone(rc)
}

/// Relies on web_sys::WebGlUniformLocation::clone: another handle to the
/// same browser-side location object.
pub assume_specification[ <WebGlUniformLocation as Clone>::clone ](
    location: &WebGlUniformLocation,
) -> WebGlUniformLocation;

/// Relies on web_sys::WebGlTexture::clone: another handle to the same
/// browser-side texture object.
#[verifier::external_body]
pub(crate) fn webgl_texture_clone(texture: &WebGlTexture) -> (r: WebGlTexture) {
    texture.clone()
}

/// Relies on web_sys::window: the browser's global window, if there is one.
#[verifier::external_body]
pub(crate) fn dom_window() -> (r: Option<Window>) {
    web_sys::window()
}

/// Relies on web_sys::Window::document: the document shown in the window.
#[verifier::external_body]
pub(crate) fn window_document(window: &Window) -> (r: Option<Document>) {
    window.document()
}

/// Relies on web_sys::Document::get_element_by_id: the element with that id.
#[verifier::external_body]
pub(crate) fn document_element_by_id(document: &Document, id: &str) -> (r: Option<Element>) {
    document.get_element_by_id(id)
}

/// Relies on wasm_bindgen::JsCast::dyn_into: the element itself when it is an
/// HTML element, otherwise an error value.
#[verifier::external_body]
pub(crate) fn element_as_html(element: Element) -> (r: Result<HtmlElement, JsValue>) {
    element.dyn_into::<HtmlElement>().map_err(JsValue::from)
}

/// Relies on web_sys::Node::text_content: the text inside the element.
#[verifier::external_body]
pub(crate) fn element_text_content(element: &HtmlElement) -> (r: Option<String>) {
    element.text_content()
}

/// Relies on web_sys::WebGlContextAttributes::new: a fresh attribute set.
#[verifier::external_body]
pub(crate) fn attrs_new() -> (r: WebGlContextAttributes) {
    WebGlContextAttributes::new()
}

/// Relies on web_sys::WebGlContextAttributes::set_alpha.
#[verifier::external_body]
pub(crate) fn attrs_set_alpha(attrs: &WebGlContextAttributes, value: bool) {
    attrs.set_alpha(value)
}

/// Relies on web_sys::WebGlContextAttributes::set_antialias.
#[verifier::external_body]
pub(crate) fn attrs_set_antialias(attrs: &WebGlContextAttributes, value: bool) {
    attrs.set_antialias(value)
}

/// Relies on web_sys::WebGlContextAttributes::set_depth.
#[verifier::external_body]
pub(crate) fn attrs_set_depth(attrs: &WebGlContextAttributes, value: bool) {
    attrs.set_depth(value)
}

/// Relies on web_sys::WebGlContextAttributes::set_preserve_drawing_buffer.
#[verifier::external_body]
pub(crate) fn attrs_set_preserve_drawing_buffer(attrs: &WebGlContextAttributes, value: bool) {
    attrs.set_preserve_drawing_buffer(value)
}

/// Relies on web_sys::HtmlCanvasElement::get_context_with_context_options
/// and wasm_bindgen::JsCast::dyn_into: the canvas's rendering context of the
/// asked-for kind, None when the browser offers none.
#[verifier::external_body]
pub(crate) fn canvas_get_context(
    canvas: &HtmlCanvasElement,
    kind: &str,
    attrs: &WebGlContextAttributes,
) -> (r: Result<Option<WebGl2RenderingContext>, JsValue>) {
    match canvas.get_context_with_context_options(kind, attrs.as_ref())? {
        Some(object) => Ok(Some(object.dyn_into::<WebGl2RenderingContext>().map_err(
            JsValue::from,
        )?)),
        None => Ok(None),
    }
}

/// Relies on web_sys::WebGl2RenderingContext::create_shader.
#[verifier::external_body]
pub(crate) fn gl_create_shader(gl: &WebGl2RenderingContext, shader_type: u32) -> (r: Option<
    WebGlShader,
>) {
    gl.create_shader(shader_type)
}

/// Relies on web_sys::WebGl2RenderingContext::shader_source.
#[verifier::external_body]
pub(crate) fn gl_shader_source(gl: &WebGl2RenderingContext, shader: &WebGlShader, source: &str) {
    gl.shader_source(shader, source)
}

/// Relies on web_sys::WebGl2RenderingContext::compile_shader.
#[verifier::external_body]
pub(crate) fn gl_compile_shader(gl: &WebGl2RenderingContext, shader: &WebGlShader) {
    gl.compile_shader(shader)
}

/// Relies on web_sys::WebGl2RenderingContext::get_shader_info_log.
#[verifier::external_body]
pub(crate) fn gl_shader_info_log(gl: &WebGl2RenderingContext, shader: &WebGlShader) -> (r: Option<
    String,
>) {
    gl.get_shader_info_log(shader)
}

/// Relies on web_sys::WebGl2RenderingContext::create_program.
#[verifier::external_body]
pub(crate) fn gl_create_program(gl: &WebGl2RenderingContext) -> (r: Option<WebGlProgram>) {
    gl.create_program()
}

/// Relies on web_sys::WebGl2RenderingContext::attach_shader.
#[verifier::external_body]
pub(crate) fn gl_attach_shader(
    gl: &WebGl2RenderingContext,
    program: &WebGlProgram,
    shader: &WebGlShader,
) {
    gl.attach_shader(program, shader)
}

/// Relies on web_sys::WebGl2RenderingContext::link_program.
#[verifier::external_body]
pub(crate) fn gl_link_program(gl: &WebGl2RenderingContext, program: &WebGlProgram) {
    gl.link_program(program)
}

/// Relies on web_sys::WebGl2RenderingContext::get_program_info_log.
#[verifier::external_body]
pub(crate) fn gl_program_info_log(gl: &WebGl2RenderingContext, program: &WebGlProgram) -> (r:
    Option<String>) {
    gl.get_program_info_log(program)
}

/// Relies on web_sys::WebGl2RenderingContext::use_program.
#[verifier::external_body]
pub(crate) fn gl_use_program(gl: &WebGl2RenderingContext, program: Option<&WebGlProgram>) {
    gl.use_program(program)
}

/// Relies on web_sys::WebGl2RenderingContext::get_uniform_block_index.
#[verifier::external_body]
pub(crate) fn gl_get_uniform_block_index(
    gl: &WebGl2RenderingContext,
    program: &WebGlProgram,
    uniform_name: &str,
) -> (r: u32) {
    gl.get_uniform_block_index(program, uniform_name)
}

/// Relies on web_sys::WebGl2RenderingContext::get_uniform_location.
#[verifier::external_body]
pub(crate) fn gl_get_uniform_location(
    gl: &WebGl2RenderingContext,
    program: &WebGlProgram,
    name: &str,
) -> (r: Option<WebGlUniformLocation>) {
    gl.get_uniform_location(program, name)
}

/// Relies on web_sys::WebGl2RenderingContext::uniform_block_binding.
#[verifier::external_body]
pub(crate) fn gl_uniform_block_binding(
    gl: &WebGl2RenderingContext,
    program: &WebGlProgram,
    location: u32,
    binding: u32,
) {
    gl.uniform_block_binding(program, location, binding)
}

/// Relies on web_sys::WebGl2RenderingContext::uniform1i.
#[verifier::external_body]
pub(crate) fn gl_uniform1i(
    gl: &WebGl2RenderingContext,
    location: Option<&WebGlUniformLocation>,
    value: i32,
) {
    gl.uniform1i(location, value)
}

/// Relies on web_sys::WebGl2RenderingContext::create_buffer.
#[verifier::external_body]
pub(crate) fn gl_create_buffer(gl: &WebGl2RenderingContext) -> (r: Option<WebGlBuffer>) {
    gl.create_buffer()
}

/// Relies on web_sys::WebGl2RenderingContext::bind_buffer.
#[verifier::external_body]
pub(crate) fn gl_bind_buffer(gl: &WebGl2RenderingContext, target: u32, buffer: Option<
    &WebGlBuffer,
>) {
    gl.bind_buffer(target, buffer)
}

/// Relies on web_sys::WebGl2RenderingContext::buffer_data_with_u8_array.
#[verifier::external_body]
pub(crate) fn gl_buffer_data_u8(
    gl: &WebGl2RenderingContext,
    target: u32,
    data: &[u8],
    usage: u32,
) {
    gl.buffer_data_with_u8_array(target, data, usage)
}

/// Relies on web_sys::WebGl2RenderingContext::bind_buffer_base.
#[verifier::external_body]
pub(crate) fn gl_bind_buffer_base(
    gl: &WebGl2RenderingContext,
    target: u32,
    index: u32,
    buffer: Option<&WebGlBuffer>,
) {
    gl.bind_buffer_base(target, index, buffer)
}

/// Relies on web_sys::WebGl2RenderingContext::create_texture.
#[verifier::external_body]
pub(crate) fn gl_create_texture(gl: &WebGl2RenderingContext) -> (r: Option<WebGlTexture>) {
    gl.create_texture()
}

/// Relies on web_sys::WebGl2RenderingContext::bind_texture.
#[verifier::external_body]
pub(crate) fn gl_bind_texture(gl: &WebGl2RenderingContext, target: u32, texture: Option<
    &WebGlTexture,
>) {
    gl.bind_texture(target, texture)
}

/// Relies on web_sys::WebGl2RenderingContext::active_texture.
#[verifier::external_body]
pub(crate) fn gl_active_texture(gl: &WebGl2RenderingContext, texture_unit: u32) {
    gl.active_texture(texture_unit)
}

/// Relies on
/// web_sys::WebGl2RenderingContext::tex_image_2d_with_i32_and_i32_and_i32_and_format_and_type_and_opt_u8_array.
#[verifier::external_body]
pub(crate) fn gl_tex_image_2d_pixels(
    gl: &WebGl2RenderingContext,
    target: u32,
    level: i32,
    internalformat: i32,
    width: i32,
    height: i32,
    border: i32,
    format: u32,
    kind: u32,
    pixels: Option<&[u8]>,
) -> (r: Result<(), JsValue>) {
    gl.tex_image_2d_with_i32_and_i32_and_i32_and_format_and_type_and_opt_u8_array(
        target,
        level,
        internalformat,
        width,
        height,
        border,
        format,
        kind,
        pixels,
    )
}

/// Relies on
/// web_sys::WebGl2RenderingContext::tex_image_2d_with_i32_and_i32_and_i32_and_format_and_type_and_html_image_element.
#[verifier::external_body]
pub(crate) fn gl_tex_image_2d_image(
    gl: &WebGl2RenderingContext,
    target: u32,
    level: i32,
    internalformat: i32,
    width: i32,
    height: i32,
    border: i32,
    format: u32,
    kind: u32,
    source: &HtmlImageElement,
) -> (r: Result<(), JsValue>) {
    gl.tex_image_2d_with_i32_and_i32_and_i32_and_format_and_type_and_html_image_element(
        target,
        level,
        internalformat,
        width,
        height,
        border,
        format,
        kind,
        source,
    )
}

/// Relies on web_sys::WebGl2RenderingContext::tex_parameteri.
#[verifier::external_body]
pub(crate) fn gl_tex_parameteri(gl: &WebGl2RenderingContext, target: u32, pname: u32, param: i32) {
    gl.tex_parameteri(target, pname, param)
}

/// Relies on web_sys::WebGl2RenderingContext::generate_mipmap.
#[verifier::external_body]
pub(crate) fn gl_generate_mipmap(gl: &WebGl2RenderingContext, target: u32) {
    gl.generate_mipmap(target)
}

/// Relies on web_sys::WebGl2RenderingContext::create_vertex_array.
#[verifier::external_body]
pub(crate) fn gl_create_vertex_array(gl: &WebGl2RenderingContext) -> (r: Option<
    WebGlVertexArrayObject,
>) {
    gl.create_vertex_array()
}

/// Relies on web_sys::WebGl2RenderingContext::bind_vertex_array.
#[verifier::external_body]
pub(crate) fn gl_bind_vertex_array(gl: &WebGl2RenderingContext, array: Option<
    &WebGlVertexArrayObject,
>) {
    gl.bind_vertex_array(array)
}

/// Relies on web_sys::WebGl2RenderingContext::vertex_attrib_pointer_with_i32.
#[verifier::external_body]
pub(crate) fn gl_vertex_attrib_pointer(
    gl: &WebGl2RenderingContext,
    index: u32,
    size: i32,
    kind: u32,
    normalized: bool,
    stride: i32,
    offset: i32,
) {
    gl.vertex_attrib_pointer_with_i32(index, size, kind, normalized, stride, offset)
}

/// Relies on web_sys::WebGl2RenderingContext::vertex_attrib_divisor.
#[verifier::external_body]
pub(crate) fn gl_vertex_attrib_divisor(gl: &WebGl2RenderingContext, index: u32, divisor: u32) {
    gl.vertex_attrib_divisor(index, divisor)
}

/// Relies on web_sys::WebGl2RenderingContext::enable_vertex_attrib_array.
#[verifier::external_body]
pub(crate) fn gl_enable_vertex_attrib_array(gl: &WebGl2RenderingContext, index: u32) {
    gl.enable_vertex_attrib_array(index)
}

/// Relies on web_sys::WebGl2RenderingContext::draw_arrays_instanced.
#[verifier::external_body]
pub(crate) fn gl_draw_arrays_instanced(
    gl: &WebGl2RenderingContext,
    mode: u32,
    first: i32,
    count: i32,
    instance_count: i32,
) {
    gl.draw_arrays_instanced(mode, first, count, instance_count)
}

/// Relies on web_sys::WebGl2RenderingContext::clear_color. Each channel
/// arrives as the bit pattern of the wanted value and is rebuilt through a
/// js_sys::Float32Array view before the call.
#[verifier::external_body]
pub(crate) fn gl_clear_color_bits(
    gl: &WebGl2RenderingContext,
    red: u32,
    green: u32,
    blue: u32,
    alpha: u32,
) {
    let buffer = js_sys::ArrayBuffer::new(16);
    let view = js_sys::DataView::new(&buffer, 0, 16);
    view.set_uint32_endian(0, red, true);
    view.set_uint32_endian(4, green, true);
    view.set_uint32_endian(8, blue, true);
    view.set_uint32_endian(12, alpha, true);
    let channels = js_sys::Float32Array::new(buffer.as_ref());
    gl.clear_color(
        channels.get_index(0),
        channels.get_index(1),
        channels.get_index(2),
        channels.get_index(3),
    )
}

/// Relies on web_sys::WebGl2RenderingContext::clear.
#[verifier::external_body]
pub(crate) fn gl_clear(gl: &WebGl2RenderingContext, mask: u32) {
    gl.clear(mask)
}

/// Relies on web_sys::WebGl2RenderingContext::enable.
#[verifier::external_body]
pub(crate) fn gl_enable(gl: &WebGl2RenderingContext, capability: u32) {
    gl.enable(capability)
}

/// Relies on web_sys::WebGl2RenderingContext::disable.
#[verifier::external_body]
pub(crate) fn gl_disable(gl: &WebGl2RenderingContext, capability: u32) {
    gl.disable(capability)
}

/// Relies on web_sys::WebGl2RenderingContext::depth_mask.
#[verifier::external_body]
pub(crate) fn gl_depth_mask(gl: &WebGl2RenderingContext, flag: bool) {
    gl.depth_mask(flag)
}

/// Relies on web_sys::WebGl2RenderingContext::blend_func.
#[verifier::external_body]
pub(crate) fn gl_blend_func(gl: &WebGl2RenderingContext, sfactor: u32, dfactor: u32) {
    gl.blend_func(sfactor, dfactor)
}

/// Relies on web_sys::WebGl2RenderingContext::finish.
#[verifier::external_body]
pub(crate) fn gl_finish(gl: &WebGl2RenderingContext) {
    gl.finish()
}

/// Relies on web_sys::HtmlImageElement::new.
#[verifier::external_body]
pub(crate) fn image_new() -> (r: Result<HtmlImageElement, JsValue>) {
    HtmlImageElement::new()
}

/// Relies on web_sys::HtmlImageElement::set_src.
#[verifier::external_body]
pub(crate) fn image_set_src(image: &HtmlImageElement, src: &str) {
    image.set_src(src)
}

/// Relies on web_sys::HtmlImageElement::width.
#[verifier::external_body]
pub(crate) fn image_width(image: &HtmlImageElement) -> (r: u32) {
    image.width()
}

/// Relies on web_sys::HtmlImageElement::height.
#[verifier::external_body]
pub(crate) fn image_height(image: &HtmlImageElement) -> (r: u32) {
    image.height()
}

} // verus!
