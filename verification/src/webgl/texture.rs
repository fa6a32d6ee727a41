use crate::shared::TextureFilter;
use crate::shared::is_power_of_2;
use crate::shared::single_bit;
use crate::webgl::err::Error;
use crate::webgl::sys;
use std::rc::Rc;
use vstd::prelude::*;
use wasm_bindgen::JsCast;
use web_sys::HtmlImageElement;
use web_sys::WebGl2RenderingContext;
use web_sys::WebGlTexture;

verus! {

/// A GPU texture. It starts out as a single white pixel and is filled with
/// the image once the browser has finished loading it.
pub struct Texture {
    pub(crate) context: Rc<WebGl2RenderingContext>,
    pub(crate) texture: WebGlTexture,
}

/// Mipmapping needs both sides to be powers of two.
pub open spec fn mipmap_capable(width: u32, height: u32) -> bool {
    width >= 1 && height >= 1 && single_bit(width) && single_bit(height)
}

/// The minification and magnification filter codes to set for an image of
/// the given size, and whether a mipmap chain should be generated first.
pub fn filter_codes(filter: TextureFilter, width: u32, height: u32) -> (r: (i32, i32, bool))
    ensures
        filter is Nearest ==> r == (sys::GL_NEAREST as i32, sys::GL_NEAREST as i32, false),
        filter is Linear ==> r == (sys::GL_LINEAR as i32, sys::GL_LINEAR as i32, false),
        filter is MipMap && mipmap_capable(width, height) ==> r == (
            sys::GL_LINEAR_MIPMAP_LINEAR as i32,
            sys::GL_LINEAR_MIPMAP_LINEAR as i32,
            true,
        ),
        filter is MipMap && !mipmap_capable(width, height) ==> r == (
            sys::GL_LINEAR as i32,
            sys::GL_LINEAR as i32,
            false,
        ),
{
    match filter {
        TextureFilter::Nearest => (sys::GL_NEAREST as i32, sys::GL_NEAREST as i32, false),
        TextureFilter::Linear => (sys::GL_LINEAR as i32, sys::GL_LINEAR as i32, false),
        TextureFilter::MipMap => {
            if width >= 1 && height >= 1 && is_power_of_2(width) && is_power_of_2(height) {
                (sys::GL_LINEAR_MIPMAP_LINEAR as i32, sys::GL_LINEAR_MIPMAP_LINEAR as i32, true)
            } else {
                (sys::GL_LINEAR as i32, sys::GL_LINEAR as i32, false)
            }
        },
    }
}

/// Put a finished image into the texture: upload it at the image's size,
/// clamp both wrap directions, and set the filters that `filter_codes`
/// picks for this image.
pub(crate) fn apply_loaded_image(
    gl: &WebGl2RenderingContext,
    texture: &WebGlTexture,
    image: &HtmlImageElement,
    filter: TextureFilter,
) -> (r: Result<(), Error>)
    ensures
        r matches Err(e) ==> e is Js,
{
    let width = sys::image_width(image);
    let height = sys::image_height(image);
    sys::gl_bind_texture(gl, sys::GL_TEXTURE_2D, Some(texture));
    let uploaded = sys::gl_tex_image_2d_image(
        gl,
        sys::GL_TEXTURE_2D,
        0,
        sys::GL_RGBA as i32,
        #[verifier::truncate] (width as i32),
        #[verifier::truncate] (height as i32),
        0,
        sys::GL_RGBA,
        sys::GL_UNSIGNED_BYTE,
        image,
    );
    match uploaded {
        Ok(()) => {},
        Err(v) => {
            return Err(Error::Js(v));
        },
    }
    sys::gl_tex_parameteri(
        gl,
        sys::GL_TEXTURE_2D,
        sys::GL_TEXTURE_WRAP_S,
        sys::GL_CLAMP_TO_EDGE as i32,
    );
    sys::gl_tex_parameteri(
        gl,
        sys::GL_TEXTURE_2D,
        sys::GL_TEXTURE_WRAP_T,
        sys::GL_CLAMP_TO_EDGE as i32,
    );
    let (min_filter, mag_filter, generate) = filter_codes(filter, width, height);
    if generate {
        sys::gl_generate_mipmap(gl, sys::GL_TEXTURE_2D);
    }
    sys::gl_tex_parameteri(gl, sys::GL_TEXTURE_2D, sys::GL_TEXTURE_MIN_FILTER, min_filter);
    sys::gl_tex_parameteri(gl, sys::GL_TEXTURE_2D, sys::GL_TEXTURE_MAG_FILTER, mag_filter);
    Ok(())
}

/// Relies on web_sys::HtmlElement::set_onload and
/// wasm_bindgen::closure::Closure::once_into_js: when the browser finishes
/// loading the image, it runs a closure that only hands the image to
/// `apply_loaded_image`.
#[verifier::external_body]
fn image_apply_on_load(
    gl: &Rc<WebGl2RenderingContext>,
    texture: &WebGlTexture,
    image: &Rc<HtmlImageElement>,
    filter: TextureFilter,
) {
    let gl = Rc::clone(gl);
    let texture = texture.clone();
    let loaded = Rc::clone(image);
    let callback = wasm_bindgen::closure::Closure::once_into_js(move || {
        let _ = apply_loaded_image(&gl, &texture, &loaded, filter);
    }).unchecked_into::<js_sys::Function>();
    image.set_onload(Some(&callback));
}

impl Texture {
    /// Make a texture that shows a single white pixel, and ask the browser
    /// to load the image behind `image_path` into it once it arrives.
    pub fn new(gl: &Rc<WebGl2RenderingContext>, image_path: &str, filter: TextureFilter) -> (r:
        Result<Texture, Error>)
        ensures
            r matches Err(e) ==> e is Message || e is Js,
    {
        match sys::gl_create_texture(gl) {
            Some(texture) => {
                sys::gl_bind_texture(gl, sys::GL_TEXTURE_2D, Some(&texture));
                let pixel: Vec<u8> = vec![255u8, 255u8, 255u8, 255u8];
                let placed = sys::gl_tex_image_2d_pixels(
                    gl,
                    sys::GL_TEXTURE_2D,
                    0,
                    sys::GL_RGBA as i32,
                    1,
                    1,
                    0,
                    sys::GL_RGBA,
                    sys::GL_UNSIGNED_BYTE,
                    Some(pixel.as_slice()),
                );
                match placed {
                    Ok(()) => {},
                    Err(v) => {
                        return Err(Error::Js(v));
                    },
                }
                let image = match sys::image_new() {
                    Ok(image) => Rc::new(image),
                    Err(v) => {
                        return Err(Error::Js(v));
                    },
                };
                image_apply_on_load(gl, &texture, &image, filter);
                sys::image_set_src(&image, image_path);
                Ok(Texture { context: sys::rc_clone(gl), texture })
            },
            None => Err(Error::Message("creating texture".to_owned())),
        }
    }
}

} // verus!
