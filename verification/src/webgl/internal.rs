use std::rc::Rc;
use vstd::prelude::*;
use web_sys::WebGl2RenderingContext;
use web_sys::WebGlBuffer;
use web_sys::WebGlProgram;

verus! {

/// A GPU buffer object together with the context it belongs to.
pub struct Buffer {
    pub(crate) context: Rc<WebGl2RenderingContext>,
    pub(crate) buffer: WebGlBuffer,
}

/// A linked shader program together with the context it belongs to.
pub struct Program {
    pub(crate) context: Rc<WebGl2RenderingContext>,
    pub(crate) program: WebGlProgram,
}

} // verus!
