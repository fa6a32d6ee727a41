use vstd::prelude::*;
use wasm_bindgen::JsValue;

verus! {

/// What a call into this backend can fail with.
pub enum Error {
    /// A fixed description of the step that failed.
    Message(String),
    /// A uniform block name that the shader does not expose.
    UniformNotFound(String),
    /// A texture sampler name that the shader does not expose.
    TextureNotFound(String),
    /// An error value handed back by the browser.
    Js(JsValue),
}

impl Error {
    /// The stored description: the failed step, or the name not found.
    /// An error carried over from the browser has no text of its own.
    pub fn text(&self) -> (s: String)
        ensures
            match self {
                Error::Message(m) => s@ == m@,
                Error::UniformNotFound(m) => s@ == m@,
                Error::TextureNotFound(m) => s@ == m@,
                Error::Js(_) => s@ === Seq::<char>::empty(),
            },
    {
        match self {
            Error::Message(m) => m.clone(),
            Error::UniformNotFound(m) => m.clone(),
            Error::TextureNotFound(m) => m.clone(),
            Error::Js(_) => String::new(),
        }
    }
}

} // verus!
