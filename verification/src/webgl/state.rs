use crate::webgl::err::Error;
use crate::webgl::internal::Buffer;
use crate::webgl::sys;
use crate::webgl::texture::Texture;
use crate::webgl::uniform_buffer::UniformBuffer;
use std::rc::Rc;
use vstd::prelude::*;
use web_sys::WebGlTexture;
use web_sys::WebGlUniformLocation;

verus! {

/// Where a uniform lives in a shader: uniform blocks are addressed by index,
/// texture samplers by a browser-side location object.
#[derive(Clone)]
pub enum Location {
    Buffer(u32),
    Texture(WebGlUniformLocation),
}

/// One uniform to bind: its shader location and the resource to put there.
pub enum Uniform<'a> {
    Buffer(Location, &'a UniformBuffer),
    Texture(Location, &'a Texture),
}

/// Fixed-function settings and the uniforms to bind with them.
pub struct StateDesc<'a> {
    pub depth_test: bool,
    pub depth_write: bool,
    pub alpha_blend: bool,
    pub uniforms: &'a [Uniform<'a>],
}

/// A uniform binding that owns its resource handles.
pub(crate) enum UniformInternal {
    Buffer(Location, Rc<Buffer>),
    Texture(Location, WebGlTexture),
}

/// Render state materialized from a description: the same settings, with
/// each uniform's resource handle held by the state itself.
pub struct State {
    pub(crate) depth_test: bool,
    pub(crate) depth_write: bool,
    pub(crate) alpha_blend: bool,
    pub(crate) uniforms: Vec<UniformInternal>,
}

impl State {
    /// Whether depth testing is on.
    pub closed spec fn spec_depth_test(self) -> bool {
        self.depth_test
    }

    /// Whether depth writing is on.
    pub closed spec fn spec_depth_write(self) -> bool {
        self.depth_write
    }

    /// Whether alpha blending is on.
    pub closed spec fn spec_alpha_blend(self) -> bool {
        self.alpha_blend
    }

    /// How many uniforms the state binds.
    pub closed spec fn spec_uniform_count(self) -> nat {
        self.uniforms@.len()
    }

    /// Whether uniform `i` of the state is a buffer exactly when uniform `i`
    /// of `sources` is.
    pub closed spec fn uniform_kind_matches(self, sources: Seq<Uniform>, i: int) -> bool {
        (self.uniforms@[i] is Buffer <==> sources[i] is Buffer)
    }

    /// Take over the settings of `desc` and one handle per uniform, in
    /// order and of the same kind.
    pub fn from_desc(desc: &StateDesc) -> (r: Result<State, Error>)
        ensures
            r matches Ok(s) && s.spec_depth_test() == desc.depth_test && s.spec_depth_write()
                == desc.depth_write && s.spec_alpha_blend() == desc.alpha_blend
                && s.spec_uniform_count() == desc.uniforms@.len() && forall|i: int|
                0 <= i < desc.uniforms@.len() ==> s.uniform_kind_matches(desc.uniforms@, i),
    {
        let mut uniforms: Vec<UniformInternal> = Vec::new();
        let mut i: usize = 0;
        while i < desc.uniforms.len()
            invariant
                i <= desc.uniforms@.len(),
                uniforms@.len() == i,
                forall|j: int|
                    0 <= j < i ==> ((#[trigger] uniforms@[j]) is Buffer <==> desc.uniforms@[j]
                        is Buffer),
            decreases desc.uniforms@.len() - i,
        {
            let entry = match &desc.uniforms[i] {
                Uniform::Buffer(location, uniform_buffer) => UniformInternal::Buffer(
                    location.clone(),
                    sys::rc_clone(&uniform_buffer.buffer),
                ),
                Uniform::Texture(location, texture) => UniformInternal::Texture(
                    location.clone(),
                    sys::webgl_texture_clone(&texture.texture),
                ),
            };
            uniforms.push(entry);
            i = i + 1;
        }
        let state = State {
            depth_test: desc.depth_test,
            depth_write: desc.depth_write,
            alpha_blend: desc.alpha_blend,
            uniforms,
        };
        proof {
            assert(forall|i: int|
                0 <= i < desc.uniforms@.len() ==> state.uniform_kind_matches(desc.uniforms@, i));
        }
        Ok(state)
    }
}

} // verus!
