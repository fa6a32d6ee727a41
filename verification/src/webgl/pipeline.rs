use crate::shared::Binding;
use crate::shared::PipelineDesc;
use crate::webgl::err::Error;
use crate::webgl::internal::Program;
use crate::webgl::shader::Shader;
use crate::webgl::sys;
use std::rc::Rc;
use vstd::prelude::*;

verus! {

/// Fixed-function state bound as one piece before drawing: the shader
/// program, depth and blend settings, and the vertex layout.
pub struct Pipeline {
    /// An internal counter used by renderables to match the pipeline with a
    /// corresponding vertex array object.
    pub index: u32,
    pub shader_program: Rc<Program>,
    pub depth_test: bool,
    pub depth_write: bool,
    pub alpha_blend: bool,
    pub bindings: Vec<Binding>,
}

impl Pipeline {
    /// The counter value the pipeline was made with.
    pub open spec fn spec_index(self) -> u32 {
        self.index
    }

    /// Whether depth testing is on.
    pub open spec fn spec_depth_test(self) -> bool {
        self.depth_test
    }

    /// Whether depth writing is on.
    pub open spec fn spec_depth_write(self) -> bool {
        self.depth_write
    }

    /// Whether alpha blending is on.
    pub open spec fn spec_alpha_blend(self) -> bool {
        self.alpha_blend
    }

    /// The vertex-attribute bindings the pipeline was made with.
    pub open spec fn spec_bindings(self) -> Seq<Binding> {
        self.bindings@
    }

    /// Whether this pipeline shares its shader program with `shader`.
    pub closed spec fn shares_program_with(self, shader: Shader) -> bool {
        self.shader_program == shader.program
    }

    /// Keep the shader program and a copy of the description, under the
    /// given counter value.
    pub(crate) fn new(shader: &Shader, desc: &PipelineDesc, index: u32) -> (r: Result<
        Pipeline,
        Error,
    >)
        ensures
            r matches Ok(p) && p.spec_index() == index && p.spec_depth_test() == desc.depth_test
                && p.spec_depth_write() == desc.depth_write && p.spec_alpha_blend()
                == desc.alpha_blend && p.spec_bindings() == desc.bindings@
                && p.shares_program_with(*shader),
    {
        let mut bindings: Vec<Binding> = Vec::new();
        let mut i: usize = 0;
        while i < desc.bindings.len()
            invariant
                i <= desc.bindings@.len(),
                bindings@ =~= desc.bindings@.take(i as int),
            decreases desc.bindings@.len() - i,
        {
            bindings.push(desc.bindings[i]);
            i = i + 1;
        }
        proof {
            assert(desc.bindings@.take(desc.bindings@.len() as int) =~= desc.bindings@);
        }
        Ok(
            Pipeline {
                index,
                shader_program: sys::rc_clone(&shader.program),
                depth_test: desc.depth_test,
                depth_write: desc.depth_write,
                alpha_blend: desc.alpha_blend,
                bindings,
            },
        )
    }
}

} // verus!
