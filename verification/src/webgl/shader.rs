use crate::webgl::err::Error;
use crate::webgl::internal::Program;
use crate::webgl::sys;
use std::rc::Rc;
use vstd::prelude::*;
use web_sys::WebGl2RenderingContext;
use web_sys::WebGlProgram;
use web_sys::WebGlShader;
use web_sys::WebGlUniformLocation;

verus! {

/// Where the shader sources of this backend live. The browser backend reads
/// them out of the page rather than from files, so only the path is kept.
pub struct Library {
    pub(crate) library_path: String,
}

impl Library {
    /// The path the library was made with.
    pub closed spec fn spec_path(self) -> Seq<char> {
        self.library_path@
    }

    /// Record the source path of a shader library.
    pub fn new(library_path: &str) -> (r: Result<Library, Error>)
        ensures
            r matches Ok(l) && l.spec_path() == library_path@,
    {
        Ok(Library { library_path: library_path.to_owned() })
    }
}

/// A compiled and linked shader program, shared with the command buffers
/// that draw with it.
pub struct Shader {
    pub(crate) context: Rc<WebGl2RenderingContext>,
    pub(crate) program: Rc<Program>,
}

/// Decide what creating and compiling a shader came to: no shader object
/// means the context refused to make one, a non-empty log means the source
/// was rejected, and otherwise the shader stands.
pub fn shader_outcome(shader: Option<WebGlShader>, log: Option<String>) -> (r: Result<
    WebGlShader,
    Error,
>)
    ensures
        shader is None ==> (r matches Err(e) && e is Message),
        shader is Some && log is Some && log.unwrap()@.len() > 0 ==> (r matches Err(e)
            && e matches Error::Message(m) && m@ == log.unwrap()@),
        shader is Some && (log is None || log.unwrap()@.len() == 0) ==> r == Ok::<
            WebGlShader,
            Error,
        >(shader.unwrap()),
{
    match shader {
        None => Err(Error::Message("failed to create shader".to_owned())),
        Some(s) => match log {
            Some(l) => if !l.as_str().is_empty() {
                Err(Error::Message(l))
            } else {
                Ok(s)
            },
            None => Ok(s),
        },
    }
}

/// Decide what creating and linking a program came to, in the same way.
pub fn program_outcome(program: Option<WebGlProgram>, log: Option<String>) -> (r: Result<
    WebGlProgram,
    Error,
>)
    ensures
        program is None ==> (r matches Err(e) && e is Message),
        program is Some && log is Some && log.unwrap()@.len() > 0 ==> (r matches Err(e)
            && e matches Error::Message(m) && m@ == log.unwrap()@),
        program is Some && (log is None || log.unwrap()@.len() == 0) ==> r == Ok::<
            WebGlProgram,
            Error,
        >(program.unwrap()),
{
    match program {
        None => Err(Error::Message("creating shader program".to_owned())),
        Some(p) => match log {
            Some(l) => if !l.as_str().is_empty() {
                Err(Error::Message(l))
            } else {
                Ok(p)
            },
            None => Ok(p),
        },
    }
}

/// Hand a shader source to the context and judge the result through
/// `shader_outcome`.
fn compile_shader(gl: &WebGl2RenderingContext, shader_type: u32, shader_source: &str) -> (r: Result<
    WebGlShader,
    Error,
>)
    ensures
        r matches Err(e) ==> e is Message,
{
    let shader = sys::gl_create_shader(gl, shader_type);
    match shader {
        Some(shader) => {
            sys::gl_shader_source(gl, &shader, shader_source);
            sys::gl_compile_shader(gl, &shader);
            let log = sys::gl_shader_info_log(gl, &shader);
            shader_outcome(Some(shader), log)
        },
        None => shader_outcome(None, None),
    }
}

impl Shader {
    /// Compile both stages, link them, and judge the result through
    /// `program_outcome`.
    pub fn new(
        gl: &Rc<WebGl2RenderingContext>,
        vertex_source: &str,
        fragment_source: &str,
    ) -> (r: Result<Shader, Error>)
        ensures
            r matches Err(e) ==> e is Message,
    {
        let vertex_shader = compile_shader(gl, sys::GL_VERTEX_SHADER, vertex_source)?;
        let fragment_shader = compile_shader(gl, sys::GL_FRAGMENT_SHADER, fragment_source)?;
        let program = sys::gl_create_program(gl);
        match program {
            Some(program) => {
                sys::gl_attach_shader(gl, &program, &vertex_shader);
                sys::gl_attach_shader(gl, &program, &fragment_shader);
                sys::gl_link_program(gl, &program);
                let log = sys::gl_program_info_log(gl, &program);
                let program = program_outcome(Some(program), log)?;
                Ok(
                    Shader {
                        context: sys::rc_clone(gl),
                        program: Rc::new(
                            Program { context: sys::rc_clone(gl), program },
                        ),
                    },
                )
            },
            None => Err(Error::Message("creating shader program".to_owned())),
        }
    }

    /// Ask the shader for the index of a named uniform block; a result other
    /// than `GL_INVALID_INDEX` is the block's index. Only the desktop GL
    /// backend needs this call, and only on some GL versions.
    pub fn get_uniform_location(&self, uniform_name: &str) -> (r: Result<u32, Error>)
        ensures
            r matches Ok(index) ==> index != sys::GL_INVALID_INDEX,
            r matches Err(e) ==> (e matches Error::UniformNotFound(m) && m@ == uniform_name@),
    {
        let location = sys::gl_get_uniform_block_index(
            &self.context,
            &self.program.program,
            uniform_name,
        );
        if location != sys::GL_INVALID_INDEX {
            Ok(location)
        } else {
            Err(Error::UniformNotFound(uniform_name.to_owned()))
        }
    }

    /// Ask the shader where a named texture sampler lives. Only this backend
    /// needs the call, and only on some WebGL versions.
    pub fn get_texture_location(&self, texture_name: &str) -> (r: Result<
        WebGlUniformLocation,
        Error,
    >)
        ensures
            r matches Err(e) ==> (e matches Error::TextureNotFound(m) && m@ == texture_name@),
    {
        let location = sys::gl_get_uniform_location(
            &self.context,
            &self.program.program,
            texture_name,
        );
        match location {
            Some(location) => Ok(location),
            None => Err(Error::TextureNotFound(texture_name.to_owned())),
        }
    }
}

} // verus!
