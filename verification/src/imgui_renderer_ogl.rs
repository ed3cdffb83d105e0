//! What the OpenGL renderer of the UI decides by version and by status:
//! which GLSL it speaks, and how it reads the outcome of a compile or a
//! link.

use crate::common::OpenGLRenderError;
use vstd::prelude::*;

verus! {

/// A version of OpenGL as a number: a hundred times the major version
/// plus ten times the minor one.
#[derive(PartialEq, Eq, Copy, Clone, Debug, Structural)]
pub struct GlVersion(pub i32);

/// The witness that a frame was rendered.
#[derive(PartialEq, Eq, Copy, Clone, Debug, Structural)]
pub struct RenderToken;

/// `GL_FRAGMENT_SHADER`.
pub const FRAGMENT_SHADER: u32 = 0x8B30;

/// `GL_VERTEX_SHADER`.
pub const VERTEX_SHADER: u32 = 0x8B31;

/// `GL_UNSIGNED_SHORT`.
pub const UNSIGNED_SHORT: u32 = 0x1403;

/// `GL_UNSIGNED_INT`.
pub const UNSIGNED_INT: u32 = 0x1405;

/// `GL_FALSE`.
pub const FALSE: i32 = 0;

/// The dialect that a shader source is written in.
#[derive(PartialEq, Eq, Copy, Clone, Debug, Structural)]
pub enum ShaderSource {
    Glsl120,
    Glsl130,
    Glsl300,
}

/// The kind of a shader.
#[derive(PartialEq, Eq, Copy, Clone, Debug, Structural)]
pub enum ShaderKind {
    Fragment,
    Vertex,
}

/// A shader before it is compiled.
#[derive(PartialEq, Eq, Copy, Clone, Debug)]
pub struct Shader {
    pub source: ShaderSource,
    pub version: &'static str,
    pub ty: u32,
}

impl GlVersion {
    /// The number of a version of OpenGL: `None` where it does not fit.
    pub open spec fn spec_new(major: i32, minor: i32) -> Option<GlVersion> {
        if i32::MIN <= major * 100 + minor * 10 <= i32::MAX {
            Some(GlVersion((major * 100 + minor * 10) as i32))
        } else {
            None
        }
    }

    /// The number of a version of OpenGL: `None` where it does not fit.
    #[verifier::when_used_as_spec(spec_new)]
    pub fn new(major: i32, minor: i32) -> (version: Option<GlVersion>)
        ensures
            version == GlVersion::spec_new(major, minor),
    {
        let number: i64 = major as i64 * 100 + minor as i64 * 10;
        if -0x8000_0000 <= number && number <= 0x7fff_ffff {
            Some(GlVersion(number as i32))
        } else {
            None
        }
    }

    /// The version that a context reports by number. Old contexts report
    /// zeros: the version then has to be read from the version string,
    /// and this is `None`.
    pub fn from_numbers(major: i32, minor: i32) -> (version: Option<GlVersion>)
        ensures
            version == if major != 0 && minor != 0 {
                GlVersion::new(major, minor)
            } else {
                None
            },
    {
        if major != 0 && minor != 0 {
            GlVersion::new(major, minor)
        } else {
            None
        }
    }

    /// Whether draw calls may offset into the vertex buffer.
    pub fn has_vtx_offset(self) -> (supported: bool)
        ensures
            supported <==> self.0 >= 320,
    {
        self.0 >= 320
    }
}

/// The `#version` line for a version of OpenGL.
pub open spec fn spec_glsl_version(version: GlVersion) -> Seq<char> {
    if version.0 == 100 {
        "#version 100\n"@
    } else if version.0 == 110 {
        "#version 110\n"@
    } else if version.0 == 120 {
        "#version 120\n"@
    } else if version.0 == 130 {
        "#version 130\n"@
    } else if version.0 == 140 {
        "#version 140\n"@
    } else if version.0 == 150 {
        "#version 150\n"@
    } else if version.0 == 300 {
        "#version 300 es\n"@
    } else if version.0 == 330 {
        "#version 330 core\n"@
    } else if version.0 == 400 {
        "#version 400 core\n"@
    } else if version.0 == 410 || version.0 == 420 {
        "#version 410 core\n"@
    } else if 430 <= version.0 <= 499 {
        "#version 430 core\n"@
    } else {
        "#version 130\n"@
    }
}

/// The dialect of the sources for a version of OpenGL.
pub open spec fn spec_glsl_source(version: GlVersion) -> ShaderSource {
    if version.0 < 130 {
        ShaderSource::Glsl120
    } else if version.0 >= 300 {
        ShaderSource::Glsl300
    } else {
        ShaderSource::Glsl130
    }
}

impl Shader {
    /// The `#version` line for a version of OpenGL; that of 1.30 for a
    /// version that is not known.
    pub fn glsl_version(version: GlVersion) -> (line: &'static str)
        ensures
            line@ == spec_glsl_version(version),
    {
        let number = version.0;
        if number == 100 {
            "#version 100\n"
        } else if number == 110 {
            "#version 110\n"
        } else if number == 120 {
            "#version 120\n"
        } else if number == 130 {
            "#version 130\n"
        } else if number == 140 {
            "#version 140\n"
        } else if number == 150 {
            "#version 150\n"
        } else if number == 300 {
            "#version 300 es\n"
        } else if number == 330 {
            "#version 330 core\n"
        } else if number == 400 {
            "#version 400 core\n"
        } else if number == 410 || number == 420 {
            "#version 410 core\n"
        } else if 430 <= number && number <= 499 {
            "#version 430 core\n"
        } else {
            "#version 130\n"
        }
    }

    /// The dialect of the vertex shader's source.
    pub fn glsl_vertex(version: GlVersion) -> (source: ShaderSource)
        ensures
            source == spec_glsl_source(version),
    {
        if version.0 < 130 {
            return ShaderSource::Glsl120;
        }
        if version.0 >= 300 {
            return ShaderSource::Glsl300;
        }
        ShaderSource::Glsl130
    }

    /// The dialect of the fragment shader's source.
    pub fn glsl_fragment(version: GlVersion) -> (source: ShaderSource)
        ensures
            source == spec_glsl_source(version),
    {
        if version.0 < 130 {
            return ShaderSource::Glsl120;
        }
        if version.0 >= 300 {
            return ShaderSource::Glsl300;
        }
        ShaderSource::Glsl130
    }

    pub fn fragment_shader(version: GlVersion) -> (shader: Shader)
        ensures
            shader.version@ == spec_glsl_version(version),
            shader.source == spec_glsl_source(version),
            shader.ty == FRAGMENT_SHADER,
    {
        Shader {
            version: Shader::glsl_version(version),
            source: Shader::glsl_fragment(version),
            ty: FRAGMENT_SHADER,
        }
    }

    pub fn vertex_shader(version: GlVersion) -> (shader: Shader)
        ensures
            shader.version@ == spec_glsl_version(version),
            shader.source == spec_glsl_source(version),
            shader.ty == VERTEX_SHADER,
    {
        Shader {
            version: Shader::glsl_version(version),
            source: Shader::glsl_vertex(version),
            ty: VERTEX_SHADER,
        }
    }

    /// Reads the compile status of the shader.
    pub fn check_shader(&self, status: i32) -> (checked: Result<(), OpenGLRenderError>)
        ensures
            checked == if status == FALSE {
                Err::<(), OpenGLRenderError>(OpenGLRenderError::CompileError(self.ty, self.version))
            } else {
                Ok(())
            },
    {
        if status == FALSE {
            return Err(OpenGLRenderError::CompileError(self.ty, self.version));
        }
        Ok(())
    }
}

/// Reads the link status of a program.
pub fn check_program(status: i32) -> (checked: Result<(), OpenGLRenderError>)
    ensures
        checked == if status == FALSE {
            Err::<(), OpenGLRenderError>(OpenGLRenderError::LinkError)
        } else {
            Ok(())
        },
{
    if status == FALSE {
        return Err(OpenGLRenderError::LinkError);
    }
    Ok(())
}

/// The type of the indices of a draw call, by the size of an index in
/// bytes.
pub fn idx_size(index_bytes: usize) -> (ty: u32)
    ensures
        ty == if index_bytes == 2 {
            UNSIGNED_SHORT
        } else {
            UNSIGNED_INT
        },
{
    if index_bytes == 2 {
        UNSIGNED_SHORT
    } else {
        UNSIGNED_INT
    }
}

} // verus!
