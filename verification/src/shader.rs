//! The shader program store: which of the two shading-language dialects the
//! programs are linked in, and what becomes of a failed link.

use vstd::prelude::*;

verus! {

/// The shading-language dialect in which both programs are written twice.
#[derive(Clone, Copy, Debug, PartialEq, Eq, Structural)]
pub enum Dialect {
    /// `#version 120`: `attribute` and `varying`.
    LegacyGlsl,
    /// `#version 150 core`: `in` and `out`.
    CoreGlsl,
}

/// The two programs that live as long as the back-end does.
#[derive(Clone, Copy, Debug, PartialEq, Eq, Structural)]
pub enum Program {
    /// Position and colour.
    Flat,
    /// Position, colour, texture coordinate and one sampler.
    Textured,
}

/// Why no back-end could be constructed.
#[derive(Debug, PartialEq, Eq)]
pub enum InitError {
    /// The context's shading language is older than both dialects.
    UnsupportedShadingLanguage { major: u32, minor: u32 },
    /// The device could not compile or link a program; `log` is what it
    /// reported.
    LinkFailed { program: Program, log: String },
}

/// Whether shading-language version `major.minor` is at least
/// `at_major.at_minor`.
pub open spec fn at_least(major: u32, minor: u32, at_major: u32, at_minor: u32) -> bool {
    major > at_major || (major == at_major && minor >= at_minor)
}

impl Dialect {
    /// The dialect for a context that reports shading-language version
    /// `major.minor`: the core profile from 1.50 on, the legacy dialect from
    /// 1.20 on, none below.
    pub open spec fn spec_select(major: u32, minor: u32) -> Option<Dialect> {
        if at_least(major, minor, 1, 50) {
            Some(Dialect::CoreGlsl)
        } else if at_least(major, minor, 1, 20) {
            Some(Dialect::LegacyGlsl)
        } else {
            None
        }
    }

    /// Resolves the dialect for a context that reports shading-language
    /// version `major.minor`.
    pub fn select(major: u32, minor: u32) -> (r: Result<Dialect, InitError>)
        ensures
            match Dialect::spec_select(major, minor) {
                Some(d) => r == Ok::<Dialect, InitError>(d),
                None => r == Err::<Dialect, InitError>(
                    InitError::UnsupportedShadingLanguage { major, minor },
                ),
            },
    {
        if major > 1 || (major == 1 && minor >= 50) {
            Ok(Dialect::CoreGlsl)
        } else if major == 1 && minor >= 20 {
            Ok(Dialect::LegacyGlsl)
        } else {
            Err(InitError::UnsupportedShadingLanguage { major, minor })
        }
    }
}

/// The two stages of a program.
#[derive(Clone, Copy, Debug, PartialEq, Eq, Structural)]
pub enum Stage {
    /// The vertex shader.
    Vertex,
    /// The fragment shader.
    Fragment,
}

/// The vertex shader of the flat program, legacy dialect.
pub const VERTEX_SHADER_120: &'static str = "#version 120
attribute vec2 pos;
attribute vec4 color;
varying vec4 v_Color;
void main() {
    v_Color = color;
    gl_Position = vec4(pos, 0.0, 1.0);
}
";

/// The vertex shader of the flat program, core profile.
pub const VERTEX_SHADER_150: &'static str = "#version 150 core
in vec2 pos;
in vec4 color;
out vec4 v_Color;
void main() {
    v_Color = color;
    gl_Position = vec4(pos, 0.0, 1.0);
}
";

/// The fragment shader of the flat program, legacy dialect.
pub const FRAGMENT_SHADER_120: &'static str = "#version 120
varying vec4 v_Color;
void main() {
    gl_FragColor = v_Color;
}
";

/// The fragment shader of the flat program, core profile.
pub const FRAGMENT_SHADER_150: &'static str = "#version 150 core
in vec4 v_Color;
out vec4 o_Color;
void main() {
    o_Color = v_Color;
}
";

/// The vertex shader of the textured program, legacy dialect.
pub const VERTEX_SHADER_UV_120: &'static str = "#version 120
attribute vec2 pos;
attribute vec4 color;
attribute vec2 uv;
varying vec4 v_Color;
varying vec2 v_UV;
void main() {
    v_UV = uv;
    v_Color = color;
    gl_Position = vec4(pos, 0.0, 1.0);
}
";

/// The vertex shader of the textured program, core profile.
pub const VERTEX_SHADER_UV_150: &'static str = "#version 150 core
in vec2 pos;
in vec4 color;
in vec2 uv;
out vec4 v_Color;
out vec2 v_UV;
void main() {
    v_UV = uv;
    v_Color = color;
    gl_Position = vec4(pos, 0.0, 1.0);
}
";

/// The fragment shader of the textured program, legacy dialect.
pub const FRAGMENT_SHADER_UV_120: &'static str = "#version 120
uniform sampler2D s_texture;
varying vec2 v_UV;
varying vec4 v_Color;
void main() {
    gl_FragColor = texture2D(s_texture, v_UV) * v_Color;
}
";

/// The fragment shader of the textured program, core profile.
pub const FRAGMENT_SHADER_UV_150: &'static str = "#version 150 core
uniform sampler2D s_texture;
in vec2 v_UV;
in vec4 v_Color;
out vec4 o_Color;
void main() {
    o_Color = texture(s_texture, v_UV) * v_Color;
}
";

/// The source of one stage of one program in one dialect.
pub open spec fn spec_source(program: Program, stage: Stage, dialect: Dialect) -> &'static str {
    match (program, stage, dialect) {
        (Program::Flat, Stage::Vertex, Dialect::LegacyGlsl) => VERTEX_SHADER_120,
        (Program::Flat, Stage::Vertex, Dialect::CoreGlsl) => VERTEX_SHADER_150,
        (Program::Flat, Stage::Fragment, Dialect::LegacyGlsl) => FRAGMENT_SHADER_120,
        (Program::Flat, Stage::Fragment, Dialect::CoreGlsl) => FRAGMENT_SHADER_150,
        (Program::Textured, Stage::Vertex, Dialect::LegacyGlsl) => VERTEX_SHADER_UV_120,
        (Program::Textured, Stage::Vertex, Dialect::CoreGlsl) => VERTEX_SHADER_UV_150,
        (Program::Textured, Stage::Fragment, Dialect::LegacyGlsl) => FRAGMENT_SHADER_UV_120,
        (Program::Textured, Stage::Fragment, Dialect::CoreGlsl) => FRAGMENT_SHADER_UV_150,
    }
}

/// The source to hand to the device for one stage of one program, in the
/// dialect resolved for its context.
#[verifier::when_used_as_spec(spec_source)]
pub fn source(program: Program, stage: Stage, dialect: Dialect) -> (s: &'static str)
    ensures
        s == spec_source(program, stage, dialect),
{
    match program {
        Program::Flat => match stage {
            Stage::Vertex => match dialect {
                Dialect::LegacyGlsl => VERTEX_SHADER_120,
                Dialect::CoreGlsl => VERTEX_SHADER_150,
            },
            Stage::Fragment => match dialect {
                Dialect::LegacyGlsl => FRAGMENT_SHADER_120,
                Dialect::CoreGlsl => FRAGMENT_SHADER_150,
            },
        },
        Program::Textured => match stage {
            Stage::Vertex => match dialect {
                Dialect::LegacyGlsl => VERTEX_SHADER_UV_120,
                Dialect::CoreGlsl => VERTEX_SHADER_UV_150,
            },
            Stage::Fragment => match dialect {
                Dialect::LegacyGlsl => FRAGMENT_SHADER_UV_120,
                Dialect::CoreGlsl => FRAGMENT_SHADER_UV_150,
            },
        },
    }
}

} // verus!
