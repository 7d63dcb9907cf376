//! Preparation of GLSL shader source: every program is compiled from a
//! language-version line followed by the shader's own text.

use vstd::prelude::*;
use vstd::string::StringExecFns;

verus! {

/// The language-version line prepended to every shader.
pub open spec fn spec_glsl_version() -> Seq<char> {
    "#version 150\n\n"@
}

/// The language-version line as a string.
pub fn glsl_version() -> (s: &'static str)
    ensures
        s@ == spec_glsl_version(),
{
    "#version 150\n\n"
}

/// Complete shader source: the language-version line, then `body`.
pub fn shader_source_with_version(body: &str) -> (src: String)
    ensures
        src@ == spec_glsl_version() + body@,
{
    let mut src = "#version 150\n\n".to_owned();
    src.append(body);
    src
}

} // verus!
