//! Assembly of the full fragment-shader program text.
//!
//! The operator edits only the shader body; the surrounding boilerplate
//! (the header declaring the standard uniform set and the footer closing
//! it out) is a fixed resource supplied by the embedding program. Assembly
//! is a pure concatenation, strictly header, then body, then footer, and
//! cannot fail: any problem with the resulting text is deferred to the
//! external compiler.

use vstd::prelude::*;
use vstd::string::StringExecFns;

verus! {

/// One assembled, compilable shader program text. Immutable once
/// constructed.
pub struct ShadertoyShader {
    content: String,
}

/// The assembled program text: header, then body, then footer.
pub open spec fn spec_assemble(header: Seq<char>, body: Seq<char>, footer: Seq<char>) -> Seq<
    char,
> {
    header + body + footer
}

impl View for ShadertoyShader {
    type V = Seq<char>;

    closed spec fn view(&self) -> Seq<char> {
        self.content@
    }
}

impl ShadertoyShader {
    /// Assembles the full program text around the given body. Total:
    /// no input is rejected.
    pub fn new(header: &str, content: &str, footer: &str) -> (r: ShadertoyShader)
        ensures
            r@ == spec_assemble(header@, content@, footer@),
    {
        let full = String::from_str(header).concat(content).concat(footer);
        ShadertoyShader { content: full }
    }

    /// The assembled program text, ready to hand to the compiler.
    pub fn as_glsl(&self) -> (r: &str)
        ensures
            r@ == self@,
    {
        self.content.as_str()
    }
}

impl Clone for ShadertoyShader {
    fn clone(&self) -> (r: Self)
        ensures
            r@ == self@,
    {
        ShadertoyShader { content: self.content.clone() }
    }
}

/// Assembly is deterministic: equal header, body and footer texts yield
/// an equal assembled text; no hidden state affects the result.
pub proof fn lemma_assemble_deterministic(
    h1: Seq<char>,
    b1: Seq<char>,
    f1: Seq<char>,
    h2: Seq<char>,
    b2: Seq<char>,
    f2: Seq<char>,
)
    requires
        h1 == h2,
        b1 == b2,
        f1 == f2,
    ensures
        spec_assemble(h1, b1, f1) == spec_assemble(h2, b2, f2),
{
}

} // verus!
