use vstd::prelude::*;

verus! {

/// The step at which rendering a document failed.
#[derive(Clone, Copy, Debug, PartialEq, Eq, Structural)]
pub enum Failure {
    /// The highlighter could not tokenize a line of a code block.
    Tokenize,
    /// The highlighted regions of a line could not be written as HTML.
    Markup,
}

/// Why a document could not be rendered.
#[derive(Debug)]
pub struct RenderError {
    pub kind: Failure,
    /// The highlighter's own description of what went wrong.
    pub message: String,
}

/// A rendering result over mathematical strings: the HTML, or the step that
/// failed.
pub open spec fn outcome(r: Result<String, RenderError>) -> Result<Seq<char>, Failure> {
    match r {
        Ok(html) => Ok(html@),
        Err(e) => Err(e.kind),
    }
}

} // verus!
