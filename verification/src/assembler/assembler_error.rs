use vstd::prelude::*;
use vstd::string::*;

verus! {

/// The position of a token in the source: line, column and width in characters.
#[derive(Clone, Copy, Debug, PartialEq, Eq, Structural)]
pub struct Token {
    pub line: usize,
    pub column: usize,
    pub width: usize,
}

/// An error of the assembler, with the place in the source it points at.
#[derive(Debug, Clone)]
pub struct AssemblerError {
    pub error_message: String,
    pub line_number: usize,
    pub column: usize,
    pub width: usize,
}

/// Whether the span from the first to the last token of an expression can be measured: the
/// last token must end at or after the start of the first, within `usize`.
pub open spec fn span_defined(expression: Seq<Token>) -> bool {
    expression.len() > 0 ==> {
        let first = expression[0];
        let last = expression.last();
        first.column <= last.column + last.width <= usize::MAX
    }
}

impl AssemblerError {
    pub fn new(error_message: String, line_number: usize, column: usize, width: usize) -> (r: Self)
        ensures
            r.error_message@ == error_message@,
            r.line_number == line_number,
            r.column == column,
            r.width == width,
    {
        Self { error_message, line_number, column, width }
    }

    /// An error pointing at a token.
    pub fn from_token(error_message: String, token: &Token) -> (r: Self)
        ensures
            r.error_message@ == error_message@,
            r.line_number == token.line,
            r.column == token.column,
            r.width == token.width,
    {
        Self { error_message, line_number: token.line, column: token.column, width: token.width }
    }

    /// An error pointing at an expression, given by its tokens in order: from the start of
    /// the first token to the end of the last. An empty expression has no place; the message
    /// says so.
    pub fn from_expression(error_message: String, expression: &[Token]) -> (r: Self)
        requires
            span_defined(expression@),
        ensures
            expression@.len() > 0 ==> {
                let first = expression@[0];
                let last = expression@.last();
                &&& r.error_message@ == error_message@
                &&& r.line_number == first.line
                &&& r.column == first.column
                &&& r.width == last.column + last.width - first.column
            },
            expression@.len() == 0 ==> {
                &&& r.error_message@ == error_message@ + " (empty expression somewhere)"@
                &&& r.line_number == 0
                &&& r.column == 0
                &&& r.width == 0
            },
    {
        if expression.len() > 0 {
            let first = expression[0];
            let last = expression[expression.len() - 1];
            Self {
                error_message,
                line_number: first.line,
                column: first.column,
                width: last.column + last.width - first.column,
            }
        } else {
            Self {
                error_message: error_message.concat(" (empty expression somewhere)"),
                line_number: 0,
                column: 0,
                width: 0,
            }
        }
    }
}

} // verus!
