//! The error taxonomy a failed parse surfaces to the caller.

use vstd::prelude::*;

verus! {

/// Which field a malformed numeric literal was found in.
#[derive(Debug, PartialEq, Eq, Structural, Clone, Copy)]
pub enum FieldName {
    ActionNumber,
    Group,
    Image,
    X,
    Y,
    Time,
    XScale,
    YScale,
    Rotation,
    BlendSrc,
    BlendDst,
    BoxCoord,
}

/// Which modifier an unrecognized spelling was found in.
#[derive(Debug, PartialEq, Eq, Structural, Clone, Copy)]
pub enum ModifierName {
    Flip,
    Blend,
    Interpolation,
    ClsnKind,
}

/// The rule kind of a node that stood where it is not allowed.
#[derive(Debug, PartialEq, Eq, Structural, Clone, Copy)]
pub enum NodeKind {
    ActionDef,
    ActionElement,
    Interpolation,
    ClsnGroup,
    ClsnBoxes,
    Loopstart,
}

/// What the recognizer expected at the point a line failed to match the
/// grammar.
#[derive(Debug, PartialEq, Eq, Structural, Clone, Copy)]
pub enum Expected {
    ClsnCount,
    ActionKeyword,
    ActionNumber,
    CloseBracket,
    LineForm,
    ClsnSeparator,
    ClsnIndex,
    EqualsSign,
    BoxNumbers,
    BoxLine,
    BlendNumbers,
    ElementFields,
    InterpolationKind,
}

/// A failed parse: either the text does not match the grammar
/// (`SyntaxError`, with the 1-based line it failed on), or a recognized
/// node carries an invalid value.
#[derive(Debug, Clone)]
pub enum ParseError {
    /// The document does not conform to the grammar.
    SyntaxError { line: usize, expected: Expected },
    /// A numeric field's text does not parse as the expected numeric kind.
    InvalidNumericLiteral { field: FieldName, text: Vec<char> },
    /// A flip/blend/interpolation/clsn-kind text matches no recognized
    /// spelling.
    InvalidModifierValue { modifier: ModifierName, text: Vec<char> },
    /// A node of an unhandled kind appeared where one of the documented
    /// kinds was expected.
    UnexpectedNode { kind: NodeKind },
}

/// Mathematical model of a `ParseError`.
pub enum ParseErrorV {
    SyntaxError { line: int, expected: Expected },
    InvalidNumericLiteral { field: FieldName, text: Seq<char> },
    InvalidModifierValue { modifier: ModifierName, text: Seq<char> },
    UnexpectedNode { kind: NodeKind },
}

impl View for ParseError {
    type V = ParseErrorV;

    open spec fn view(&self) -> ParseErrorV {
        match self {
            ParseError::SyntaxError { line, expected } => ParseErrorV::SyntaxError {
                line: *line as int,
                expected: *expected,
            },
            ParseError::InvalidNumericLiteral { field, text } => ParseErrorV::InvalidNumericLiteral {
                field: *field,
                text: text@,
            },
            ParseError::InvalidModifierValue { modifier, text } => ParseErrorV::InvalidModifierValue {
                modifier: *modifier,
                text: text@,
            },
            ParseError::UnexpectedNode { kind } => ParseErrorV::UnexpectedNode { kind: *kind },
        }
    }
}

} // verus!
