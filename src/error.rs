//! Errors of the library.
use vstd::prelude::*;

verus! {

/// How a timeline table's header row departs from the expected columns.
#[derive(Debug, PartialEq, Eq)]
pub enum HeaderMismatch {
    /// The row does not have exactly four cells.
    CellCount { count: usize },
    /// The spacer column (index 1) has content.
    SpacerNotEmpty,
    /// A column that must hold one literal text node holds something else.
    NotSingleText { column: usize, expected: String },
    /// A column holds a text node with the wrong value.
    WrongText { column: usize, expected: String, found: String },
}

/// How a timeline table's data row departs from the expected shape.
#[derive(Debug, PartialEq, Eq)]
pub enum RowMismatch {
    /// The row does not have exactly four cells.
    CellCount { count: usize },
    /// The media type cell (column 1) does not hold exactly one text node.
    MediaTypeNotText,
    /// A cell holds a template whose name is not exactly one text node.
    TemplateNameNotText { column: usize },
}

/// Where a simplified document departs from the shape that the appearance
/// index expects.
#[derive(Debug, Clone, Copy, PartialEq, Eq)]
pub enum Structure {
    /// The document does not start with a template.
    RootNotTemplate,
    /// A parameter of the root template has no name.
    UnnamedParameter,
}

#[derive(Debug)]
pub enum Error {
    /// A timeline table's header row does not match the expected columns.
    TimelineParsing(HeaderMismatch),
    /// A timeline table's data row does not have the expected shape.
    TimelineRow(RowMismatch),
    /// A document does not have the expected shape.
    UnexpectedWikitextStructure(Structure),
    /// The tokenizer warned about the text; holds the offending source text.
    Tokenization(String),
    /// A template parameter's source span is not a proper part of its text.
    InvalidParameterSpan { start: usize, end: usize },
}

} // verus!
