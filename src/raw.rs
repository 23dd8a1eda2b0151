//! The generic parse tree that the wiki-markup tokenizer produces, held as
//! plain values, and the trusted bridge to that tokenizer.
use vstd::prelude::*;
use parse_wiki_text::{Configuration, Node, Parameter, TableRow};

verus! {

/// One node of the generic parse tree. Kinds that the simplifier does not
/// read are collapsed into `Other`.
#[derive(Debug)]
pub enum RawNode {
    Text { value: String },
    CharacterEntity { character: char },
    Link { target: String, text: Vec<RawNode> },
    UnorderedList { items: Vec<Vec<RawNode>> },
    Template { name: Vec<RawNode>, parameters: Vec<RawParameter> },
    Table { rows: Vec<RawRow> },
    Other,
}

/// A template parameter: its name nodes (absent when positional) and the byte
/// span `[start, end)` of its source, which includes the `name=` prefix.
#[derive(Debug)]
pub struct RawParameter {
    pub name: Option<Vec<RawNode>>,
    pub start: usize,
    pub end: usize,
}

/// A table row: the content of each of its cells.
#[derive(Debug)]
pub struct RawRow {
    pub cells: Vec<Vec<RawNode>>,
}

/// The byte span of a construct that the tokenizer could not resolve.
#[derive(Debug, Clone, Copy)]
pub struct Warning {
    pub start: usize,
    pub end: usize,
}

/// What the tokenizer returns for one text: the top-level nodes and warnings.
#[derive(Debug)]
pub struct Tokenized {
    pub nodes: Vec<RawNode>,
    pub warnings: Vec<Warning>,
}

#[verifier::external_type_specification]
#[verifier::external_body]
pub struct ExNode<'a>(Node<'a>);

#[verifier::external_type_specification]
#[verifier::external_body]
pub struct ExParameter<'a>(Parameter<'a>);

#[verifier::external_type_specification]
#[verifier::external_body]
pub struct ExTableRow<'a>(TableRow<'a>);

/// The tree that the tokenizer, with its default configuration, produces for a text.
pub uninterp spec fn tokenized(text: Seq<char>) -> Tokenized;

/// Tokenizes `text` into the generic parse tree and its warnings.
pub fn tokenize(text: &str) -> (r: Tokenized)
    ensures
        r == tokenized(text@),
{
    parse_with_default_configuration(text)
}

/// Relies on parse_wiki_text's `Configuration::parse` under
/// `Configuration::default()`: a pure function of the text, which returns its
/// node tree and the spans it warns about.
#[verifier::external_body]
fn parse_with_default_configuration(text: &str) -> (r: Tokenized)
    ensures
        r == tokenized(text@),
{
    let output = Configuration::default().parse(text);
    Tokenized {
        nodes: raw_nodes(&output.nodes),
        warnings: output.warnings.iter().map(|w| Warning { start: w.start, end: w.end }).collect(),
    }
}

/// Converts a sequence of parse_wiki_text nodes, one for one.
#[verifier::external_body]
fn raw_nodes(nodes: &Vec<Node>) -> Vec<RawNode> {
    nodes.iter().map(raw_node).collect()
}

/// Converts one parse_wiki_text node, moving the fields that `RawNode` keeps.
#[verifier::external_body]
fn raw_node(node: &Node) -> RawNode {
    match node {
        Node::Text { value, .. } => RawNode::Text { value: value.to_string() },
        Node::CharacterEntity { character, .. } => RawNode::CharacterEntity { character: *character },
        Node::Link { target, text, .. } => RawNode::Link { target: target.to_string(), text: raw_nodes(text) },
        Node::UnorderedList { items, .. } => RawNode::UnorderedList { items: items.iter().map(|i| raw_nodes(&i.nodes)).collect() },
        Node::Template { name, parameters, .. } => RawNode::Template {
            name: raw_nodes(name),
            parameters: parameters.iter().map(raw_parameter).collect(),
        },
        Node::Table { rows, .. } => RawNode::Table { rows: rows.iter().map(raw_row).collect() },
        _ => RawNode::Other,
    }
}

/// Converts a parse_wiki_text template parameter, keeping its name and span.
#[verifier::external_body]
fn raw_parameter(p: &Parameter) -> RawParameter {
    RawParameter { name: p.name.as_ref().map(raw_nodes), start: p.start, end: p.end }
}

/// Converts a parse_wiki_text table row, keeping the content of each cell.
#[verifier::external_body]
fn raw_row(r: &TableRow) -> RawRow {
    RawRow { cells: r.cells.iter().map(|c| raw_nodes(&c.content)).collect() }
}

} // verus!
