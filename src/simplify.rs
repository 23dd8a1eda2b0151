//! Reduction of the generic parse tree into the closed simplified vocabulary,
//! re-tokenizing the source of every template parameter.
use vstd::prelude::*;
use crate::error::Error;
use crate::raw::{tokenize, tokenized, RawNode, RawParameter, Warning};
use crate::text::{
    byte_len, byte_slice, reduce_nodes_to_text, slice_bytes, text_byte_len, text_of, valid_byte_range,
};

verus! {

broadcast use vstd::utf8::group_utf8_lib;

/// A node of the simplified tree.
#[derive(Debug, PartialEq)]
pub enum SimpleNode {
    List(Vec<Vec<SimpleNode>>),
    Template { name: String, parameters: Vec<SimpleParameter> },
    Link { target: String, text: String },
    Text(String),
}

/// A template parameter of the simplified tree; `name` is `None` when positional.
#[derive(Debug, PartialEq)]
pub struct SimpleParameter {
    pub name: Option<String>,
    pub value: Vec<SimpleNode>,
}

/// The mathematical value of a `SimpleNode`.
pub enum Simple {
    List(Seq<Seq<Simple>>),
    Template { name: Seq<char>, parameters: Seq<SimpleParam> },
    Link { target: Seq<char>, text: Seq<char> },
    Text(Seq<char>),
}

/// The mathematical value of a `SimpleParameter`.
pub struct SimpleParam {
    pub name: Option<Seq<char>>,
    pub value: Seq<Simple>,
}

/// The value of an optional string.
pub open spec fn opt_view(s: Option<String>) -> Option<Seq<char>> {
    match s {
        Some(v) => Some(v@),
        None => None,
    }
}

/// The value of a simplified node.
pub open spec fn view_node(n: SimpleNode) -> Simple
    decreases n,
{
    match n {
        SimpleNode::List(items) => Simple::List(view_items(items@)),
        SimpleNode::Template { name, parameters } => Simple::Template {
            name: name@,
            parameters: view_params(parameters@),
        },
        SimpleNode::Link { target, text } => Simple::Link { target: target@, text: text@ },
        SimpleNode::Text(value) => Simple::Text(value@),
    }
}

/// The values of a node sequence, in order.
pub open spec fn view_nodes(s: Seq<SimpleNode>) -> Seq<Simple>
    decreases s,
{
    if s.len() == 0 {
        Seq::empty()
    } else {
        view_nodes(s.drop_last()).push(view_node(s.last()))
    }
}

/// The values of the items of a list, in order.
pub open spec fn view_items(s: Seq<Vec<SimpleNode>>) -> Seq<Seq<Simple>>
    decreases s,
{
    if s.len() == 0 {
        Seq::empty()
    } else {
        view_items(s.drop_last()).push(view_nodes(s.last()@))
    }
}

/// The values of a parameter sequence, in order.
pub open spec fn view_params(s: Seq<SimpleParameter>) -> Seq<SimpleParam>
    decreases s,
{
    if s.len() == 0 {
        Seq::empty()
    } else {
        view_params(s.drop_last()).push(
            SimpleParam { name: opt_view(s.last().name), value: view_nodes(s.last().value@) },
        )
    }
}

impl View for SimpleNode {
    type V = Simple;

    open spec fn view(&self) -> Simple {
        view_node(*self)
    }
}

impl View for SimpleParameter {
    type V = SimpleParam;

    open spec fn view(&self) -> SimpleParam {
        SimpleParam { name: opt_view(self.name), value: view_nodes(self.value@) }
    }
}

/// The byte offset at which a parameter's value starts: after `name=` when
/// the parameter is named, at its reported start otherwise.
pub open spec fn param_start(p: RawParameter) -> int {
    match p.name {
        Some(n) => p.start + byte_len(text_of(n@)) + 1,
        None => p.start as int,
    }
}

/// The errors that simplification reports.
pub open spec fn is_parse_error(e: Error) -> bool {
    e is Tokenization || e is InvalidParameterSpan
}

/// What `parse_wikitext` returns for `text`.
pub open spec fn parse_outcome(text: Seq<char>, r: Result<Vec<SimpleNode>, Error>) -> bool {
    match r {
        Ok(v) => simplified_text(text) == Some(view_nodes(v@)),
        Err(e) => simplified_text(text) is None && is_parse_error(e),
    }
}

/// The simplified form of a whole text: `None` when the tokenizer warns about
/// it or about the source of any parameter within it, or when a parameter's
/// span is not a proper part of the text that holds it.
pub open spec fn simplified_text(text: Seq<char>) -> Option<Seq<Simple>> {
    let t = tokenized(text);
    if t.warnings@.len() > 0 {
        None
    } else {
        simplified(t.nodes@, text)
    }
}

/// The simplified form of a node sequence, each node in turn; `None` when any
/// node fails.
pub open spec fn simplified(nodes: Seq<RawNode>, text: Seq<char>) -> Option<Seq<Simple>>
    decreases byte_len(text), nodes,
{
    if nodes.len() == 0 {
        Some(Seq::empty())
    } else {
        match (simplified(nodes.drop_last(), text), simplified_node(nodes.last(), text)) {
            (Some(a), Some(b)) => Some(a + b),
            _ => None,
        }
    }
}

/// The simplified form of one node, as a sequence of zero (the node kind is
/// dropped) or one node.
pub open spec fn simplified_node(n: RawNode, text: Seq<char>) -> Option<Seq<Simple>>
    decreases byte_len(text), n,
{
    match n {
        RawNode::Link { target, text: label } => Some(
            seq![Simple::Link { target: target@, text: text_of(label@) }],
        ),
        RawNode::UnorderedList { items } => match simplified_items(items@, text) {
            Some(s) => Some(seq![Simple::List(s)]),
            None => None,
        },
        RawNode::Text { value } => Some(seq![Simple::Text(value@)]),
        RawNode::CharacterEntity { character } => Some(seq![Simple::Text(seq![character])]),
        RawNode::Template { name, parameters } => match simplified_params(parameters@, text) {
            Some(ps) => Some(seq![Simple::Template { name: text_of(name@), parameters: ps }]),
            None => None,
        },
        _ => Some(Seq::empty()),
    }
}

/// The simplified form of each list item in turn; `None` when any fails.
pub open spec fn simplified_items(items: Seq<Vec<RawNode>>, text: Seq<char>) -> Option<Seq<Seq<Simple>>>
    decreases byte_len(text), items,
{
    if items.len() == 0 {
        Some(Seq::empty())
    } else {
        match (simplified_items(items.drop_last(), text), simplified(items.last()@, text)) {
            (Some(a), Some(b)) => Some(a.push(b)),
            _ => None,
        }
    }
}

/// The simplified form of each parameter in turn; `None` when any fails.
pub open spec fn simplified_params(ps: Seq<RawParameter>, text: Seq<char>) -> Option<Seq<SimpleParam>>
    decreases byte_len(text), ps,
{
    if ps.len() == 0 {
        Some(Seq::empty())
    } else {
        match (simplified_params(ps.drop_last(), text), simplified_param(ps.last(), text)) {
            (Some(a), Some(b)) => Some(a.push(b)),
            _ => None,
        }
    }
}

/// A parameter's value is the simplified form of its own source, cut out of
/// `text` and tokenized afresh.
pub open spec fn simplified_param(p: RawParameter, text: Seq<char>) -> Option<SimpleParam>
    decreases byte_len(text), p,
{
    let start = param_start(p);
    let sub = byte_slice(text, start, p.end as int);
    if valid_byte_range(text, start, p.end as int) && byte_len(sub) < byte_len(text) {
        let t = tokenized(sub);
        if t.warnings@.len() > 0 {
            None
        } else {
            match simplified(t.nodes@, sub) {
                Some(v) => Some(SimpleParam {
                    name: match p.name {
                        Some(n) => Some(text_of(n@)),
                        None => None,
                    },
                    value: v,
                }),
                None => None,
            }
        }
    } else {
        None
    }
}

/// The source text that a list of warnings points at: the text of each
/// warning's span in turn, skipping spans that do not fall on the text.
pub open spec fn warned_text(warnings: Seq<Warning>, text: Seq<char>) -> Seq<char>
    decreases warnings.len(),
{
    if warnings.len() == 0 {
        Seq::empty()
    } else {
        let w = warnings.last();
        warned_text(warnings.drop_last(), text) + if valid_byte_range(
            text,
            w.start as int,
            w.end as int,
        ) {
            byte_slice(text, w.start as int, w.end as int)
        } else {
            Seq::empty()
        }
    }
}

/// `view_nodes` views each node in place.
pub proof fn lemma_view_nodes_index(s: Seq<SimpleNode>)
    ensures
        view_nodes(s).len() == s.len(),
        forall|i: int| 0 <= i < s.len() ==> #[trigger] view_nodes(s)[i] == view_node(s[i]),
    decreases s.len(),
{
    if s.len() > 0 {
        lemma_view_nodes_index(s.drop_last());
    }
}

/// `view_params` views each parameter in place.
pub proof fn lemma_view_params_index(s: Seq<SimpleParameter>)
    ensures
        view_params(s).len() == s.len(),
        forall|i: int| 0 <= i < s.len() ==> #[trigger] view_params(s)[i] == s[i]@,
    decreases s.len(),
{
    if s.len() > 0 {
        lemma_view_params_index(s.drop_last());
    }
}

/// Simplifying the same text twice gives the same outcome: both succeed with
/// equal trees, or both fail.
pub proof fn lemma_parse_repeatable(
    text: Seq<char>,
    r1: Result<Vec<SimpleNode>, Error>,
    r2: Result<Vec<SimpleNode>, Error>,
)
    requires
        parse_outcome(text, r1),
        parse_outcome(text, r2),
    ensures
        r1 is Ok <==> r2 is Ok,
        r1 is Ok ==> view_nodes(r1->Ok_0@) == view_nodes(r2->Ok_0@),
{
}

/// Every parameter value in a simplified tree is the simplified form of the
/// parameter's own source text (after `name=`), tokenized as a document of
/// its own; so list markup in a parameter body is always expanded.
pub proof fn lemma_parameter_value_reparsed(p: RawParameter, text: Seq<char>)
    requires
        simplified_param(p, text) is Some,
    ensures
        simplified_text(byte_slice(text, param_start(p), p.end as int)) == Some(
            simplified_param(p, text)->0.value,
        ),
{
}

proof fn lemma_view_nodes_push(s: Seq<SimpleNode>, x: SimpleNode)
    ensures
        view_nodes(s.push(x)) == view_nodes(s).push(view_node(x)),
{
    assert(s.push(x).drop_last() =~= s);
}

proof fn lemma_view_items_push(s: Seq<Vec<SimpleNode>>, x: Vec<SimpleNode>)
    ensures
        view_items(s.push(x)) == view_items(s).push(view_nodes(x@)),
{
    assert(s.push(x).drop_last() =~= s);
}

proof fn lemma_view_params_push(s: Seq<SimpleParameter>, x: SimpleParameter)
    ensures
        view_params(s.push(x)) == view_params(s).push(x@),
{
    assert(s.push(x).drop_last() =~= s);
}

proof fn lemma_simplified_fails(nodes: Seq<RawNode>, text: Seq<char>, i: int)
    requires
        0 <= i <= nodes.len(),
        simplified(nodes.subrange(0, i), text) is None,
    ensures
        simplified(nodes, text) is None,
    decreases nodes.len(),
{
    if i == nodes.len() {
        assert(nodes.subrange(0, i) =~= nodes);
    } else {
        assert(nodes.drop_last().subrange(0, i) =~= nodes.subrange(0, i));
        lemma_simplified_fails(nodes.drop_last(), text, i);
    }
}

proof fn lemma_simplified_items_fails(items: Seq<Vec<RawNode>>, text: Seq<char>, i: int)
    requires
        0 <= i <= items.len(),
        simplified_items(items.subrange(0, i), text) is None,
    ensures
        simplified_items(items, text) is None,
    decreases items.len(),
{
    if i == items.len() {
        assert(items.subrange(0, i) =~= items);
    } else {
        assert(items.drop_last().subrange(0, i) =~= items.subrange(0, i));
        lemma_simplified_items_fails(items.drop_last(), text, i);
    }
}

proof fn lemma_simplified_params_fails(ps: Seq<RawParameter>, text: Seq<char>, i: int)
    requires
        0 <= i <= ps.len(),
        simplified_params(ps.subrange(0, i), text) is None,
    ensures
        simplified_params(ps, text) is None,
    decreases ps.len(),
{
    if i == ps.len() {
        assert(ps.subrange(0, i) =~= ps);
    } else {
        assert(ps.drop_last().subrange(0, i) =~= ps.subrange(0, i));
        lemma_simplified_params_fails(ps.drop_last(), text, i);
    }
}

/// Relies on `char::to_string`: a string of that one character.
#[verifier::external_body]
fn char_text(c: char) -> (r: String)
    ensures
        r@ == seq![c],
{
    c.to_string()
}

/// Collects the source text that `warnings` point at, for diagnosis.
pub fn collect_warned_text(warnings: &Vec<Warning>, text: &str) -> (r: String)
    ensures
        r@ == warned_text(warnings@, text@),
{
    let mut out = String::new();
    let mut i: usize = 0;
    while i < warnings.len()
        invariant
            i <= warnings.len(),
            out@ == warned_text(warnings@.subrange(0, i as int), text@),
        decreases warnings.len() - i,
    {
        assert(warnings@.subrange(0, i + 1).drop_last() =~= warnings@.subrange(0, i as int));
        let w = warnings[i];
        match slice_bytes(text, w.start, w.end) {
            Some(part) => out.append(part),
            None => {
                assert(out@ =~= out@ + Seq::<char>::empty());
            },
        }
        i = i + 1;
    }
    assert(warnings@.subrange(0, warnings.len() as int) =~= warnings@);
    out
}

/// Tokenizes `text` and simplifies the resulting tree.
pub fn parse_wikitext(text: &str) -> (r: Result<Vec<SimpleNode>, Error>)
    ensures
        parse_outcome(text@, r),
{
    let t = tokenize(text);
    if t.warnings.len() > 0 {
        return Err(Error::Tokenization(collect_warned_text(&t.warnings, text)));
    }
    parse_nodes(&t.nodes, text)
}

/// Simplifies a node sequence whose byte offsets refer to `text`.
pub fn parse_nodes(nodes: &Vec<RawNode>, text: &str) -> (r: Result<Vec<SimpleNode>, Error>)
    ensures
        match r {
            Ok(v) => simplified(nodes@, text@) == Some(view_nodes(v@)),
            Err(e) => simplified(nodes@, text@) is None && is_parse_error(e),
        },
    decreases byte_len(text@), nodes,
{
    let mut out: Vec<SimpleNode> = Vec::new();
    let mut i: usize = 0;
    while i < nodes.len()
        invariant
            i <= nodes.len(),
            simplified(nodes@.subrange(0, i as int), text@) == Some(view_nodes(out@)),
        decreases nodes.len() - i,
    {
        assert(nodes@.subrange(0, i + 1).drop_last() =~= nodes@.subrange(0, i as int));
        match parse_node(&nodes[i], text) {
            Ok(Some(n)) => {
                proof {
                    lemma_view_nodes_push(out@, n);
                    assert(view_nodes(out@) + seq![view_node(n)] =~= view_nodes(out@).push(
                        view_node(n),
                    ));
                }
                out.push(n);
            },
            Ok(None) => {
                assert(view_nodes(out@) + Seq::<Simple>::empty() =~= view_nodes(out@));
            },
            Err(e) => {
                proof {
                    lemma_simplified_fails(nodes@, text@, i + 1);
                }
                return Err(e);
            },
        }
        i = i + 1;
    }
    assert(nodes@.subrange(0, nodes.len() as int) =~= nodes@);
    Ok(out)
}

/// Simplifies one node: `None` for the kinds outside the simplified vocabulary.
pub fn parse_node(node: &RawNode, text: &str) -> (r: Result<Option<SimpleNode>, Error>)
    ensures
        match r {
            Ok(Some(n)) => simplified_node(*node, text@) == Some(seq![view_node(n)]),
            Ok(None) => simplified_node(*node, text@) == Some(Seq::<Simple>::empty()),
            Err(e) => simplified_node(*node, text@) is None && is_parse_error(e),
        },
    decreases byte_len(text@), node,
{
    match node {
        RawNode::Link { target, text: label } => Ok(
            Some(SimpleNode::Link { target: target.clone(), text: reduce_nodes_to_text(label) }),
        ),
        RawNode::UnorderedList { items } => match parse_list_items(items, text) {
            Ok(n) => Ok(Some(n)),
            Err(e) => Err(e),
        },
        RawNode::Text { value } => Ok(Some(SimpleNode::Text(value.clone()))),
        RawNode::CharacterEntity { character } => Ok(Some(SimpleNode::Text(char_text(*character)))),
        RawNode::Template { name, parameters } => {
            let name = reduce_nodes_to_text(name);
            match parse_parameters(parameters, text) {
                Ok(ps) => Ok(Some(SimpleNode::Template { name, parameters: ps })),
                Err(e) => Err(e),
            }
        },
        _ => Ok(None),
    }
}

/// Simplifies the items of an unordered list into a `List` node.
pub fn parse_list_items(items: &Vec<Vec<RawNode>>, text: &str) -> (r: Result<SimpleNode, Error>)
    ensures
        match r {
            Ok(n) => simplified_items(items@, text@) matches Some(s) && view_node(n) == Simple::List(s),
            Err(e) => simplified_items(items@, text@) is None && is_parse_error(e),
        },
    decreases byte_len(text@), items,
{
    let mut out: Vec<Vec<SimpleNode>> = Vec::new();
    let mut i: usize = 0;
    while i < items.len()
        invariant
            i <= items.len(),
            simplified_items(items@.subrange(0, i as int), text@) == Some(view_items(out@)),
        decreases items.len() - i,
    {
        assert(items@.subrange(0, i + 1).drop_last() =~= items@.subrange(0, i as int));
        match parse_nodes(&items[i], text) {
            Ok(v) => {
                proof {
                    lemma_view_items_push(out@, v);
                }
                out.push(v);
            },
            Err(e) => {
                proof {
                    lemma_simplified_items_fails(items@, text@, i + 1);
                }
                return Err(e);
            },
        }
        i = i + 1;
    }
    assert(items@.subrange(0, items.len() as int) =~= items@);
    Ok(SimpleNode::List(out))
}

/// Simplifies each parameter of a template in turn.
pub fn parse_parameters(ps: &Vec<RawParameter>, text: &str) -> (r: Result<Vec<SimpleParameter>, Error>)
    ensures
        match r {
            Ok(v) => simplified_params(ps@, text@) == Some(view_params(v@)),
            Err(e) => simplified_params(ps@, text@) is None && is_parse_error(e),
        },
    decreases byte_len(text@), ps,
{
    let mut out: Vec<SimpleParameter> = Vec::new();
    let mut i: usize = 0;
    while i < ps.len()
        invariant
            i <= ps.len(),
            simplified_params(ps@.subrange(0, i as int), text@) == Some(view_params(out@)),
        decreases ps.len() - i,
    {
        assert(ps@.subrange(0, i + 1).drop_last() =~= ps@.subrange(0, i as int));
        match parse_parameter(&ps[i], text) {
            Ok(p) => {
                proof {
                    lemma_view_params_push(out@, p);
                }
                out.push(p);
            },
            Err(e) => {
                proof {
                    lemma_simplified_params_fails(ps@, text@, i + 1);
                }
                return Err(e);
            },
        }
        i = i + 1;
    }
    assert(ps@.subrange(0, ps.len() as int) =~= ps@);
    Ok(out)
}

/// Simplifies one template parameter by cutting its value's source out of
/// `text` (after `name=` when named) and tokenizing that source afresh, since
/// the tokenizer leaves list markup inside parameters unparsed. Offsets in
/// the nested tree refer to that cut-out source. A span that does not lie on
/// `text`'s character boundaries, or that covers all of `text`, is refused.
pub fn parse_parameter(p: &RawParameter, text: &str) -> (r: Result<SimpleParameter, Error>)
    ensures
        match r {
            Ok(sp) => simplified_param(*p, text@) == Some(sp@),
            Err(e) => simplified_param(*p, text@) is None && is_parse_error(e),
        },
    decreases byte_len(text@), p,
{
    let bad_span = Error::InvalidParameterSpan { start: p.start, end: p.end };
    let name: Option<String> = match &p.name {
        Some(n) => Some(reduce_nodes_to_text(n)),
        None => None,
    };
    let start: usize = match &name {
        Some(n) => {
            let l = text_byte_len(n.as_str());
            if p.start > usize::MAX - 1 || l > usize::MAX - 1 - p.start {
                return Err(bad_span);
            }
            p.start + l + 1
        },
        None => p.start,
    };
    let sub = match slice_bytes(text, start, p.end) {
        Some(s) => s,
        None => {
            return Err(bad_span);
        },
    };
    if start == 0 && p.end == text_byte_len(text) {
        return Err(bad_span);
    }
    let t = tokenize(sub);
    if t.warnings.len() > 0 {
        return Err(Error::Tokenization(collect_warned_text(&t.warnings, sub)));
    }
    match parse_nodes(&t.nodes, sub) {
        Ok(value) => Ok(SimpleParameter { name, value }),
        Err(e) => Err(e),
    }
}

} // verus!
