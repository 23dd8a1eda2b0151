//! The appearance index: the entities that a simplified tree links to, each
//! with the annotation templates that follow its link.
use vstd::prelude::*;
use crate::error::{Error, Structure};
use crate::simplify::{
    lemma_view_nodes_index, lemma_view_params_index, parse_wikitext,
    simplified_text, view_node, view_nodes, view_params, Simple, SimpleNode, SimpleParam,
};

verus! {

/// One referenced entity and the names of the annotation templates seen after
/// its link; `templates` stays `None` until the first annotation.
#[derive(Debug, PartialEq)]
pub struct Appearance {
    pub name: String,
    pub templates: Option<Vec<String>>,
}

/// The mathematical value of an `Appearance`.
pub struct Appear {
    pub name: Seq<char>,
    pub templates: Option<Seq<Seq<char>>>,
}

/// The values of a sequence of strings.
pub open spec fn view_strings(s: Seq<String>) -> Seq<Seq<char>> {
    s.map_values(|x: String| x@)
}

impl View for Appearance {
    type V = Appear;

    open spec fn view(&self) -> Appear {
        Appear {
            name: self.name@,
            templates: match self.templates {
                Some(t) => Some(view_strings(t@)),
                None => None,
            },
        }
    }
}

/// The values of a sequence of appearances.
pub open spec fn view_appearances(s: Seq<Appearance>) -> Seq<Appear> {
    s.map_values(|a: Appearance| a@)
}

/// `a` with `name` appended to its annotation templates, which are created
/// when absent.
pub open spec fn with_template(a: Appear, name: Seq<char>) -> Appear {
    Appear {
        name: a.name,
        templates: Some(
            match a.templates {
                Some(t) => t.push(name),
                None => seq![name],
            },
        ),
    }
}

/// The appearances of a node sequence, in one forward pass: a link adds an
/// appearance; a template annotates the last appearance so far, or is
/// dropped when there is none; a list contributes the appearances of each of
/// its items in turn; text contributes nothing.
pub open spec fn collected(nodes: Seq<Simple>) -> Seq<Appear>
    decreases nodes,
{
    if nodes.len() == 0 {
        Seq::empty()
    } else {
        let acc = collected(nodes.drop_last());
        match nodes.last() {
            Simple::Link { target, .. } => acc.push(Appear { name: target, templates: None }),
            Simple::List(items) => acc + collected_items(items),
            Simple::Template { name, .. } => if acc.len() == 0 {
                acc
            } else {
                acc.update(acc.len() - 1, with_template(acc.last(), name))
            },
            Simple::Text(_) => acc,
        }
    }
}

/// The appearances of the items of a list, concatenated in order.
pub open spec fn collected_items(items: Seq<Seq<Simple>>) -> Seq<Appear>
    decreases items,
{
    if items.len() == 0 {
        Seq::empty()
    } else {
        collected_items(items.drop_last()) + collected(items.last())
    }
}

/// The number of `Link` nodes in a sequence, counting those nested in lists.
pub open spec fn link_count(nodes: Seq<Simple>) -> nat
    decreases nodes,
{
    if nodes.len() == 0 {
        0
    } else {
        link_count(nodes.drop_last()) + match nodes.last() {
            Simple::Link { .. } => 1,
            Simple::List(items) => link_count_items(items),
            _ => 0,
        }
    }
}

/// The number of `Link` nodes in the items of a list.
pub open spec fn link_count_items(items: Seq<Seq<Simple>>) -> nat
    decreases items,
{
    if items.len() == 0 {
        0
    } else {
        link_count_items(items.drop_last()) + link_count(items.last())
    }
}

proof fn lemma_view_nodes_prefix(s: Seq<SimpleNode>, i: int)
    requires
        0 <= i < s.len(),
    ensures
        view_nodes(s.subrange(0, i + 1)) == view_nodes(s.subrange(0, i)).push(view_node(s[i])),
{
    assert(s.subrange(0, i + 1).drop_last() =~= s.subrange(0, i));
}

proof fn lemma_view_items_prefix(s: Seq<Vec<SimpleNode>>, i: int)
    requires
        0 <= i < s.len(),
    ensures
        crate::simplify::view_items(s.subrange(0, i + 1)) == crate::simplify::view_items(
            s.subrange(0, i),
        ).push(view_nodes(s[i]@)),
{
    assert(s.subrange(0, i + 1).drop_last() =~= s.subrange(0, i));
}

/// The appearances of each list item in turn, concatenated.
fn collect_links_from_items(items: &Vec<Vec<SimpleNode>>) -> (r: Vec<Appearance>)
    ensures
        view_appearances(r@) == collected_items(crate::simplify::view_items(items@)),
    decreases items,
{
    let mut out: Vec<Appearance> = Vec::new();
    let mut j: usize = 0;
    while j < items.len()
        invariant
            j <= items.len(),
            view_appearances(out@) == collected_items(
                crate::simplify::view_items(items@.subrange(0, j as int)),
            ),
        decreases items.len() - j,
    {
        proof {
            lemma_view_items_prefix(items@, j as int);
            assert(crate::simplify::view_items(items@.subrange(0, j + 1)).drop_last()
                =~= crate::simplify::view_items(items@.subrange(0, j as int)));
        }
        let ghost before = out@;
        let mut sub = collect_links_from_nodes(&items[j]);
        let ghost sub_v = sub@;
        out.append(&mut sub);
        assert(view_appearances(out@) =~= view_appearances(before) + view_appearances(sub_v));
        j = j + 1;
    }
    assert(items@.subrange(0, items.len() as int) =~= items@);
    out
}

/// Walks `nodes` in order and builds the appearance list: see `collected`.
pub fn collect_links_from_nodes(nodes: &Vec<SimpleNode>) -> (r: Vec<Appearance>)
    ensures
        view_appearances(r@) == collected(view_nodes(nodes@)),
    decreases nodes,
{
    let mut out: Vec<Appearance> = Vec::new();
    let mut i: usize = 0;
    while i < nodes.len()
        invariant
            i <= nodes.len(),
            view_appearances(out@) == collected(view_nodes(nodes@.subrange(0, i as int))),
        decreases nodes.len() - i,
    {
        proof {
            lemma_view_nodes_prefix(nodes@, i as int);
            assert(view_nodes(nodes@.subrange(0, i + 1)).drop_last() =~= view_nodes(
                nodes@.subrange(0, i as int),
            ));
        }
        let ghost acc = view_appearances(out@);
        match &nodes[i] {
            SimpleNode::Link { target, .. } => {
                out.push(Appearance { name: target.clone(), templates: None });
                assert(view_appearances(out@) =~= acc.push(out@.last()@));
            },
            SimpleNode::List(items) => {
                let mut sub = collect_links_from_items(items);
                let ghost sub_v = sub@;
                out.append(&mut sub);
                assert(view_appearances(out@) =~= acc + view_appearances(sub_v));
            },
            SimpleNode::Template { name, .. } => {
                if out.len() > 0 {
                    let ghost whole = out@;
                    let last = out.pop().unwrap();
                    let ghost popped = out@;
                    assert(whole =~= popped.push(last));
                    assert(acc.last() == last@);
                    let ghost last_v = last@;
                    let ghost grown = with_template(last_v, name@).templates->0;
                    let Appearance { name: target, templates } = last;
                    let templates = match templates {
                        Some(t) => {
                            let mut t = t;
                            t.push(name.clone());
                            assert(view_strings(t@) =~= grown);
                            t
                        },
                        None => {
                            let mut t: Vec<String> = Vec::new();
                            t.push(name.clone());
                            assert(view_strings(t@) =~= grown);
                            t
                        },
                    };
                    let updated = Appearance { name: target, templates: Some(templates) };
                    assert(updated@ == with_template(acc.last(), name@));
                    out.push(updated);
                    assert(view_appearances(popped) =~= acc.drop_last());
                    assert(view_appearances(out@) =~= acc.update(
                        acc.len() - 1,
                        with_template(acc.last(), name@),
                    ));
                }
            },
            SimpleNode::Text(_) => {},
        }
        i = i + 1;
    }
    assert(nodes@.subrange(0, nodes.len() as int) =~= nodes@);
    out
}

/// Collecting over a node sequence yields exactly one appearance per link,
/// however many annotation templates stand between the links.
pub proof fn lemma_collect_counts_links(nodes: Seq<Simple>)
    ensures
        collected(nodes).len() == link_count(nodes),
    decreases nodes,
{
    if nodes.len() > 0 {
        lemma_collect_counts_links(nodes.drop_last());
        if let Simple::List(items) = nodes.last() {
            lemma_collect_items_counts_links(items);
        }
    }
}

/// The list form of `lemma_collect_counts_links`.
pub proof fn lemma_collect_items_counts_links(items: Seq<Seq<Simple>>)
    ensures
        collected_items(items).len() == link_count_items(items),
    decreases items,
{
    if items.len() > 0 {
        lemma_collect_items_counts_links(items.drop_last());
        lemma_collect_counts_links(items.last());
    }
}

/// Collecting twice over the same nodes gives equal appearance sequences:
/// the result depends on the nodes' value alone, which collecting leaves as it was.
pub proof fn lemma_collect_repeatable(
    nodes: Vec<SimpleNode>,
    r1: Vec<Appearance>,
    r2: Vec<Appearance>,
)
    requires
        view_appearances(r1@) == collected(view_nodes(nodes@)),
        view_appearances(r2@) == collected(view_nodes(nodes@)),
    ensures
        view_appearances(r1@) == view_appearances(r2@),
{
}

/// One section of the appearance index: its name and its appearances.
pub type SectionView = (Seq<char>, Seq<Appear>);

/// The position of the section named `key`, or -1 when there is none.
pub open spec fn key_index(idx: Seq<SectionView>, key: Seq<char>) -> int
    decreases idx.len(),
{
    if idx.len() == 0 {
        -1
    } else if idx[0].0 == key {
        0
    } else {
        let k = key_index(idx.drop_first(), key);
        if k < 0 {
            -1
        } else {
            k + 1
        }
    }
}

/// `idx` with the section `key` set to `value`: in place when the name is
/// already there, at the end otherwise.
pub open spec fn upsert(idx: Seq<SectionView>, key: Seq<char>, value: Seq<Appear>) -> Seq<SectionView> {
    let k = key_index(idx, key);
    if k < 0 {
        idx.push((key, value))
    } else {
        idx.update(k, (key, value))
    }
}

/// The index of a root template's parameters, taken in order: each named
/// parameter records the appearances collected from its value; `None` when a
/// parameter has no name.
pub open spec fn index_of(params: Seq<SimpleParam>) -> Option<Seq<SectionView>>
    decreases params.len(),
{
    if params.len() == 0 {
        Some(Seq::empty())
    } else {
        match (index_of(params.drop_last()), params.last().name) {
            (Some(idx), Some(n)) => Some(upsert(idx, n, collected(params.last().value))),
            _ => None,
        }
    }
}

/// The appearance index of a simplified document, whose first node must be a
/// template with named parameters only.
pub open spec fn document_index(nodes: Seq<Simple>) -> Result<Seq<SectionView>, Structure> {
    if nodes.len() > 0 && nodes[0] is Template {
        match index_of(nodes[0]->parameters) {
            Some(idx) => Ok(idx),
            None => Err(Structure::UnnamedParameter),
        }
    } else {
        Err(Structure::RootNotTemplate)
    }
}

/// A document's simplified nodes and its appearance index, whose section
/// names are unique and kept in the order in which they first appear.
#[derive(Debug)]
pub struct Appearances {
    pub nodes: Vec<SimpleNode>,
    pub links: Vec<(String, Vec<Appearance>)>,
}

/// The value of an appearance index.
pub open spec fn view_index(s: Seq<(String, Vec<Appearance>)>) -> Seq<SectionView> {
    s.map_values(|e: (String, Vec<Appearance>)| (e.0@, view_appearances(e.1@)))
}

proof fn lemma_key_index(idx: Seq<SectionView>, key: Seq<char>, j: int)
    requires
        0 <= j <= idx.len(),
        forall|k: int| 0 <= k < j ==> idx[k].0 != key,
        j < idx.len() ==> idx[j].0 == key,
    ensures
        key_index(idx, key) == if j < idx.len() {
            j
        } else {
            -1
        },
    decreases j,
{
    if idx.len() > 0 && j > 0 {
        assert forall|k: int| 0 <= k < j - 1 implies idx.drop_first()[k].0 != key by {
            assert(idx.drop_first()[k] == idx[k + 1]);
        }
        lemma_key_index(idx.drop_first(), key, j - 1);
    }
}

/// Builds the appearance index of the parameters of a root template.
pub fn index_parameters(params: &Vec<crate::simplify::SimpleParameter>) -> (r: Result<
    Vec<(String, Vec<Appearance>)>,
    Structure,
>)
    ensures
        match r {
            Ok(idx) => index_of(view_params(params@)) == Some(view_index(idx@)),
            Err(s) => index_of(view_params(params@)) is None && s == Structure::UnnamedParameter,
        },
{
    proof {
        lemma_view_params_index(params@);
    }
    let mut links: Vec<(String, Vec<Appearance>)> = Vec::new();
    let mut i: usize = 0;
    while i < params.len()
        invariant
            i <= params.len(),
            view_params(params@).len() == params.len(),
            forall|k: int| 0 <= k < params.len() ==> #[trigger] view_params(params@)[k] == params@[k]@,
            index_of(view_params(params@).subrange(0, i as int)) == Some(view_index(links@)),
        decreases params.len() - i,
    {
        let ghost ps = view_params(params@);
        assert(ps.subrange(0, i + 1).drop_last() =~= ps.subrange(0, i as int));
        assert(ps.subrange(0, i + 1).last() == params@[i as int]@);
        let name = match &params[i].name {
            Some(n) => n.clone(),
            None => {
                proof {
                    assert forall|m: int| i + 1 <= m <= ps.len() implies #[trigger] index_of(
                        ps.subrange(0, m),
                    ) is None by {
                        lemma_index_of_fails(ps.subrange(0, m), i + 1);
                        assert(ps.subrange(0, m).subrange(0, i + 1) =~= ps.subrange(0, i + 1));
                    }
                    assert(ps.subrange(0, ps.len() as int) =~= ps);
                }
                return Err(Structure::UnnamedParameter);
            },
        };
        let apps = collect_links_from_nodes(&params[i].value);
        let ghost before = view_index(links@);
        let mut j: usize = 0;
        while j < links.len() && !(links[j].0 == name)
            invariant
                j <= links.len(),
                before == view_index(links@),
                forall|k: int| 0 <= k < j ==> before[k].0 != name@,
            decreases links.len() - j,
        {
            j = j + 1;
        }
        proof {
            lemma_key_index(before, name@, j as int);
        }
        if j < links.len() {
            links.set(j, (name, apps));
            assert(view_index(links@) =~= before.update(j as int, (name@, view_appearances(apps@))));
        } else {
            links.push((name, apps));
            assert(view_index(links@) =~= before.push((name@, view_appearances(apps@))));
        }
        i = i + 1;
    }
    assert(view_params(params@).subrange(0, params.len() as int) =~= view_params(params@));
    Ok(links)
}

proof fn lemma_index_of_fails(params: Seq<SimpleParam>, i: int)
    requires
        0 <= i <= params.len(),
        index_of(params.subrange(0, i)) is None,
    ensures
        index_of(params) is None,
    decreases params.len(),
{
    if i == params.len() {
        assert(params.subrange(0, i) =~= params);
    } else {
        assert(params.drop_last().subrange(0, i) =~= params.subrange(0, i));
        lemma_index_of_fails(params.drop_last(), i);
    }
}

/// Builds the appearance index of a simplified document.
pub fn build_index(nodes: &Vec<SimpleNode>) -> (r: Result<Vec<(String, Vec<Appearance>)>, Structure>)
    ensures
        match r {
            Ok(idx) => document_index(view_nodes(nodes@)) == Ok::<Seq<SectionView>, Structure>(
                view_index(idx@),
            ),
            Err(s) => document_index(view_nodes(nodes@)) == Err::<Seq<SectionView>, Structure>(s),
        },
{
    proof {
        lemma_view_nodes_index(nodes@);
    }
    if nodes.len() == 0 {
        return Err(Structure::RootNotTemplate);
    }
    match &nodes[0] {
        SimpleNode::Template { parameters, .. } => index_parameters(parameters),
        _ => Err(Structure::RootNotTemplate),
    }
}

/// Simplifies `text` and builds its appearance index.
pub fn parse_appearances(text: &str) -> (r: Result<Appearances, Error>)
    ensures
        match r {
            Ok(a) => simplified_text(text@) == Some(view_nodes(a.nodes@)) && document_index(
                view_nodes(a.nodes@),
            ) == Ok::<Seq<SectionView>, Structure>(view_index(a.links@)),
            Err(Error::UnexpectedWikitextStructure(s)) => simplified_text(text@) matches Some(v)
                && document_index(v) == Err::<Seq<SectionView>, Structure>(s),
            Err(_) => simplified_text(text@) is None,
        },
{
    let nodes = match parse_wikitext(text) {
        Ok(n) => n,
        Err(e) => {
            return Err(e);
        },
    };
    match build_index(&nodes) {
        Ok(links) => Ok(Appearances { nodes, links }),
        Err(s) => Err(Error::UnexpectedWikitextStructure(s)),
    }
}

} // verus!
