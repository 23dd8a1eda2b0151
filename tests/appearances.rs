use wiki_appearances::appearances::{
    build_index, collect_links_from_nodes, parse_appearances, Appearance,
};
use wiki_appearances::error::{Error, Structure};
use wiki_appearances::simplify::{parse_wikitext, SimpleNode, SimpleParameter};

fn app(name: &str, templates: Option<Vec<&str>>) -> Appearance {
    Appearance {
        name: name.to_string(),
        templates: templates.map(|t| t.into_iter().map(|s| s.to_string()).collect()),
    }
}

fn template(name: &str) -> SimpleNode {
    SimpleNode::Template { name: name.to_string(), parameters: vec![] }
}

fn link(target: &str) -> SimpleNode {
    SimpleNode::Link { target: target.to_string(), text: target.to_string() }
}

const FIRST_ID: &str = "{{App
|c-characters=
*[[1138 (Geonosis)|1138]] {{1st}}
*[[Chian]] {{1st}}
*[[COO-2180]] {{1st}}
*[[Cordé]] {{1st}}
*[[CT-411]] \"Ponds\" {{1st}}
*[[Theomet Danlé]] {{1st}}
*[[Braata Danlos]] {{1st}} {{C|Statue only}}
*[[Oakie Dokes]] {{1st}}
*[[Lexi Dio]] {{1st}}
*[[Tox Don]] {{1stID|Tox Don}}
|c-events=
*[[Clone Wars]] {{1st}}
**[[Battle of Geonosis]] {{1st}} {{C|[[link]]}}
}}";

#[test]
fn test_1stid() {
    let parsed = parse_wikitext(FIRST_ID).unwrap();
    if let SimpleNode::Template { parameters, .. } = &parsed[0] {
        for param in parameters {
            println!("{:?} {:?}", param.name, collect_links_from_nodes(&param.value));
        }
    }
}

#[test]
fn first_id_index() {
    let a = parse_appearances(FIRST_ID).unwrap();
    assert_eq!(a.links.len(), 2);
    assert_eq!(a.links[0].0, "c-characters");
    let chars = &a.links[0].1;
    assert_eq!(chars.len(), 10);
    assert_eq!(chars[0], app("1138 (Geonosis)", Some(vec!["1st"])));
    assert_eq!(chars[4], app("CT-411", Some(vec!["1st"])));
    assert_eq!(chars[6], app("Braata Danlos", Some(vec!["1st", "C"])));
    assert_eq!(chars[9], app("Tox Don", Some(vec!["1stID"])));
    assert_eq!(a.links[1].0, "c-events");
    assert_eq!(
        a.links[1].1,
        vec![app("Clone Wars", Some(vec!["1st"])), app("Battle of Geonosis", Some(vec!["1st", "C"]))]
    );
}

#[test]
fn template_annotates_preceding_link() {
    let nodes = parse_wikitext("*[[A]] {{1st}}\n*[[B]]").unwrap();
    assert_eq!(
        collect_links_from_nodes(&nodes),
        vec![app("A", Some(vec!["1st"])), app("B", None)]
    );
}

#[test]
fn template_before_any_link_is_dropped() {
    let nodes = vec![template("1st"), SimpleNode::List(vec![vec![link("A")]])];
    assert_eq!(collect_links_from_nodes(&nodes), vec![app("A", None)]);
    let item = vec![SimpleNode::List(vec![vec![template("1st"), SimpleNode::Text(" ".to_string()), link("A")]])];
    assert_eq!(collect_links_from_nodes(&item), vec![app("A", None)]);
}

#[test]
fn one_appearance_per_link() {
    let nodes = vec![
        template("x"),
        link("A"),
        template("y"),
        template("z"),
        SimpleNode::List(vec![vec![link("B"), template("w")], vec![], vec![link("C")]]),
        SimpleNode::Text("t".to_string()),
        link("D"),
    ];
    let r = collect_links_from_nodes(&nodes);
    assert_eq!(r.len(), 4);
    assert_eq!(
        r,
        vec![app("A", Some(vec!["y", "z"])), app("B", Some(vec!["w"])), app("C", None), app("D", None)]
    );
}

#[test]
fn collect_twice_is_equal() {
    let nodes = parse_wikitext("*[[A]] {{1st}}\n*[[B]]").unwrap();
    let first = collect_links_from_nodes(&nodes);
    let second = collect_links_from_nodes(&nodes);
    assert_eq!(first, second);
}

#[test]
fn empty_input_collects_nothing() {
    assert_eq!(collect_links_from_nodes(&vec![]), vec![]);
}

#[test]
fn root_must_be_a_template() {
    assert!(matches!(
        parse_appearances("*[[A]]"),
        Err(Error::UnexpectedWikitextStructure(Structure::RootNotTemplate))
    ));
    assert!(matches!(
        parse_appearances(""),
        Err(Error::UnexpectedWikitextStructure(Structure::RootNotTemplate))
    ));
}

#[test]
fn root_parameters_must_be_named() {
    assert!(matches!(
        parse_appearances("{{App|\n*[[A]]}}"),
        Err(Error::UnexpectedWikitextStructure(Structure::UnnamedParameter))
    ));
}

#[test]
fn repeated_section_replaces_in_place() {
    let param = |name: &str, target: &str| SimpleParameter {
        name: Some(name.to_string()),
        value: vec![link(target)],
    };
    let nodes = vec![SimpleNode::Template {
        name: "App".to_string(),
        parameters: vec![param("a", "X"), param("b", "Y"), param("a", "Z")],
    }];
    let idx = build_index(&nodes).unwrap();
    assert_eq!(
        idx,
        vec![("a".to_string(), vec![app("Z", None)]), ("b".to_string(), vec![app("Y", None)])]
    );
}
