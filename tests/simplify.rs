use wiki_appearances::raw::{tokenize, RawNode, Warning};
use wiki_appearances::simplify::{
    collect_warned_text, parse_list_items, parse_nodes, parse_wikitext, SimpleNode,
    SimpleParameter,
};
use wiki_appearances::text::{reduce_nodes_to_text, slice_bytes, text_byte_len};
use wiki_appearances::error::Error;

fn link(target: &str, text: &str) -> SimpleNode {
    SimpleNode::Link { target: target.to_string(), text: text.to_string() }
}

#[test]
fn test_parse_list_items() {
    let wt = "*[[target]]";
    let doc = tokenize(wt);
    assert!(matches!(&doc.nodes[0], RawNode::UnorderedList { .. }));
    if let RawNode::UnorderedList { items } = &doc.nodes[0] {
        let parsed = parse_list_items(items, wt).unwrap();
        assert_eq!(parsed, SimpleNode::List(vec![vec![link("target", "target")]]));
    }
}

#[test]
fn test_list_in_template() {
    let wt = "{{template_name|param_name=\n*[[link_target]]}}";
    let doc = tokenize(wt);
    assert!(matches!(&doc.nodes[0], RawNode::Template { .. }));
    let parsed = parse_nodes(&doc.nodes, wt).unwrap();
    assert_eq!(
        parsed,
        vec![SimpleNode::Template {
            name: "template_name".to_string(),
            parameters: vec![SimpleParameter {
                name: Some("param_name".to_string()),
                value: vec![SimpleNode::List(vec![vec![link("link_target", "link_target")]])],
            }],
        }]
    );
}

#[test]
fn positional_parameter_is_reparsed_from_its_start() {
    let parsed = parse_wikitext("{{t|\n*[[a]]}}").unwrap();
    assert_eq!(
        parsed,
        vec![SimpleNode::Template {
            name: "t".to_string(),
            parameters: vec![SimpleParameter {
                name: None,
                value: vec![SimpleNode::List(vec![vec![link("a", "a")]])],
            }],
        }]
    );
}

#[test]
fn nested_template_inside_parameter() {
    let parsed = parse_wikitext("{{outer|p=\n*[[x|shown]] {{inner|q=\n*[[y]]}}}}").unwrap();
    assert_eq!(
        parsed,
        vec![SimpleNode::Template {
            name: "outer".to_string(),
            parameters: vec![SimpleParameter {
                name: Some("p".to_string()),
                value: vec![SimpleNode::List(vec![vec![
                    link("x", "shown"),
                    SimpleNode::Text(" ".to_string()),
                    SimpleNode::Template {
                        name: "inner".to_string(),
                        parameters: vec![SimpleParameter {
                            name: Some("q".to_string()),
                            value: vec![SimpleNode::List(vec![vec![link("y", "y")]])],
                        }],
                    },
                ]])],
            }],
        }]
    );
}

#[test]
fn character_entity_becomes_text() {
    let parsed = parse_wikitext("a&amp;b").unwrap();
    assert_eq!(
        parsed,
        vec![
            SimpleNode::Text("a".to_string()),
            SimpleNode::Text("&".to_string()),
            SimpleNode::Text("b".to_string()),
        ]
    );
}

#[test]
fn unrecognised_nodes_are_dropped() {
    let parsed = parse_wikitext("<!-- note -->[[a]]").unwrap();
    assert_eq!(parsed, vec![link("a", "a")]);
}

#[test]
fn empty_text_gives_no_nodes() {
    assert_eq!(parse_wikitext("").unwrap(), vec![]);
}

#[test]
fn tokenizer_warning_fails_the_document() {
    match parse_wikitext("\n\nabc") {
        Err(Error::Tokenization(text)) => assert_eq!(text, "\n"),
        other => panic!("unexpected {:?}", other),
    }
}

#[test]
fn tokenizer_warning_inside_parameter_fails_the_document() {
    match parse_wikitext("{{t|p=\n\n*[[a]]}}") {
        Err(Error::Tokenization(text)) => assert_eq!(text, "\n"),
        other => panic!("unexpected {:?}", other),
    }
}

#[test]
fn simplify_is_repeatable() {
    let wt = "{{App|c=\n*[[A]] {{1st}}\n*[[B]]}}";
    assert_eq!(parse_wikitext(wt).unwrap(), parse_wikitext(wt).unwrap());
}

#[test]
fn reduce_keeps_only_text() {
    let nodes = vec![
        RawNode::Text { value: "ab".to_string() },
        RawNode::Link { target: "x".to_string(), text: vec![] },
        RawNode::Other,
        RawNode::Text { value: "c".to_string() },
    ];
    assert_eq!(reduce_nodes_to_text(&nodes), "abc");
}

#[test]
fn slicing_by_bytes() {
    let text = "aé|b";
    assert_eq!(text_byte_len(text), 5);
    assert_eq!(slice_bytes(text, 1, 3), Some("é"));
    assert_eq!(slice_bytes(text, 2, 3), None);
    assert_eq!(slice_bytes(text, 3, 6), None);
    assert_eq!(slice_bytes(text, 3, 2), None);
    assert_eq!(slice_bytes(text, 4, 5), Some("b"));
}

#[test]
fn warned_text_skips_bad_spans() {
    let ws = vec![Warning { start: 0, end: 1 }, Warning { start: 2, end: 9 }, Warning { start: 2, end: 3 }];
    assert_eq!(collect_warned_text(&ws, "abc"), "ac");
}
