use wiki_appearances::error::{Error, HeaderMismatch, RowMismatch};
use wiki_appearances::model::{timeline_type, TimelineType};
use wiki_appearances::raw::{tokenize, RawNode, RawRow};
use wiki_appearances::timeline::{
    find_tables, get_single_text_node, read_timeline_row, reduce_cell_to_text,
    validate_timeline_header, TimelineRow,
};

fn text(v: &str) -> RawNode {
    RawNode::Text { value: v.to_string() }
}

fn row(cells: &[&str]) -> RawRow {
    RawRow {
        cells: cells
            .iter()
            .map(|c| if c.is_empty() { vec![] } else { vec![text(c)] })
            .collect(),
    }
}

#[test]
fn test_release_dates() {
    // ISO 8601
    // 1993-01-XX
    // 1999-XX-XX
    // 2011-12
    // 2012
    // empty
}

#[test]
fn header_accepted() {
    assert!(validate_timeline_header(&row(&["Year", "", "Title", "Released"])).is_ok());
}

#[test]
fn header_wrong_year_label() {
    match validate_timeline_header(&row(&["Yr", "", "Title", "Released"])) {
        Err(Error::TimelineParsing(HeaderMismatch::WrongText { column, expected, found })) => {
            assert_eq!(column, 0);
            assert_eq!(expected, "Year");
            assert_eq!(found, "Yr");
        }
        other => panic!("unexpected {:?}", other),
    }
}

#[test]
fn header_wrong_cell_count() {
    assert!(matches!(
        validate_timeline_header(&row(&["Year", "", "Title"])),
        Err(Error::TimelineParsing(HeaderMismatch::CellCount { count: 3 }))
    ));
    assert!(matches!(
        validate_timeline_header(&row(&[])),
        Err(Error::TimelineParsing(HeaderMismatch::CellCount { count: 0 }))
    ));
}

#[test]
fn header_spacer_not_empty() {
    assert!(matches!(
        validate_timeline_header(&row(&["Year", "x", "Title", "Released"])),
        Err(Error::TimelineParsing(HeaderMismatch::SpacerNotEmpty))
    ));
}

#[test]
fn header_non_text_cell() {
    let mut r = row(&["Year", "", "Title", "Released"]);
    r.cells[3] = vec![RawNode::Other];
    match validate_timeline_header(&r) {
        Err(Error::TimelineParsing(HeaderMismatch::NotSingleText { column, expected })) => {
            assert_eq!(column, 3);
            assert_eq!(expected, "Released");
        }
        other => panic!("unexpected {:?}", other),
    }
    let mut r = row(&["Year", "", "Title", "Released"]);
    r.cells[2].push(text("x"));
    assert!(matches!(
        validate_timeline_header(&r),
        Err(Error::TimelineParsing(HeaderMismatch::NotSingleText { column: 2, .. }))
    ));
}

#[test]
fn tables_found_in_order() {
    let doc = tokenize("a\n{|\n! Year\n|}\nb\n{|\n| x\n|}\n");
    let n = doc.nodes.len();
    let tables = find_tables(doc.nodes);
    assert_eq!(tables.len(), 2);
    assert!(n > 2);
    assert!(tables.iter().all(|t| matches!(t, RawNode::Table { .. })));
}

#[test]
fn tokenized_header_row_validates() {
    let doc = tokenize("{|\n!Year!!!!Title!!Released\n|}");
    let tables = find_tables(doc.nodes);
    if let RawNode::Table { rows } = &tables[0] {
        assert!(validate_timeline_header(&rows[0]).is_ok());
    } else {
        panic!("no table");
    }
}

#[test]
fn single_text_node() {
    assert_eq!(get_single_text_node(&vec![text("C")]), Some("C".to_string()));
    assert_eq!(get_single_text_node(&vec![]), None);
    assert_eq!(get_single_text_node(&vec![text("a"), text("b")]), None);
    assert_eq!(get_single_text_node(&vec![RawNode::Other]), None);
}

#[test]
fn cell_text_follows_links() {
    let cell = vec![
        text("19"),
        RawNode::Link { target: "t".to_string(), text: vec![text("93")] },
        RawNode::Template { name: vec![text("C")], parameters: vec![] },
    ];
    assert_eq!(reduce_cell_to_text(&cell), Some("1993".to_string()));
    let bad = vec![RawNode::Template { name: vec![], parameters: vec![] }];
    assert_eq!(reduce_cell_to_text(&bad), None);
}

#[test]
fn timeline_row_read() {
    let r = row(&["1993", "C", "Title", "1993-01-XX"]);
    assert_eq!(
        read_timeline_row(&r).unwrap(),
        TimelineRow {
            year: "1993".to_string(),
            media_type: "C".to_string(),
            release_date: "1993-01-XX".to_string(),
        }
    );
    assert!(matches!(
        read_timeline_row(&row(&["1993", "C"])),
        Err(Error::TimelineRow(RowMismatch::CellCount { count: 2 }))
    ));
    assert!(matches!(
        read_timeline_row(&row(&["1993", "", "T", "2012"])),
        Err(Error::TimelineRow(RowMismatch::MediaTypeNotText))
    ));
}

#[test]
fn timeline_codes() {
    assert_eq!(timeline_type("C"), Some(TimelineType::Comic));
    assert_eq!(timeline_type("SS"), Some(TimelineType::ShortStory));
    assert_eq!(timeline_type("RPG"), Some(TimelineType::Rpg));
    assert_eq!(timeline_type("GB"), Some(TimelineType::Gamebook));
    assert_eq!(timeline_type("X"), None);
    assert_eq!(timeline_type(""), None);
    assert_eq!(timeline_type("RPGX"), None);
}
