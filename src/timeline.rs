//! Timeline tables: the header check that runs before any row is read, and
//! the lookup of tables among a page's nodes.
use vstd::prelude::*;
use vstd::string::StringExecFns;
use crate::error::{Error, HeaderMismatch, RowMismatch};
use crate::raw::{RawNode, RawRow};

verus! {

/// The label that header column `i` must hold; column 1 is an empty spacer.
pub open spec fn header_label(i: int) -> Seq<char> {
    if i == 0 {
        seq!['Y', 'e', 'a', 'r']
    } else if i == 2 {
        seq!['T', 'i', 't', 'l', 'e']
    } else {
        seq!['R', 'e', 'l', 'e', 'a', 's', 'e', 'd']
    }
}

/// True when `cell` holds exactly one text node.
pub open spec fn single_text(cell: Seq<RawNode>) -> bool {
    cell.len() == 1 && cell[0] is Text
}

/// True when header column `i` holds exactly its label as one text node.
pub open spec fn column_ok(cells: Seq<Vec<RawNode>>, i: int) -> bool {
    single_text(cells[i]@) && cells[i]@[0]->Text_value@ == header_label(i)
}

/// The first of the labelled columns (0, 2, 3) that does not hold its label.
pub open spec fn first_bad_column(cells: Seq<Vec<RawNode>>) -> int {
    if !column_ok(cells, 0) {
        0
    } else if !column_ok(cells, 2) {
        2
    } else {
        3
    }
}

/// True when a row is a valid timeline header: four cells, an empty spacer
/// in column 1, and the labels "Year", "Title" and "Released" in columns 0,
/// 2 and 3.
pub open spec fn header_ok(row: RawRow) -> bool {
    &&& row.cells.len() == 4
    &&& row.cells@[1]@.len() == 0
    &&& column_ok(row.cells@, 0)
    &&& column_ok(row.cells@, 2)
    &&& column_ok(row.cells@, 3)
}

/// The label of header column `column` as a string.
fn header_label_text(column: usize) -> (r: String)
    requires
        column == 0 || column == 2 || column == 3,
    ensures
        r@ == header_label(column as int),
{
    if column == 0 {
        proof {
            reveal_strlit("Year");
        }
        let r = String::from_str("Year");
        assert(r@ =~= header_label(0));
        r
    } else if column == 2 {
        proof {
            reveal_strlit("Title");
        }
        let r = String::from_str("Title");
        assert(r@ =~= header_label(2));
        r
    } else {
        proof {
            reveal_strlit("Released");
        }
        let r = String::from_str("Released");
        assert(r@ =~= header_label(3));
        r
    }
}

/// Checks that header column `column` holds exactly its label.
fn check_column(cells: &Vec<Vec<RawNode>>, column: usize) -> (r: Result<(), HeaderMismatch>)
    requires
        column == 0 || column == 2 || column == 3,
        column < cells.len(),
    ensures
        match r {
            Ok(()) => column_ok(cells@, column as int),
            Err(HeaderMismatch::NotSingleText { column: c, expected }) => c == column
                && expected@ == header_label(column as int) && !single_text(cells@[column as int]@),
            Err(HeaderMismatch::WrongText { column: c, expected, found }) => c == column
                && expected@ == header_label(column as int) && single_text(cells@[column as int]@)
                && found@ == cells@[column as int]@[0]->Text_value@ && found@ != expected@,
            Err(_) => false,
        },
{
    let expected = header_label_text(column);
    let cell = &cells[column];
    if cell.len() != 1 {
        return Err(HeaderMismatch::NotSingleText { column, expected });
    }
    match &cell[0] {
        RawNode::Text { value } => {
            if *value == expected {
                Ok(())
            } else {
                Err(HeaderMismatch::WrongText { column, expected, found: value.clone() })
            }
        },
        _ => Err(HeaderMismatch::NotSingleText { column, expected }),
    }
}

/// Checks a timeline table's header row before any data row is read. The
/// checks run in order: the cell count, the empty spacer, then columns 0, 2
/// and 3; the first that fails is reported.
pub fn validate_timeline_header(header: &RawRow) -> (r: Result<(), Error>)
    ensures
        r is Ok <==> header_ok(*header),
        match r {
            Ok(()) => true,
            Err(Error::TimelineParsing(HeaderMismatch::CellCount { count })) => count
                == header.cells.len() && header.cells.len() != 4,
            Err(Error::TimelineParsing(HeaderMismatch::SpacerNotEmpty)) => header.cells.len() == 4
                && header.cells@[1]@.len() != 0,
            Err(Error::TimelineParsing(HeaderMismatch::NotSingleText { column, .. })) => header.cells.len()
                == 4 && header.cells@[1]@.len() == 0 && column == first_bad_column(header.cells@),
            Err(Error::TimelineParsing(HeaderMismatch::WrongText { column, .. })) => header.cells.len()
                == 4 && header.cells@[1]@.len() == 0 && column == first_bad_column(header.cells@),
            Err(_) => false,
        },
{
    let cells = &header.cells;
    if cells.len() != 4 {
        return Err(Error::TimelineParsing(HeaderMismatch::CellCount { count: cells.len() }));
    }
    if cells[1].len() != 0 {
        return Err(Error::TimelineParsing(HeaderMismatch::SpacerNotEmpty));
    }
    match check_column(cells, 0) {
        Ok(()) => {},
        Err(m) => {
            return Err(Error::TimelineParsing(m));
        },
    }
    match check_column(cells, 2) {
        Ok(()) => {},
        Err(m) => {
            return Err(Error::TimelineParsing(m));
        },
    }
    match check_column(cells, 3) {
        Ok(()) => Ok(()),
        Err(m) => Err(Error::TimelineParsing(m)),
    }
}

/// The table nodes of a sequence, in order.
pub open spec fn tables_of(nodes: Seq<RawNode>) -> Seq<RawNode>
    decreases nodes.len(),
{
    if nodes.len() == 0 {
        Seq::empty()
    } else if nodes.last() is Table {
        tables_of(nodes.drop_last()).push(nodes.last())
    } else {
        tables_of(nodes.drop_last())
    }
}

/// Keeps the table nodes of `nodes`, in order.
pub fn find_tables(nodes: Vec<RawNode>) -> (r: Vec<RawNode>)
    ensures
        r@ == tables_of(nodes@),
{
    let ghost all = nodes@;
    let mut rest = nodes;
    let mut reversed: Vec<RawNode> = Vec::new();
    while rest.len() > 0
        invariant
            rest@ + reversed@.reverse() == all,
        decreases rest.len(),
    {
        let ghost before = reversed@;
        let n = rest.pop().unwrap();
        reversed.push(n);
        assert(reversed@.reverse() =~= seq![n] + before.reverse());
    }
    assert(rest@ =~= Seq::<RawNode>::empty());
    assert(reversed@.reverse() =~= all);
    assert(all.subrange(0, all.len() as int) =~= all);
    let mut tables: Vec<RawNode> = Vec::new();
    while reversed.len() > 0
        invariant
            reversed@.reverse() == all.subrange(all.len() - reversed.len(), all.len() as int),
            tables@ == tables_of(all.subrange(0, all.len() - reversed.len())),
            reversed.len() <= all.len(),
        decreases reversed.len(),
    {
        let ghost k = all.len() - reversed.len();
        let ghost before = reversed@;
        let n = reversed.pop().unwrap();
        assert(before.reverse()[0] == n);
        assert(reversed@.reverse() =~= before.reverse().drop_first());
        assert(all.subrange(0, k + 1).drop_last() =~= all.subrange(0, k));
        if let RawNode::Table { .. } = n {
            tables.push(n);
        }
    }
    assert(all.subrange(0, all.len() as int) =~= all);
    tables
}

/// The text of a table cell: text nodes give their value, links the text of
/// their label, and templates nothing; `None` when a template's name is not
/// exactly one text node.
pub open spec fn cell_text(nodes: Seq<RawNode>) -> Option<Seq<char>>
    decreases nodes,
{
    if nodes.len() == 0 {
        Some(Seq::empty())
    } else {
        match (cell_text(nodes.drop_last()), node_text(nodes.last())) {
            (Some(a), Some(b)) => Some(a + b),
            _ => None,
        }
    }
}

/// The text of one node of a table cell: see `cell_text`.
pub open spec fn node_text(n: RawNode) -> Option<Seq<char>>
    decreases n,
{
    match n {
        RawNode::Text { value } => Some(value@),
        RawNode::Link { text, .. } => cell_text(text@),
        RawNode::Template { name, .. } => if single_text(name@) {
            Some(Seq::empty())
        } else {
            None
        },
        _ => Some(Seq::empty()),
    }
}

proof fn lemma_cell_text_fails(nodes: Seq<RawNode>, i: int)
    requires
        0 <= i <= nodes.len(),
        cell_text(nodes.subrange(0, i)) is None,
    ensures
        cell_text(nodes) is None,
    decreases nodes.len(),
{
    if i == nodes.len() {
        assert(nodes.subrange(0, i) =~= nodes);
    } else {
        assert(nodes.drop_last().subrange(0, i) =~= nodes.subrange(0, i));
        lemma_cell_text_fails(nodes.drop_last(), i);
    }
}

/// The value of the one text node that `nodes` holds, if it holds exactly that.
pub fn get_single_text_node(nodes: &Vec<RawNode>) -> (r: Option<String>)
    ensures
        r is Some <==> single_text(nodes@),
        r matches Some(s) ==> s@ == nodes@[0]->Text_value@,
{
    if nodes.len() != 1 {
        return None;
    }
    match &nodes[0] {
        RawNode::Text { value } => Some(value.clone()),
        _ => None,
    }
}

/// Reduces a table cell's nodes to text: see `cell_text`.
pub fn reduce_cell_to_text(nodes: &Vec<RawNode>) -> (r: Option<String>)
    ensures
        match r {
            Some(s) => cell_text(nodes@) == Some(s@),
            None => cell_text(nodes@) is None,
        },
    decreases nodes,
{
    let mut out = String::new();
    let mut i: usize = 0;
    while i < nodes.len()
        invariant
            i <= nodes.len(),
            cell_text(nodes@.subrange(0, i as int)) == Some(out@),
        decreases nodes.len() - i,
    {
        assert(nodes@.subrange(0, i + 1).drop_last() =~= nodes@.subrange(0, i as int));
        match reduce_node_to_text(&nodes[i]) {
            Some(s) => out.append(s.as_str()),
            None => {
                proof {
                    lemma_cell_text_fails(nodes@, i + 1);
                }
                return None;
            },
        }
        i = i + 1;
    }
    assert(nodes@.subrange(0, nodes.len() as int) =~= nodes@);
    Some(out)
}

fn reduce_node_to_text(node: &RawNode) -> (r: Option<String>)
    ensures
        match r {
            Some(s) => node_text(*node) == Some(s@),
            None => node_text(*node) is None,
        },
    decreases node,
{
    match node {
        RawNode::Text { value } => Some(value.clone()),
        RawNode::Link { text, .. } => reduce_cell_to_text(text),
        RawNode::Template { name, .. } => match get_single_text_node(name) {
            Some(_) => Some(String::new()),
            None => None,
        },
        _ => Some(String::new()),
    }
}

/// The fields of a timeline table's data row.
#[derive(Debug, PartialEq, Eq)]
pub struct TimelineRow {
    pub year: String,
    pub media_type: String,
    pub release_date: String,
}

/// Reads a timeline data row: four cells, the year in column 0, the media
/// type code as the single text node of column 1, and the release date in
/// column 3 (the title in column 2 is left to the caller).
pub fn read_timeline_row(row: &RawRow) -> (r: Result<TimelineRow, Error>)
    ensures
        match r {
            Ok(t) => {
                &&& row.cells.len() == 4
                &&& cell_text(row.cells@[0]@) == Some(t.year@)
                &&& single_text(row.cells@[1]@)
                &&& t.media_type@ == row.cells@[1]@[0]->Text_value@
                &&& cell_text(row.cells@[3]@) == Some(t.release_date@)
            },
            Err(Error::TimelineRow(RowMismatch::CellCount { count })) => count == row.cells.len()
                && count != 4,
            Err(Error::TimelineRow(RowMismatch::TemplateNameNotText { column })) => row.cells.len()
                == 4 && (column == 0 && cell_text(row.cells@[0]@) is None || column == 3 && cell_text(
                row.cells@[0]@,
            ) is Some && cell_text(row.cells@[3]@) is None),
            Err(Error::TimelineRow(RowMismatch::MediaTypeNotText)) => row.cells.len() == 4
                && cell_text(row.cells@[0]@) is Some && cell_text(row.cells@[3]@) is Some
                && !single_text(row.cells@[1]@),
            Err(_) => false,
        },
{
    let cells = &row.cells;
    if cells.len() != 4 {
        return Err(Error::TimelineRow(RowMismatch::CellCount { count: cells.len() }));
    }
    let year = match reduce_cell_to_text(&cells[0]) {
        Some(y) => y,
        None => {
            return Err(Error::TimelineRow(RowMismatch::TemplateNameNotText { column: 0 }));
        },
    };
    let release_date = match reduce_cell_to_text(&cells[3]) {
        Some(d) => d,
        None => {
            return Err(Error::TimelineRow(RowMismatch::TemplateNameNotText { column: 3 }));
        },
    };
    let media_type = match get_single_text_node(&cells[1]) {
        Some(m) => m,
        None => {
            return Err(Error::TimelineRow(RowMismatch::MediaTypeNotText));
        },
    };
    Ok(TimelineRow { year, media_type, release_date })
}

} // verus!
