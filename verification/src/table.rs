//! The grid of data: optional heading labels plus data rows.

use vstd::prelude::*;
use vstd::string::*;

use crate::cell::{Cell, CellView};
use crate::row::{Row, row_xml_with_style};

verus! {

/// The mathematical value of a `Table`.
pub struct TableView {
    pub headings: Option<Seq<Seq<char>>>,
    pub rows: Seq<Seq<CellView>>,
}

/// Optional heading labels plus an ordered sequence of rows. A heading count
/// that differs from a row's cell count is legal and renders ragged, never an
/// error.
#[derive(Clone, Debug, PartialEq, Eq)]
pub struct Table {
    pub headings: Option<Vec<String>>,
    pub rows: Vec<Row>,
}

impl View for Table {
    type V = TableView;

    open spec fn view(&self) -> TableView {
        TableView {
            headings: match self.headings {
                Some(v) => Some(v@.map_values(|s: String| s@)),
                None => None,
            },
            rows: self.rows@.map_values(|r: Row| r@),
        }
    }
}

/// Heading labels as a row of text cells.
pub open spec fn heading_cells(labels: Seq<Seq<char>>) -> Seq<CellView> {
    labels.map_values(|l: Seq<char>| CellView::Text(l))
}

/// The data rows' XML: each row styled "Default", each followed by a newline.
pub open spec fn table_rows_xml(rows: Seq<Seq<CellView>>) -> Seq<char>
    decreases rows.len(),
{
    if rows.len() == 0 {
        Seq::empty()
    } else {
        table_rows_xml(rows.drop_last()) + row_xml_with_style(rows.last(), "Default"@) + "\n"@
    }
}

/// The heading row's XML (styled "Heading"), or nothing when the table has no
/// headings.
pub open spec fn table_headings_xml(headings: Option<Seq<Seq<char>>>) -> Seq<char> {
    match headings {
        Some(labels) => row_xml_with_style(heading_cells(labels), "Heading"@) + "\n"@,
        None => Seq::empty(),
    }
}

/// The XML form of a whole table: the heading row, if any, before all data
/// rows.
pub open spec fn table_xml(t: TableView) -> Seq<char> {
    "<Table>\n"@ + table_headings_xml(t.headings) + table_rows_xml(t.rows) + "</Table>"@
}

impl Default for Table {
    /// An empty table without headings.
    fn default() -> (r: Table)
        ensures
            r@.headings is None,
            r@.rows == Seq::<Seq<CellView>>::empty(),
    {
        Table::new()
    }
}

impl Table {
    /// An empty table without headings.
    pub fn new() -> (r: Table)
        ensures
            r@.headings is None,
            r@.rows == Seq::<Seq<CellView>>::empty(),
    {
        let r = Table { headings: None, rows: Vec::new() };
        proof {
            assert(r@.rows =~= Seq::<Seq<CellView>>::empty());
        }
        r
    }

    /// Replaces the table's data rows.
    pub fn with_rows(self, rows: Vec<Row>) -> (r: Table)
        ensures
            r@.headings == self@.headings,
            r@.rows == rows@.map_values(|x: Row| x@),
    {
        Table { headings: self.headings, rows }
    }

    /// Replaces the table's heading labels.
    pub fn with_headings(self, labels: Vec<&str>) -> (r: Table)
        ensures
            r@.headings == Some(labels@.map_values(|l: &str| l@)),
            r@.rows == self@.rows,
    {
        let ghost lv = labels@;
        let mut owned: Vec<String> = Vec::new();
        let mut i: usize = 0;
        while i < labels.len()
            invariant
                i <= labels.len(),
                lv == labels@,
                owned@.len() == i,
                forall|j: int| 0 <= j < i ==> owned@[j]@ == lv[j]@,
            decreases labels.len() - i,
        {
            owned.push(labels[i].to_owned());
            i = i + 1;
        }
        proof {
            assert(owned@.map_values(|s: String| s@) =~= lv.map_values(|l: &str| l@));
        }
        Table { headings: Some(owned), rows: self.rows }
    }

    /// A table holding exactly the given rows, without headings.
    pub fn from_rows(rows: Vec<Row>) -> (r: Table)
        ensures
            r@.headings is None,
            r@.rows == rows@.map_values(|x: Row| x@),
    {
        Table::new().with_rows(rows)
    }

    /// Serializes the table: the heading row first (styled "Heading"), if
    /// present, then every data row (styled "Default").
    pub fn to_xml(&self) -> (r: String)
        ensures
            r@ == table_xml(self@),
    {
        let mut out = "<Table>\n".to_owned();
        match &self.headings {
            Some(labels) => {
                let ghost lv = self@.headings->Some_0;
                let mut cells: Vec<Cell> = Vec::new();
                let mut i: usize = 0;
                while i < labels.len()
                    invariant
                        i <= labels.len(),
                        lv == labels@.map_values(|s: String| s@),
                        lv.len() == labels@.len(),
                        cells@.len() == i,
                        forall|j: int| 0 <= j < i ==> cells@[j]@ == CellView::Text(lv[j]),
                    decreases labels.len() - i,
                {
                    cells.push(Cell::Text(labels[i].clone()));
                    i = i + 1;
                }
                proof {
                    assert(cells@.map_values(|c: Cell| c@) =~= heading_cells(lv));
                }
                let heading_row = Row::from_cells(cells);
                let s = heading_row.to_xml_with_style("Heading");
                out.append(s.as_str());
                out.append("\n");
            },
            None => {},
        }
        let ghost rv = self@.rows;
        let mut i: usize = 0;
        while i < self.rows.len()
            invariant
                i <= self.rows.len(),
                rv == self@.rows,
                rv.len() == self.rows.len(),
                out@ == "<Table>\n"@ + table_headings_xml(self@.headings) + table_rows_xml(
                    rv.subrange(0, i as int),
                ),
            decreases self.rows.len() - i,
        {
            let s = self.rows[i].to_xml_with_style("Default");
            out.append(s.as_str());
            out.append("\n");
            proof {
                let cur = rv.subrange(0, i + 1 as int);
                assert(cur.drop_last() =~= rv.subrange(0, i as int));
                assert(cur.last() == rv[i as int]);
                assert(rv[i as int] == self.rows@[i as int]@);
            }
            i = i + 1;
        }
        proof {
            assert(rv.subrange(0, rv.len() as int) =~= rv);
        }
        out.append("</Table>");
        out
    }
}

} // verus!
