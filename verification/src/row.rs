//! An ordered sequence of cells; one spreadsheet row.

use vstd::prelude::*;
use vstd::string::*;

use crate::cell::{Cell, CellView, cell_xml, cell_xml_with_style};

verus! {

/// One row of cells, insertion order significant.
#[derive(Clone, Debug, PartialEq, Eq)]
pub struct Row {
    pub cells: Vec<Cell>,
}

impl View for Row {
    type V = Seq<CellView>;

    open spec fn view(&self) -> Seq<CellView> {
        self.cells@.map_values(|c: Cell| c@)
    }
}

/// The concatenation of each cell's XML, each followed by a newline.
pub open spec fn row_cells_xml(cells: Seq<CellView>) -> Seq<char>
    decreases cells.len(),
{
    if cells.len() == 0 {
        Seq::empty()
    } else {
        row_cells_xml(cells.drop_last()) + cell_xml(cells.last()) + "\n"@
    }
}

/// As `row_cells_xml`, with every cell tagged with one style identifier.
pub open spec fn row_cells_xml_with_style(cells: Seq<CellView>, style_id: Seq<char>) -> Seq<char>
    decreases cells.len(),
{
    if cells.len() == 0 {
        Seq::empty()
    } else {
        row_cells_xml_with_style(cells.drop_last(), style_id) + cell_xml_with_style(
            cells.last(),
            style_id,
        ) + "\n"@
    }
}

/// The XML form of a whole row.
pub open spec fn row_xml(cells: Seq<CellView>) -> Seq<char> {
    "<Row>\n"@ + row_cells_xml(cells) + "</Row>"@
}

/// The XML form of a whole row, every cell tagged with one style identifier.
pub open spec fn row_xml_with_style(cells: Seq<CellView>, style_id: Seq<char>) -> Seq<char> {
    "<Row>\n"@ + row_cells_xml_with_style(cells, style_id) + "</Row>"@
}

impl Default for Row {
    /// An empty row.
    fn default() -> (r: Row)
        ensures
            r@ == Seq::<CellView>::empty(),
    {
        Row::new()
    }
}

impl Row {
    /// An empty row.
    pub fn new() -> (r: Row)
        ensures
            r@ == Seq::<CellView>::empty(),
    {
        let r = Row { cells: Vec::new() };
        proof {
            assert(r@ =~= Seq::<CellView>::empty());
        }
        r
    }

    /// Replaces the row's cells.
    pub fn with_cells(self, cells: Vec<Cell>) -> (r: Row)
        ensures
            r@ == cells@.map_values(|c: Cell| c@),
    {
        Row { cells }
    }

    /// A row holding exactly the given cells.
    pub fn from_cells(cells: Vec<Cell>) -> (r: Row)
        ensures
            r@ == cells@.map_values(|c: Cell| c@),
    {
        Row::new().with_cells(cells)
    }

    /// Serializes the row: each cell's XML on its own line.
    pub fn to_xml(&self) -> (r: String)
        ensures
            r@ == row_xml(self@),
    {
        let mut out = "<Row>\n".to_owned();
        let ghost all = self@;
        let mut i: usize = 0;
        while i < self.cells.len()
            invariant
                i <= self.cells.len(),
                all == self@,
                all.len() == self.cells.len(),
                out@ == "<Row>\n"@ + row_cells_xml(all.subrange(0, i as int)),
            decreases self.cells.len() - i,
        {
            let cell_str = self.cells[i].to_xml();
            out.append(cell_str.as_str());
            out.append("\n");
            proof {
                let cur = all.subrange(0, i + 1 as int);
                assert(cur.drop_last() =~= all.subrange(0, i as int));
                assert(cur.last() == all[i as int]);
                assert(all[i as int] == self.cells@[i as int]@);
            }
            i = i + 1;
        }
        proof {
            assert(all.subrange(0, all.len() as int) =~= all);
        }
        out.append("</Row>");
        out
    }

    /// Serializes the row, tagging every cell with one style identifier.
    pub fn to_xml_with_style(&self, style_id: &str) -> (r: String)
        ensures
            r@ == row_xml_with_style(self@, style_id@),
    {
        let mut out = "<Row>\n".to_owned();
        let ghost all = self@;
        let mut i: usize = 0;
        while i < self.cells.len()
            invariant
                i <= self.cells.len(),
                all == self@,
                all.len() == self.cells.len(),
                out@ == "<Row>\n"@ + row_cells_xml_with_style(all.subrange(0, i as int), style_id@),
            decreases self.cells.len() - i,
        {
            let cell_str = self.cells[i].to_xml_with_style(style_id);
            out.append(cell_str.as_str());
            out.append("\n");
            proof {
                let cur = all.subrange(0, i + 1 as int);
                assert(cur.drop_last() =~= all.subrange(0, i as int));
                assert(cur.last() == all[i as int]);
                assert(all[i as int] == self.cells@[i as int]@);
            }
            i = i + 1;
        }
        proof {
            assert(all.subrange(0, all.len() as int) =~= all);
        }
        out.append("</Row>");
        out
    }
}

} // verus!
