//! A named table; one tab of the output document.

use vstd::prelude::*;
use vstd::string::*;

use crate::table::{Table, TableView, table_xml};
use crate::xml;
use crate::xml::escape_seq;

verus! {

/// The mathematical value of a `Worksheet`.
pub struct WorksheetView {
    pub name: Seq<char>,
    pub table: TableView,
}

/// A name (not guaranteed unique) plus exactly one table.
#[derive(Clone, Debug, PartialEq, Eq)]
pub struct Worksheet {
    pub name: String,
    pub table: Table,
}

impl View for Worksheet {
    type V = WorksheetView;

    open spec fn view(&self) -> WorksheetView {
        WorksheetView { name: self.name@, table: self.table@ }
    }
}

/// The XML form of a worksheet: the table wrapped in an element carrying the
/// escaped worksheet name as an attribute.
pub open spec fn worksheet_xml(w: WorksheetView) -> Seq<char> {
    "<Worksheet ss:Name=\""@ + escape_seq(w.name) + "\">\n"@ + table_xml(w.table)
        + "\n</Worksheet>"@
}

impl Default for Worksheet {
    /// An unnamed worksheet with an empty table.
    fn default() -> (r: Worksheet)
        ensures
            r@.name == Seq::<char>::empty(),
            r@.table.headings is None,
            r@.table.rows == Seq::<Seq<crate::cell::CellView>>::empty(),
    {
        Worksheet::new()
    }
}

impl Worksheet {
    /// An unnamed worksheet with an empty table.
    pub fn new() -> (r: Worksheet)
        ensures
            r@.name == Seq::<char>::empty(),
            r@.table.headings is None,
            r@.table.rows == Seq::<Seq<crate::cell::CellView>>::empty(),
    {
        Worksheet { name: String::new(), table: Table::new() }
    }

    /// Replaces the worksheet's name.
    pub fn with_name(self, name: &str) -> (r: Worksheet)
        ensures
            r@.name == name@,
            r@.table == self@.table,
    {
        Worksheet { name: name.to_owned(), table: self.table }
    }

    /// Replaces the worksheet's table.
    pub fn with_table(self, table: Table) -> (r: Worksheet)
        ensures
            r@.name == self@.name,
            r@.table == table@,
    {
        Worksheet { name: self.name, table }
    }

    /// Serializes the worksheet, escaping its name.
    pub fn to_xml(&self) -> (r: String)
        ensures
            r@ == worksheet_xml(self@),
    {
        let mut out = "<Worksheet ss:Name=\"".to_owned();
        let escaped = xml::escape_string(self.name.as_str());
        out.append(escaped.as_str());
        out.append("\">\n");
        let table_str = self.table.to_xml();
        out.append(table_str.as_str());
        out.append("\n</Worksheet>");
        out
    }
}

} // verus!
