//! A single grid entry: text, a number (held as its decimal rendering), or
//! nothing.

use vstd::prelude::*;
use vstd::string::*;

use crate::xml;
use crate::xml::escape_seq;

verus! {

/// The mathematical value of a `Cell`.
pub enum CellView {
    Text(Seq<char>),
    Number(Seq<char>),
    Empty,
}

/// One grid entry. A `Number` carries the decimal rendering of its value, so
/// that the serialized form is fully determined by the variant.
#[derive(Clone, Debug, PartialEq, Eq)]
pub enum Cell {
    Text(String),
    Number(String),
    Empty,
}

impl View for Cell {
    type V = CellView;

    open spec fn view(&self) -> CellView {
        match self {
            Cell::Text(s) => CellView::Text(s@),
            Cell::Number(s) => CellView::Number(s@),
            Cell::Empty => CellView::Empty,
        }
    }
}

/// The XML type name declared for a cell: determined by the variant alone.
pub open spec fn cell_type_name(c: CellView) -> Seq<char> {
    match c {
        CellView::Text(_) => "String"@,
        CellView::Number(_) => "Number"@,
        CellView::Empty => ""@,
    }
}

/// The unescaped text content of a cell.
pub open spec fn cell_content(c: CellView) -> Seq<char> {
    match c {
        CellView::Text(s) => s,
        CellView::Number(s) => s,
        CellView::Empty => Seq::empty(),
    }
}

/// The XML form of a cell without a style attribute.
pub open spec fn cell_xml(c: CellView) -> Seq<char> {
    "<Cell><Data ss:Type=\""@ + cell_type_name(c) + "\">"@ + escape_seq(cell_content(c))
        + "</Data></Cell>"@
}

/// The XML form of a cell tagged with a style identifier.
pub open spec fn cell_xml_with_style(c: CellView, style_id: Seq<char>) -> Seq<char> {
    "<Cell ss:StyleID=\""@ + style_id + "\"><Data ss:Type=\""@ + cell_type_name(c) + "\">"@
        + escape_seq(cell_content(c)) + "</Data></Cell>"@
}

impl Cell {
    /// The XML type name of this cell.
    pub fn xml_type_str(&self) -> (r: &'static str)
        ensures
            r@ == cell_type_name(self@),
    {
        match self {
            Cell::Text(_) => "String",
            Cell::Number(_) => "Number",
            Cell::Empty => "",
        }
    }

    /// The cell's text content, before escaping.
    pub fn display_text(&self) -> (r: String)
        ensures
            r@ == cell_content(self@),
    {
        match self {
            Cell::Text(v) => v.clone(),
            Cell::Number(v) => v.clone(),
            Cell::Empty => String::new(),
        }
    }

    /// Serializes the cell to an XML element, its content escaped.
    pub fn to_xml(&self) -> (r: String)
        ensures
            r@ == cell_xml(self@),
    {
        let mut out = "<Cell><Data ss:Type=\"".to_owned();
        out.append(self.xml_type_str());
        out.append("\">");
        let escaped = xml::escape_string(self.display_text().as_str());
        out.append(escaped.as_str());
        out.append("</Data></Cell>");
        out
    }

    /// Serializes the cell to an XML element carrying a style identifier.
    pub fn to_xml_with_style(&self, style_id: &str) -> (r: String)
        ensures
            r@ == cell_xml_with_style(self@, style_id@),
    {
        let mut out = "<Cell ss:StyleID=\"".to_owned();
        out.append(style_id);
        out.append("\"><Data ss:Type=\"");
        out.append(self.xml_type_str());
        out.append("\">");
        let escaped = xml::escape_string(self.display_text().as_str());
        out.append(escaped.as_str());
        out.append("</Data></Cell>");
        out
    }
}

/// For every cell, the serialized form declares the XML type name that
/// matches the variant, and carries the cell's content escaped.
pub proof fn lemma_cell_xml_type_and_escaping(c: CellView)
    ensures
        cell_xml(c) == "<Cell><Data ss:Type=\""@ + cell_type_name(c) + "\">"@ + escape_seq(
            cell_content(c),
        ) + "</Data></Cell>"@,
        c is Text ==> cell_type_name(c) == "String"@,
        c is Number ==> cell_type_name(c) == "Number"@,
        c is Empty ==> cell_type_name(c) == ""@,
{
}

} // verus!
