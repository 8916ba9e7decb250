//! The full output document: an ordered collection of worksheets behind a
//! fixed document header.

use vstd::prelude::*;
use vstd::string::*;

use crate::worksheet::{Worksheet, WorksheetView, worksheet_xml};

verus! {

/// The fixed document header: namespace declarations and the two named cell
/// styles ("Default" and "Heading") that the serialized rows reference.
pub open spec fn workbook_header() -> Seq<char> {
    "<?xml version=\"1.0\"?>\n<?mso-application progid=\"Excel.Sheet\"?>\n<Workbook xmlns=\"urn:schemas-microsoft-com:office:spreadsheet\"\n xmlns:o=\"urn:schemas-microsoft-com:office:office\"\n xmlns:x=\"urn:schemas-microsoft-com:office:excel\"\n xmlns:ss=\"urn:schemas-microsoft-com:office:spreadsheet\"\n xmlns:html=\"http://www.w3.org/TR/REC-html40\">\n <Styles>\n  <Style ss:ID=\"Default\" ss:Name=\"Normal\"/>\n  <Style ss:ID=\"Heading\">\n   <Font ss:Bold=\"1\"/>\n  </Style>\n </Styles>"@
}

/// The document header as a string.
pub fn workbook_header_str() -> (r: &'static str)
    ensures
        r@ == workbook_header(),
{
    "<?xml version=\"1.0\"?>\n<?mso-application progid=\"Excel.Sheet\"?>\n<Workbook xmlns=\"urn:schemas-microsoft-com:office:spreadsheet\"\n xmlns:o=\"urn:schemas-microsoft-com:office:office\"\n xmlns:x=\"urn:schemas-microsoft-com:office:excel\"\n xmlns:ss=\"urn:schemas-microsoft-com:office:spreadsheet\"\n xmlns:html=\"http://www.w3.org/TR/REC-html40\">\n <Styles>\n  <Style ss:ID=\"Default\" ss:Name=\"Normal\"/>\n  <Style ss:ID=\"Heading\">\n   <Font ss:Bold=\"1\"/>\n  </Style>\n </Styles>"
}

/// The concatenation of each worksheet's XML, each followed by a newline.
pub open spec fn worksheets_xml(ws: Seq<WorksheetView>) -> Seq<char>
    decreases ws.len(),
{
    if ws.len() == 0 {
        Seq::empty()
    } else {
        worksheets_xml(ws.drop_last()) + worksheet_xml(ws.last()) + "\n"@
    }
}

/// The XML form of the whole document: the fixed header, every worksheet in
/// order, and a single closing root tag.
pub open spec fn workbook_xml(ws: Seq<WorksheetView>) -> Seq<char> {
    workbook_header() + "\n"@ + worksheets_xml(ws) + "</Workbook>"@
}

/// The full output document.
#[derive(Clone, Debug, PartialEq, Eq)]
pub struct Workbook {
    pub worksheets: Vec<Worksheet>,
}

impl View for Workbook {
    type V = Seq<WorksheetView>;

    open spec fn view(&self) -> Seq<WorksheetView> {
        self.worksheets@.map_values(|w: Worksheet| w@)
    }
}

impl Default for Workbook {
    /// A workbook with no worksheets.
    fn default() -> (r: Workbook)
        ensures
            r@ == Seq::<WorksheetView>::empty(),
    {
        Workbook::new()
    }
}

impl Workbook {
    /// A workbook with no worksheets.
    pub fn new() -> (r: Workbook)
        ensures
            r@ == Seq::<WorksheetView>::empty(),
    {
        let r = Workbook { worksheets: Vec::new() };
        proof {
            assert(r@ =~= Seq::<WorksheetView>::empty());
        }
        r
    }

    /// Replaces the workbook's worksheets.
    pub fn with_worksheets(self, worksheets: Vec<Worksheet>) -> (r: Workbook)
        ensures
            r@ == worksheets@.map_values(|w: Worksheet| w@),
    {
        Workbook { worksheets }
    }

    /// Serializes the whole document: header, each worksheet in order, one
    /// closing root tag.
    pub fn to_xml(&self) -> (r: String)
        ensures
            r@ == workbook_xml(self@),
    {
        let mut out = workbook_header_str().to_owned();
        out.append("\n");
        let ghost all = self@;
        let mut i: usize = 0;
        while i < self.worksheets.len()
            invariant
                i <= self.worksheets.len(),
                all == self@,
                all.len() == self.worksheets.len(),
                out@ == workbook_header() + "\n"@ + worksheets_xml(all.subrange(0, i as int)),
            decreases self.worksheets.len() - i,
        {
            let s = self.worksheets[i].to_xml();
            out.append(s.as_str());
            out.append("\n");
            proof {
                let cur = all.subrange(0, i + 1 as int);
                assert(cur.drop_last() =~= all.subrange(0, i as int));
                assert(cur.last() == all[i as int]);
                assert(all[i as int] == self.worksheets@[i as int]@);
            }
            i = i + 1;
        }
        proof {
            assert(all.subrange(0, all.len() as int) =~= all);
        }
        out.append("</Workbook>");
        out
    }
}

/// Serializing worksheets distributes over concatenation of worksheet lists.
proof fn lemma_worksheets_xml_concat(a: Seq<WorksheetView>, b: Seq<WorksheetView>)
    ensures
        worksheets_xml(a + b) == worksheets_xml(a) + worksheets_xml(b),
    decreases b.len(),
{
    if b.len() == 0 {
        assert(a + b =~= a);
        assert(worksheets_xml(a) + worksheets_xml(b) =~= worksheets_xml(a));
    } else {
        lemma_worksheets_xml_concat(a, b.drop_last());
        assert((a + b).drop_last() =~= a + b.drop_last());
        assert((a + b).last() == b.last());
        assert(worksheets_xml(a) + (worksheets_xml(b.drop_last()) + worksheet_xml(b.last())
            + "\n"@) =~= worksheets_xml(a) + worksheets_xml(b.drop_last()) + worksheet_xml(
            b.last(),
        ) + "\n"@);
    }
}

/// Every input worksheet's block stands in the serialized document whole and
/// at its input position: before it come the header and the blocks of the
/// earlier worksheets, after it the blocks of the later ones and the single
/// closing root tag.
pub proof fn lemma_worksheet_blocks_in_order(ws: Seq<WorksheetView>, i: int)
    requires
        0 <= i < ws.len(),
    ensures
        workbook_xml(ws) == workbook_header() + "\n"@ + worksheets_xml(ws.subrange(0, i))
            + (worksheet_xml(ws[i]) + "\n"@) + worksheets_xml(ws.skip(i + 1)) + "</Workbook>"@,
{
    let head = ws.subrange(0, i);
    let mid = seq![ws[i]];
    let tail = ws.skip(i + 1);
    assert(ws =~= head + mid + tail);
    lemma_worksheets_xml_concat(head + mid, tail);
    lemma_worksheets_xml_concat(head, mid);
    assert(mid.drop_last() =~= Seq::<WorksheetView>::empty());
    assert(worksheets_xml(Seq::<WorksheetView>::empty()) == Seq::<char>::empty());
    assert(mid.last() == ws[i]);
    assert(worksheets_xml(mid) == worksheets_xml(mid.drop_last()) + worksheet_xml(mid.last())
        + "\n"@);
    assert(worksheets_xml(mid) =~= worksheet_xml(ws[i]) + "\n"@);
    assert(workbook_header() + "\n"@ + (worksheets_xml(head) + (worksheet_xml(ws[i]) + "\n"@)
        + worksheets_xml(tail)) + "</Workbook>"@ =~= workbook_header() + "\n"@
        + worksheets_xml(head) + (worksheet_xml(ws[i]) + "\n"@) + worksheets_xml(tail)
        + "</Workbook>"@);
}

/// An empty worksheet list still yields a well-formed document: the header,
/// a newline, and the closing root tag alone.
pub proof fn lemma_empty_workbook_xml()
    ensures
        workbook_xml(Seq::<WorksheetView>::empty()) == workbook_header() + "\n"@ + "</Workbook>"@,
{
    assert(worksheets_xml(Seq::<WorksheetView>::empty()) == Seq::<char>::empty());
    assert(workbook_header() + "\n"@ + Seq::<char>::empty() + "</Workbook>"@ =~= workbook_header()
        + "\n"@ + "</Workbook>"@);
}

} // verus!
